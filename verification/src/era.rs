//! The five supported eras and the fixed table that describes them.

use vstd::prelude::*;

verus! {

/// An era of the Japanese calendar.
#[derive(Clone, Copy, Debug, PartialEq, Eq, Structural)]
pub enum Era {
    Meiji,
    Taisho,
    Showa,
    Heisei,
    Reiwa,
}

/// One row of the era table.
///
/// The Gregorian year of the `n`-th year of an era (counting from 1) is
/// `year_offset + n`. An era that has ended has a last year, `max_year`.
#[derive(Clone, Copy, Debug)]
pub struct EraDefinition {
    pub era: Era,
    /// The letter that stands for the era in a code.
    pub letter: char,
    /// The digit that stands for the era in a code; a synonym of `letter`.
    pub digit: char,
    pub year_offset: i32,
    pub max_year: Option<i32>,
}

impl EraDefinition {
    /// Whether `c` is one of the two prefixes of this era.
    pub open spec fn spec_has_prefix(self, c: char) -> bool {
        c == self.letter || c == self.digit
    }

    /// Whether `c` is the letter or the digit of this era.
    #[verifier::when_used_as_spec(spec_has_prefix)]
    pub fn has_prefix(self, c: char) -> (b: bool)
        ensures
            b == self.spec_has_prefix(c),
    {
        c == self.letter || c == self.digit
    }

    /// Whether the era has a last year and `era_year` lies after it.
    pub open spec fn spec_exceeds_max(self, era_year: int) -> bool {
        self.max_year matches Some(max) && era_year > max
    }

    /// Whether `era_year` lies after the last year of the era. Never so for
    /// an era that has no last year.
    pub fn exceeds_max(self, era_year: i32) -> (b: bool)
        ensures
            b == self.spec_exceeds_max(era_year as int),
    {
        match self.max_year {
            Some(max) => era_year > max,
            None => false,
        }
    }
}

impl Era {
    /// The name of the era in Latin letters.
    pub open spec fn spec_name(self) -> Seq<char> {
        match self {
            Era::Meiji => "Meiji"@,
            Era::Taisho => "Taisho"@,
            Era::Showa => "Showa"@,
            Era::Heisei => "Heisei"@,
            Era::Reiwa => "Reiwa"@,
        }
    }

    /// The name of the era in Latin letters.
    pub fn name(self) -> (s: &'static str)
        ensures
            s@ == self.spec_name(),
    {
        match self {
            Era::Meiji => "Meiji",
            Era::Taisho => "Taisho",
            Era::Showa => "Showa",
            Era::Heisei => "Heisei",
            Era::Reiwa => "Reiwa",
        }
    }

    /// The era table.
    pub open spec fn spec_definition(self) -> EraDefinition {
        match self {
            Era::Meiji => EraDefinition {
                era: Era::Meiji,
                letter: 'M',
                digit: '1',
                year_offset: 1867,
                max_year: Some(45i32),
            },
            Era::Taisho => EraDefinition {
                era: Era::Taisho,
                letter: 'T',
                digit: '2',
                year_offset: 1911,
                max_year: Some(15i32),
            },
            Era::Showa => EraDefinition {
                era: Era::Showa,
                letter: 'S',
                digit: '3',
                year_offset: 1925,
                max_year: Some(64i32),
            },
            Era::Heisei => EraDefinition {
                era: Era::Heisei,
                letter: 'H',
                digit: '4',
                year_offset: 1988,
                max_year: Some(31i32),
            },
            Era::Reiwa => EraDefinition {
                era: Era::Reiwa,
                letter: 'R',
                digit: '5',
                year_offset: 2018,
                max_year: None,
            },
        }
    }

    /// The row of the era table for this era.
    #[verifier::when_used_as_spec(spec_definition)]
    pub fn definition(self) -> (d: EraDefinition)
        ensures
            d == self.spec_definition(),
    {
        match self {
            Era::Meiji => EraDefinition {
                era: Era::Meiji,
                letter: 'M',
                digit: '1',
                year_offset: 1867,
                max_year: Some(45),
            },
            Era::Taisho => EraDefinition {
                era: Era::Taisho,
                letter: 'T',
                digit: '2',
                year_offset: 1911,
                max_year: Some(15),
            },
            Era::Showa => EraDefinition {
                era: Era::Showa,
                letter: 'S',
                digit: '3',
                year_offset: 1925,
                max_year: Some(64),
            },
            Era::Heisei => EraDefinition {
                era: Era::Heisei,
                letter: 'H',
                digit: '4',
                year_offset: 1988,
                max_year: Some(31),
            },
            Era::Reiwa => EraDefinition {
                era: Era::Reiwa,
                letter: 'R',
                digit: '5',
                year_offset: 2018,
                max_year: None,
            },
        }
    }
}

impl Era {
    /// The letter of the era as a string of one character.
    pub fn letter_str(self) -> (s: &'static str)
        ensures
            s@ == seq![self.definition().letter],
    {
        proof {
            reveal_strlit("M");
            reveal_strlit("T");
            reveal_strlit("S");
            reveal_strlit("H");
            reveal_strlit("R");
        }
        let s: &'static str = match self {
            Era::Meiji => "M",
            Era::Taisho => "T",
            Era::Showa => "S",
            Era::Heisei => "H",
            Era::Reiwa => "R",
        };
        assert(s@ =~= seq![self.definition().letter]);
        s
    }

    /// The era that the prefix `c` of a code stands for, if any.
    pub open spec fn spec_from_prefix(c: char) -> Option<Era> {
        if Era::Meiji.definition().has_prefix(c) {
            Some(Era::Meiji)
        } else if Era::Taisho.definition().has_prefix(c) {
            Some(Era::Taisho)
        } else if Era::Showa.definition().has_prefix(c) {
            Some(Era::Showa)
        } else if Era::Heisei.definition().has_prefix(c) {
            Some(Era::Heisei)
        } else if Era::Reiwa.definition().has_prefix(c) {
            Some(Era::Reiwa)
        } else {
            None
        }
    }

    /// Looks the prefix `c` up in the era table.
    #[verifier::when_used_as_spec(spec_from_prefix)]
    pub fn from_prefix(c: char) -> (r: Option<Era>)
        ensures
            r == Era::spec_from_prefix(c),
    {
        let table: [Era; 5] = [Era::Meiji, Era::Taisho, Era::Showa, Era::Heisei, Era::Reiwa];
        let mut i: usize = 0;
        while i < 5
            invariant
                i <= 5,
                table[0] == Era::Meiji,
                table[1] == Era::Taisho,
                table[2] == Era::Showa,
                table[3] == Era::Heisei,
                table[4] == Era::Reiwa,
                forall|j: int| 0 <= j < i ==> !(#[trigger] table[j]).definition().has_prefix(c),
            decreases 5 - i,
        {
            let era: Era = table[i];
            if era.definition().has_prefix(c) {
                return Some(era);
            }
            i += 1;
        }
        None
    }

    /// Every row of the table is the row of its own era, counts from a
    /// positive offset, and has a last year, if any, that two digits can
    /// write.
    pub proof fn lemma_table_well_formed(era: Era)
        ensures
            era.definition().era == era,
            era.definition().letter != era.definition().digit,
            era.definition().year_offset > 0,
            era.definition().max_year matches Some(max) ==> 1 <= max <= 99,
    {
    }

    /// The eras follow one another without a gap: the last year of each era
    /// that has ended is the first year of the next.
    pub proof fn lemma_eras_are_consecutive()
        ensures
            Era::Meiji.definition().year_offset + Era::Meiji.definition().max_year->Some_0
                == Era::Taisho.definition().year_offset + 1,
            Era::Taisho.definition().year_offset + Era::Taisho.definition().max_year->Some_0
                == Era::Showa.definition().year_offset + 1,
            Era::Showa.definition().year_offset + Era::Showa.definition().max_year->Some_0
                == Era::Heisei.definition().year_offset + 1,
            Era::Heisei.definition().year_offset + Era::Heisei.definition().max_year->Some_0
                == Era::Reiwa.definition().year_offset + 1,
    {
    }

    /// No two eras share a prefix: `c` is looked up as `era` exactly when it
    /// is the letter or the digit of `era`.
    pub proof fn lemma_prefix_identifies_era(era: Era, c: char)
        ensures
            Era::from_prefix(c) == Some(era) <==> era.definition().has_prefix(c),
    {
    }
}

} // verus!
