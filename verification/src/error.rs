//! The reasons for which an era code is rejected.

use crate::digits::{spec_two_digits, two_digits};
use crate::era::Era;
use vstd::prelude::*;

verus! {

/// Why an era code has no Gregorian year.
#[derive(Clone, Copy, Debug, PartialEq, Eq, Structural)]
pub enum ErrorKind {
    /// The code does not have exactly three characters.
    InvalidLength,
    /// The last two characters are not both decimal digits.
    InvalidYear,
    /// The year within the era is below one.
    YearTooLow,
    /// The first character stands for no era.
    UnknownEra,
    /// The year within the era lies after the era's last year.
    EraYearOutOfRange(Era),
}

impl ErrorKind {
    /// The text of the message for this error.
    pub open spec fn spec_message(self) -> Seq<char> {
        match self {
            ErrorKind::InvalidLength => "`wareki` must have 3 characters."@,
            ErrorKind::InvalidYear => "Year must be two digits."@,
            ErrorKind::YearTooLow => "Year is more than 1."@,
            ErrorKind::UnknownEra => "Unknown era."@,
            ErrorKind::EraYearOutOfRange(era) => match era.definition().max_year {
                Some(max) => era.spec_name() + " until "@ + spec_two_digits(max as int) + "."@,
                None => era.spec_name() + " has no last year."@,
            },
        }
    }

    /// A message for the reader of an error report. For a year that is out of
    /// range it names the era and its last year.
    pub fn message(self) -> (s: String)
        ensures
            s@ == self.spec_message(),
    {
        match self {
            ErrorKind::InvalidLength => String::from_str("`wareki` must have 3 characters."),
            ErrorKind::InvalidYear => String::from_str("Year must be two digits."),
            ErrorKind::YearTooLow => String::from_str("Year is more than 1."),
            ErrorKind::UnknownEra => String::from_str("Unknown era."),
            ErrorKind::EraYearOutOfRange(era) => match era.definition().max_year {
                Some(max) => {
                    let last = two_digits(max);
                    String::from_str(era.name()).concat(" until ").concat(last.as_str()).concat(".")
                },
                None => String::from_str(era.name()).concat(" has no last year."),
            },
        }
    }
}

/// The messages for the four eras that have ended, written out.
pub proof fn lemma_out_of_range_messages()
    ensures
        ErrorKind::EraYearOutOfRange(Era::Meiji).spec_message() == "Meiji until 45."@,
        ErrorKind::EraYearOutOfRange(Era::Taisho).spec_message() == "Taisho until 15."@,
        ErrorKind::EraYearOutOfRange(Era::Showa).spec_message() == "Showa until 64."@,
        ErrorKind::EraYearOutOfRange(Era::Heisei).spec_message() == "Heisei until 31."@,
{
    reveal_names();
    reveal_strlit(" until ");
    reveal_strlit(".");
    reveal_strlit("Meiji until 45.");
    reveal_strlit("Taisho until 15.");
    reveal_strlit("Showa until 64.");
    reveal_strlit("Heisei until 31.");
    assert(ErrorKind::EraYearOutOfRange(Era::Meiji).spec_message() =~= "Meiji until 45."@);
    assert(ErrorKind::EraYearOutOfRange(Era::Taisho).spec_message() =~= "Taisho until 15."@);
    assert(ErrorKind::EraYearOutOfRange(Era::Showa).spec_message() =~= "Showa until 64."@);
    assert(ErrorKind::EraYearOutOfRange(Era::Heisei).spec_message() =~= "Heisei until 31."@);
}

/// A message tells which error it reports: two errors with the same message
/// are the same error.
pub proof fn lemma_message_identifies_error(a: ErrorKind, b: ErrorKind)
    requires
        a.spec_message() == b.spec_message(),
    ensures
        a == b,
{
    lemma_message_marks(a);
    lemma_message_marks(b);
}

/// The two characters of a message by which the errors are told apart.
spec fn marks(kind: ErrorKind) -> (char, char) {
    match kind {
        ErrorKind::InvalidLength => ('`', 'k'),
        ErrorKind::InvalidYear => ('Y', 'm'),
        ErrorKind::YearTooLow => ('Y', 'i'),
        ErrorKind::UnknownEra => ('U', 'w'),
        ErrorKind::EraYearOutOfRange(Era::Meiji) => ('M', ' '),
        ErrorKind::EraYearOutOfRange(Era::Taisho) => ('T', 'o'),
        ErrorKind::EraYearOutOfRange(Era::Showa) => ('S', ' '),
        ErrorKind::EraYearOutOfRange(Era::Heisei) => ('H', 'i'),
        ErrorKind::EraYearOutOfRange(Era::Reiwa) => ('R', ' '),
    }
}

proof fn lemma_message_marks(kind: ErrorKind)
    ensures
        kind.spec_message().len() > 5,
        marks(kind) == (kind.spec_message()[0], kind.spec_message()[5]),
{
    reveal_names();
    reveal_strlit("`wareki` must have 3 characters.");
    reveal_strlit("Year must be two digits.");
    reveal_strlit("Year is more than 1.");
    reveal_strlit("Unknown era.");
    reveal_strlit(" until ");
    reveal_strlit(".");
    reveal_strlit(" has no last year.");
}

proof fn reveal_names()
    ensures
        Era::Meiji.spec_name() == seq!['M', 'e', 'i', 'j', 'i'],
        Era::Taisho.spec_name() == seq!['T', 'a', 'i', 's', 'h', 'o'],
        Era::Showa.spec_name() == seq!['S', 'h', 'o', 'w', 'a'],
        Era::Heisei.spec_name() == seq!['H', 'e', 'i', 's', 'e', 'i'],
        Era::Reiwa.spec_name() == seq!['R', 'e', 'i', 'w', 'a'],
{
    reveal_strlit("Meiji");
    reveal_strlit("Taisho");
    reveal_strlit("Showa");
    reveal_strlit("Heisei");
    reveal_strlit("Reiwa");
    assert(Era::Meiji.spec_name() =~= seq!['M', 'e', 'i', 'j', 'i']);
    assert(Era::Taisho.spec_name() =~= seq!['T', 'a', 'i', 's', 'h', 'o']);
    assert(Era::Showa.spec_name() =~= seq!['S', 'h', 'o', 'w', 'a']);
    assert(Era::Heisei.spec_name() =~= seq!['H', 'e', 'i', 's', 'e', 'i']);
    assert(Era::Reiwa.spec_name() =~= seq!['R', 'e', 'i', 'w', 'a']);
}

} // verus!
