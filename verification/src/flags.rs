//! IMAP message flags, reduced to the set this library models, and the
//! three booleans the application reads off them.
use vstd::prelude::*;

verus! {

/// A message flag reported by the server; flags outside the standard set
/// are `Other` and never affect the modeled booleans.
#[derive(Clone, Copy, PartialEq, Eq, Structural, Debug)]
pub enum MailFlag {
    Seen,
    Answered,
    Flagged,
    Deleted,
    Draft,
    Recent,
    Other,
}

/// Whether the flag set holds the given flag.
pub fn has_flag(flags: &Vec<MailFlag>, flag: MailFlag) -> (r: bool)
    ensures
        r == flags@.contains(flag),
{
    let mut i: usize = 0;
    while i < flags.len()
        invariant
            i <= flags@.len(),
            forall|j: int| 0 <= j < i ==> flags@[j] != flag,
        decreases flags.len() - i,
    {
        if flags[i] == flag {
            return true;
        }
        i = i + 1;
    }
    false
}

/// Read status: exactly the presence of the Seen flag.
pub fn is_read(flags: &Vec<MailFlag>) -> (r: bool)
    ensures
        r == flags@.contains(MailFlag::Seen),
{
    has_flag(flags, MailFlag::Seen)
}

/// Starred status: exactly the presence of the Flagged flag.
pub fn is_starred(flags: &Vec<MailFlag>) -> (r: bool)
    ensures
        r == flags@.contains(MailFlag::Flagged),
{
    has_flag(flags, MailFlag::Flagged)
}

/// Draft status: exactly the presence of the Draft flag.
pub fn is_draft(flags: &Vec<MailFlag>) -> (r: bool)
    ensures
        r == flags@.contains(MailFlag::Draft),
{
    has_flag(flags, MailFlag::Draft)
}

} // verus!
