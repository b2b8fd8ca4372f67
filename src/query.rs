use vstd::prelude::*;

use crate::date::Date;
use crate::text::{contains, is_substring};

verus! {

/// An exact-match slot: absent, or equal to the field.
pub open spec fn text_is(slot: Option<String>, field: Seq<char>) -> bool {
    match slot {
        Some(q) => q@ == field,
        None => true,
    }
}

/// A free-text slot: absent, or occurring in the field.
pub open spec fn text_has(slot: Option<String>, field: Seq<char>) -> bool {
    match slot {
        Some(q) => is_substring(q@, field),
        None => true,
    }
}

/// A free-text slot over an optional field: absent, or occurring in a field
/// that is present.
pub open spec fn text_has_opt(slot: Option<String>, field: Option<String>) -> bool {
    match slot {
        Some(q) => match field {
            Some(f) => is_substring(q@, f@),
            None => false,
        },
        None => true,
    }
}

/// A slot of any other kind: absent, or equal to the field.
pub open spec fn value_is<T>(slot: Option<T>, field: T) -> bool {
    match slot {
        Some(q) => q == field,
        None => true,
    }
}

pub fn check_text_is(slot: &Option<String>, field: &String) -> (r: bool)
    ensures
        r == text_is(*slot, field@),
{
    match slot {
        Some(q) => q.eq(field),
        None => true,
    }
}

pub fn check_text_has(slot: &Option<String>, field: &String) -> (r: bool)
    ensures
        r == text_has(*slot, field@),
{
    match slot {
        Some(q) => contains(field, q),
        None => true,
    }
}

pub fn check_text_has_opt(slot: &Option<String>, field: &Option<String>) -> (r: bool)
    ensures
        r == text_has_opt(*slot, *field),
{
    match slot {
        Some(q) => match field {
            Some(f) => contains(f, q),
            None => false,
        },
        None => true,
    }
}

/// An end-date slot: absent, or equal to an end date that is present.
pub open spec fn end_is(slot: Option<Date>, field: Option<Date>) -> bool {
    match slot {
        Some(d) => field == Some(d),
        None => true,
    }
}

pub fn check_end_is(slot: &Option<Date>, field: &Option<Date>) -> (r: bool)
    ensures
        r == end_is(*slot, *field),
{
    match slot {
        Some(d) => match field {
            Some(f) => *d == *f,
            None => false,
        },
        None => true,
    }
}

/// A copy of an optional text.
pub fn copy_opt(o: &Option<String>) -> (r: Option<String>)
    ensures
        r == *o,
{
    match o {
        Some(s) => Some(s.clone()),
        None => None,
    }
}

} // verus!
