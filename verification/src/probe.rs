//! The uniform shape of a probe's outcome, and how an outcome settles into
//! a snapshot field.

use std::collections::HashMap;
use vstd::prelude::*;

verus! {

/// Why a probe's underlying call failed.
#[derive(Clone, Copy, Debug, PartialEq, Eq)]
pub enum ProbeError {
    /// The operating system refused or failed the read.
    Io,
    /// The caller lacks the right to read the source.
    Permission,
    /// The source was read but its contents made no sense.
    Parse,
}

/// What every probe hands back: a value, nothing, or a failure.
pub type ProbeOutcome<T> = Result<Option<T>, ProbeError>;

/// The snapshot field that an outcome leads to: the probed value where the
/// domain is active and the probe found one, and absence otherwise. A
/// failure degrades to absence like an empty result.
pub open spec fn settled<T>(active: bool, outcome: ProbeOutcome<T>) -> Option<T> {
    if active {
        match outcome {
            Ok(found) => found,
            Err(_) => None,
        }
    } else {
        None
    }
}

/// As [`settled`], for a domain that reports a list: an empty list counts
/// as nothing found.
pub open spec fn settled_list<T>(active: bool, outcome: ProbeOutcome<Vec<T>>) -> Option<Vec<T>> {
    match settled(active, outcome) {
        Some(list) => if list@.len() > 0 {
            Some(list)
        } else {
            None
        },
        None => None,
    }
}

/// As [`settled`], for a domain that reports a table keyed by device: an
/// empty table counts as nothing found.
pub open spec fn settled_table<V>(active: bool, outcome: ProbeOutcome<HashMap<u64, V>>) -> Option<
    HashMap<u64, V>,
> {
    match settled(active, outcome) {
        Some(table) => if table@.is_empty() {
            None
        } else {
            Some(table)
        },
        None => None,
    }
}

/// Settles a probe outcome into a snapshot field.
pub fn settle<T>(active: bool, outcome: ProbeOutcome<T>) -> (field: Option<T>)
    ensures
        field == settled(active, outcome),
{
    if !active {
        return None;
    }
    match outcome {
        Ok(found) => found,
        Err(_) => None,
    }
}

/// Settles the outcome of a probe that reports a list.
pub fn settle_list<T>(active: bool, outcome: ProbeOutcome<Vec<T>>) -> (field: Option<Vec<T>>)
    ensures
        field == settled_list(active, outcome),
{
    match settle(active, outcome) {
        Some(list) => if list.len() > 0 {
            Some(list)
        } else {
            None
        },
        None => None,
    }
}

/// Settles the outcome of a probe that reports a table keyed by device.
pub fn settle_table<V>(active: bool, outcome: ProbeOutcome<HashMap<u64, V>>) -> (field: Option<
    HashMap<u64, V>,
>)
    ensures
        field == settled_table(active, outcome),
{
    match settle(active, outcome) {
        Some(table) => if table.is_empty() {
            None
        } else {
            Some(table)
        },
        None => None,
    }
}

} // verus!
