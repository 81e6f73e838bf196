//! Field-level rules for reconciling a partial configuration record with a
//! record of defaults.
use vstd::prelude::*;

verus! {

/// The value a field takes once its override is resolved against its default.
pub open spec fn merge_field<T>(c: Option<T>, d: T) -> T {
    match c {
        Some(v) => v,
        None => d,
    }
}

/// The override needed to reproduce `e` given the default `d`: none at all when
/// the two agree.
pub open spec fn diff_field<T>(e: T, d: T) -> Option<T> {
    if e == d {
        None
    } else {
        Some(e)
    }
}

/// A linked pair is kept or dropped as a unit: both overrides disappear when
/// both members sit at their defaults, otherwise both are kept.
pub open spec fn diff_pair<T>(e: (T, T), d: (T, T)) -> (Option<T>, Option<T>) {
    if e.0 == d.0 && e.1 == d.1 {
        (None, None)
    } else {
        (Some(e.0), Some(e.1))
    }
}

/// An override that equals its default carries no information.
pub open spec fn strip_field<T>(c: Option<T>, d: T) -> Option<T> {
    match c {
        Some(v) => if v == d { None } else { Some(v) },
        None => None,
    }
}

/// A copy of an optional string.
pub fn copy_opt_string(v: &Option<String>) -> (r: Option<String>)
    ensures
        r.deep_view() == v.deep_view(),
{
    match v {
        Some(s) => Some(s.clone()),
        None => None,
    }
}

} // verus!
