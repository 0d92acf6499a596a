//! Settings read from the environment under a current and a legacy name.
use vstd::prelude::*;

use crate::text::owned;
use crate::types::opt_string_view;

verus! {

/// The value under the current name, else the one under the legacy name.
pub fn var(primary: Option<String>, legacy: Option<String>) -> (res: Option<String>)
    ensures
        opt_string_view(res) == match opt_string_view(primary) {
            Some(p) => Some(p),
            None => opt_string_view(legacy),
        },
{
    match primary {
        Some(p) => Some(p),
        None => legacy,
    }
}

/// The value under the current name, else the one under the legacy name,
/// else `default`.
pub fn var_or(primary: Option<String>, legacy: Option<String>, default: &str) -> (res: String)
    ensures
        res@ == match opt_string_view(primary) {
            Some(p) => p,
            None => match opt_string_view(legacy) {
                Some(l) => l,
                None => default@,
            },
        },
{
    match var(primary, legacy) {
        Some(v) => v,
        None => owned(default),
    }
}

} // verus!
