//! Built-in profile defaults applied when `zerum.toml` has no per-check override.
use vstd::prelude::*;
use crate::text::str_eq;

verus! {

/// Checks switched off by the built-in `default` profile (noisy heuristics and
/// rules that need project context): readability docstring and comment
/// patterns, consistency and design pattern heuristics, pattern-heavy AI rules.
pub open spec fn default_disabled(id: Seq<char>) -> bool {
    ||| id == "ZR007"@ ||| id == "ZR008"@ ||| id == "ZR011"@ ||| id == "ZR012"@
    ||| id == "ZR013"@ ||| id == "ZR014"@ ||| id == "ZR015"@
    ||| id == "ZR102"@ ||| id == "ZR103"@ ||| id == "ZR104"@ ||| id == "ZR107"@
    ||| id == "ZR108"@ ||| id == "ZR109"@ ||| id == "ZR110"@
    ||| id == "ZR202"@ ||| id == "ZR203"@ ||| id == "ZR204"@ ||| id == "ZR206"@
    ||| id == "ZR208"@ ||| id == "ZR210"@
    ||| id == "ZR503"@ ||| id == "ZR505"@ ||| id == "ZR506"@ ||| id == "ZR509"@
    ||| id == "ZR510"@
}

/// Whether the built-in `default` profile switches the check `id` off.
pub fn is_disabled_in_default_profile(id: &str) -> (r: bool)
    ensures
        r == default_disabled(id@),
{
    str_eq(id, "ZR007") || str_eq(id, "ZR008") || str_eq(id, "ZR011") || str_eq(id, "ZR012")
        || str_eq(id, "ZR013") || str_eq(id, "ZR014") || str_eq(id, "ZR015")
        || str_eq(id, "ZR102") || str_eq(id, "ZR103") || str_eq(id, "ZR104")
        || str_eq(id, "ZR107") || str_eq(id, "ZR108") || str_eq(id, "ZR109")
        || str_eq(id, "ZR110") || str_eq(id, "ZR202") || str_eq(id, "ZR203")
        || str_eq(id, "ZR204") || str_eq(id, "ZR206") || str_eq(id, "ZR208")
        || str_eq(id, "ZR210") || str_eq(id, "ZR503") || str_eq(id, "ZR505")
        || str_eq(id, "ZR506") || str_eq(id, "ZR509") || str_eq(id, "ZR510")
}

} // verus!
