use vstd::prelude::*;

verus! {

/// The lowercase form of a string, as `str::to_lowercase` gives it.
pub uninterp spec fn lower_of(s: Seq<char>) -> Seq<char>;

/// Relies on str::to_lowercase: the result depends on the characters alone.
#[verifier::external_body]
fn lowercase(s: &str) -> (r: String)
    ensures
        r@ == lower_of(s@),
{
    s.to_lowercase()
}

/// A lowercased development-mode setting reads as on.
pub fn is_true_setting(lowered: &str) -> (r: bool)
    ensures
        r == (lowered@ == "true"@),
{
    lowered.to_owned() == "true".to_owned()
}

/// The development-mode setting `value` (absent when unset) turns on the
/// debugging styles: it reads "true" in any letter case.
pub fn is_ui_dev(value: Option<&str>) -> (r: bool)
    ensures
        r == match value {
            Some(v) => lower_of(v@) == "true"@,
            None => false,
        },
{
    match value {
        Some(v) => {
            let lowered = lowercase(v);
            is_true_setting(lowered.as_str())
        },
        None => false,
    }
}

} // verus!
