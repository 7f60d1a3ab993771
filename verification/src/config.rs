//! The one configuration setting: where the store lives on disk.

use vstd::prelude::*;

verus! {

broadcast use vstd::string::to_string_from_display_ensures_for_str;

/// The filesystem location of the store, as the host configures it.
pub struct DatabaseLocation(pub String);

/// The location used when none is configured.
pub open spec fn default_location() -> Seq<char> {
    "./database"@
}

/// The store location to open: the configured one, or the default if none
/// was configured.
pub fn resolve_location(configured: Option<DatabaseLocation>) -> (r: String)
    ensures
        configured matches Some(l) ==> r@ == l.0@,
        configured is None ==> r@ == default_location(),
{
    match configured {
        Some(l) => l.0,
        None => "./database".to_string(),
    }
}

} // verus!
