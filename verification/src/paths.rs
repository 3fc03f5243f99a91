//! Resolution of the base directory all servers are stored under.
//! Only resolves paths; creates nothing.

use vstd::prelude::*;
use crate::text::path_join;

verus! {

/// Relies on dirs::data_dir: the platform's per-user data directory,
/// when the OS reports one, converted to a string. Depends on the
/// environment, so nothing is promised of the value.
#[verifier::external_body]
fn data_dir_string() -> (r: Option<String>) {
    dirs::data_dir().and_then(|p| p.to_str().map(|s| s.to_string()))
}

/// The servers directory under a given data directory.
pub open spec fn servers_dir_of(data: Seq<char>) -> Seq<char> {
    data + "/"@ + "Cubely/servers"@
}

/// Resolves the base directory all servers are stored under: the
/// app's subpath below the OS data directory, or nothing when the OS
/// reports no data directory. The directory is not created.
pub fn servers_dir() -> (r: Option<String>)
    ensures
        r matches Some(s) ==> exists|d: Seq<char>| s@ == #[trigger] servers_dir_of(d),
{
    match data_dir_string() {
        None => None,
        Some(d) => {
            let joined = path_join(d.as_str(), "Cubely/servers");
            proof {
                assert(joined@ == servers_dir_of(d@));
            }
            Some(joined)
        },
    }
}

} // verus!
