//! Resolution of the SSH directory path under the user's home.

use vstd::prelude::*;
use vstd::string::*;

use crate::results::{SshBuddyError, SshResult};

verus! {

/// Relies on dirs::home_dir: the user's home directory, if the OS can
/// name one.  The value depends on the environment, so nothing is
/// assumed of it.
#[verifier::external_body]
fn os_home_dir() -> (r: Option<String>) {
    dirs::home_dir().map(|p| p.to_string_lossy().into_owned())
}

/// The SSH directory under a given home directory.
pub fn ssh_dir_path_from_home(home: &str) -> (p: String)
    ensures
        p@ == home@ + "/.ssh"@,
{
    let mut p = String::from_str(home);
    p.append("/.ssh");
    p
}

/// The SSH directory under the current user's home, or the error owed
/// when no home directory can be resolved.
pub fn ssh_dir_path() -> (r: SshResult<String>)
    ensures
        r matches Ok(p) ==> exists|h: Seq<char>| p@ == h + "/.ssh"@,
        r matches Err(e) ==> e is HomeDirNotFound,
{
    match os_home_dir() {
        Some(home) => {
            let p = ssh_dir_path_from_home(home.as_str());
            proof {
                assert(p@ == home@ + "/.ssh"@);
            }
            Ok(p)
        },
        None => Err(SshBuddyError::HomeDirNotFound),
    }
}

} // verus!
