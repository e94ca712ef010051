//! The machine's host name, as the companions report it.
use vstd::prelude::*;

use crate::text::to_owned_string;

verus! {

/// A host name holds no NUL character.
pub open spec fn has_no_nul(s: Seq<char>) -> bool {
    forall|i: int| 0 <= i < s.len() ==> s[i] != '\0'
}

/// `hostname::get()`, converted to UTF-8: the machine's host name, or
/// `None` when it cannot be read or is not valid UTF-8. The contract claims
/// only that a name read holds no NUL character: on Unix the crate cuts the
/// buffer `gethostname` filled at its first NUL byte, and on Windows it keeps
/// the count `GetComputerNameExW` reports, which excludes the terminator.
/// Which name comes back depends on the machine and is left unsaid.
#[verifier::external_body]
fn machine_hostname() -> (r: Option<String>)
    ensures
        r matches Some(n) ==> has_no_nul(n@),
{
    match hostname::get() {
        Ok(h) => h.into_string().ok(),
        Err(_) => None,
    }
}

/// The name to report: the host name when it was read, else `"Unknown-PC"`.
pub fn hostname_or_unknown(h: Option<String>) -> (r: String)
    ensures
        h matches Some(n) ==> r == n,
        h is None ==> r@ == "Unknown-PC"@,
{
    match h {
        Some(n) => n,
        None => to_owned_string("Unknown-PC"),
    }
}

/// This machine's name for heartbeats and the status view: the host name
/// when it could be read, else `"Unknown-PC"`; either way free of NULs.
pub fn local_hostname() -> (r: String)
    ensures
        has_no_nul(r@),
{
    let h = machine_hostname();
    proof {
        reveal_strlit("Unknown-PC");
    }
    hostname_or_unknown(h)
}

} // verus!
