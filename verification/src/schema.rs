//! Discovery of the system schema directory: a fixed, ordered list of
//! well-known locations is probed, and the first existing directory
//! wins.  The probing itself is filesystem work done by the driver; the
//! choice made from the probe results is decided here.

use vstd::prelude::*;

verus! {

/// The fixed, ordered list of well-known schema directory locations.
pub fn schema_dir_candidates() -> (r: Vec<&'static str>)
    ensures
        r@.len() == 3,
        r@[0]@ == "/etc/ldap/schema"@,
        r@[1]@ == "/usr/local/etc/openldap/schema"@,
        r@[2]@ == "/etc/openldap/schema/"@,
{
    let mut v: Vec<&'static str> = Vec::new();
    v.push("/etc/ldap/schema");
    v.push("/usr/local/etc/openldap/schema");
    v.push("/etc/openldap/schema/");
    v
}

/// Pick the first candidate whose probe succeeded: `probes[i]` says
/// whether candidate `i` exists and is a directory.  `None` exactly when
/// every probe failed.
pub fn pick_first_existing(probes: &Vec<bool>) -> (r: Option<usize>)
    ensures
        (r matches Some(i) ==> i < probes@.len() && probes@[i as int] && (forall|j: int|
            0 <= j < i ==> !probes@[j])),
        (r is None <==> (forall|j: int| 0 <= j < probes@.len() ==> !probes@[j])),
{
    let mut i: usize = 0;
    while i < probes.len()
        invariant
            i <= probes@.len(),
            forall|j: int| 0 <= j < i ==> !probes@[j],
        decreases probes@.len() - i,
    {
        if probes[i] {
            return Some(i);
        }
        i = i + 1;
    }
    None
}

} // verus!
