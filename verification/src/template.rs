//! The template resolver: substitutes the five symbolic placeholder
//! tokens in a configuration payload with concrete values.  A payload is
//! resolved once, just before it is handed to the bulk loader; no
//! escaping and no recursive expansion takes place beyond the fixed
//! left-to-right chain of single-token replacements below.

use vstd::prelude::*;

use crate::text::{occurs_in, replace_all, spec_replace, lemma_replace_absent};

verus! {

/// The substitution table: one concrete value for each placeholder token.
pub struct Substitutions {
    /// Replaces `@SCHEMADIR@`: the discovered system schema directory as a
    /// `file:` URI.
    pub schema_dir_uri: String,
    /// Replaces `@WORKDIR@`: the instance's private working directory.
    pub work_dir: String,
    /// Replaces `@BASEDN@`: the base distinguished name.
    pub base_dn: String,
    /// Replaces `@ROOTDN@`: the administrator's distinguished name.
    pub root_dn: String,
    /// Replaces `@ROOTPW@`: the administrator's password.
    pub root_pw: String,
}

/// What resolution does to a payload: each token literally replaced by its
/// table entry, one token after the other in a fixed order.
pub open spec fn spec_resolve(s: Seq<char>, t: &Substitutions) -> Seq<char> {
    spec_replace(
        spec_replace(
            spec_replace(
                spec_replace(
                    spec_replace(s, "@SCHEMADIR@"@, t.schema_dir_uri@),
                    "@WORKDIR@"@,
                    t.work_dir@,
                ),
                "@BASEDN@"@,
                t.base_dn@,
            ),
            "@ROOTDN@"@,
            t.root_dn@,
        ),
        "@ROOTPW@"@,
        t.root_pw@,
    )
}

/// A payload that holds none of the five placeholder tokens.
pub open spec fn placeholder_free(s: Seq<char>) -> bool {
    &&& !occurs_in(s, "@SCHEMADIR@"@)
    &&& !occurs_in(s, "@WORKDIR@"@)
    &&& !occurs_in(s, "@BASEDN@"@)
    &&& !occurs_in(s, "@ROOTDN@"@)
    &&& !occurs_in(s, "@ROOTPW@"@)
}

/// Resolve a payload against a substitution table.
pub fn resolve(content: &str, t: &Substitutions) -> (r: String)
    ensures
        r@ == spec_resolve(content@, t),
{
    proof {
        reveal_strlit("@SCHEMADIR@");
        reveal_strlit("@WORKDIR@");
        reveal_strlit("@BASEDN@");
        reveal_strlit("@ROOTDN@");
        reveal_strlit("@ROOTPW@");
    }
    let a = replace_all(content, "@SCHEMADIR@", t.schema_dir_uri.as_str());
    let b = replace_all(a.as_str(), "@WORKDIR@", t.work_dir.as_str());
    let c = replace_all(b.as_str(), "@BASEDN@", t.base_dn.as_str());
    let d = replace_all(c.as_str(), "@ROOTDN@", t.root_dn.as_str());
    replace_all(d.as_str(), "@ROOTPW@", t.root_pw.as_str())
}

/// Resolution is the identity on placeholder-free content, whatever the
/// substitution table holds.
pub proof fn lemma_resolve_identity_on_placeholder_free(s: Seq<char>, t: &Substitutions)
    requires
        placeholder_free(s),
    ensures
        spec_resolve(s, t) == s,
{
    reveal_strlit("@SCHEMADIR@");
    reveal_strlit("@WORKDIR@");
    reveal_strlit("@BASEDN@");
    reveal_strlit("@ROOTDN@");
    reveal_strlit("@ROOTPW@");
    lemma_replace_absent(s, "@SCHEMADIR@"@, t.schema_dir_uri@);
    lemma_replace_absent(s, "@WORKDIR@"@, t.work_dir@);
    lemma_replace_absent(s, "@BASEDN@"@, t.base_dn@);
    lemma_replace_absent(s, "@ROOTDN@"@, t.root_dn@);
    lemma_replace_absent(s, "@ROOTPW@"@, t.root_pw@);
}

} // verus!
