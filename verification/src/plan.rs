//! Finalize: from the staged builder to a complete startup plan.
//!
//! The plan is assembled strictly before any process may be spawned:
//! schema discovery first (failure aborts with no state created), then
//! ports, TLS material, template resolution and the loader plan.  The
//! unverified driver executes the plan — writes the spool files, runs
//! the bulk loader once per step in order, spawns the daemon with the
//! planned argument list — and feeds what it observes to the supervisor
//! state machine.

use vstd::prelude::*;
use vstd::string::StringExecFns;

use crate::assembler::{
    assembly_plan, is_template_file, path_join, resolve_directives, spec_loader_argv,
    spec_path_join, spec_tmp_name, LoaderStep,
};
use crate::builder::{LdapFile, LdapServerBuilder};
use crate::ports::choose_port;
use crate::schema::{pick_first_existing, schema_dir_candidates};
use crate::template::{spec_resolve, Substitutions};
use crate::text::{spec_dec, u64_dec_string};
use crate::tls::provision_tls;
use crate::uri::{file_uri_of, path_to_file_uri};

verus! {

/// Why finalize failed before a daemon was ever spawned.
#[derive(PartialEq, Eq, Structural, Clone, Copy, Debug)]
pub enum SetupError {
    /// No candidate schema directory exists: a pre-flight discovery
    /// error, surfaced with no partial state created.
    SchemaDirNotFound,
    /// Self-signed certificate generation failed (never raised when an
    /// explicit pair was supplied).
    TlsGenerationFailed,
}

/// The schema directory candidate at position `i` of the fixed list.
pub open spec fn spec_candidate(i: int) -> Seq<char> {
    if i == 0 {
        "/etc/ldap/schema"@
    } else if i == 1 {
        "/usr/local/etc/openldap/schema"@
    } else {
        "/etc/openldap/schema/"@
    }
}

/// `i` is the first index whose probe succeeded.
pub open spec fn spec_first_true(probes: Seq<bool>, i: int) -> bool {
    &&& 0 <= i < probes.len()
    &&& probes[i]
    &&& forall|j: int| 0 <= j < i ==> !probes[j]
}

/// The host the instance binds: the configured bind address, or the
/// loopback address.
pub open spec fn spec_bind_host(b: &LdapServerBuilder) -> Seq<char> {
    match b.bind_addr {
        Some(a) => a@,
        None => "127.0.0.1"@,
    }
}

/// The configured bind host as text.
pub fn bind_host(b: &LdapServerBuilder) -> (r: String)
    ensures
        r@ == spec_bind_host(b),
{
    match &b.bind_addr {
        Some(a) => a.clone(),
        None => String::from_str("127.0.0.1"),
    }
}

/// The plaintext endpoint URL.
pub open spec fn spec_plain_url(host: Seq<char>, port: u16) -> Seq<char> {
    "ldap://"@ + host + ":"@ + spec_dec(port as int)
}

/// The TLS endpoint URL.
pub open spec fn spec_tls_url(host: Seq<char>, port: u16) -> Seq<char> {
    "ldaps://"@ + host + ":"@ + spec_dec(port as int)
}

/// Render the plaintext endpoint URL.
pub fn plain_url(host: &str, port: u16) -> (r: String)
    ensures
        r@ == spec_plain_url(host@, port),
{
    let mut s = String::from_str("ldap://");
    s.append(host);
    s.append(":");
    let d = u64_dec_string(port as u64);
    s.append(d.as_str());
    s
}

/// Render the TLS endpoint URL.
pub fn tls_url(host: &str, port: u16) -> (r: String)
    ensures
        r@ == spec_tls_url(host@, port),
{
    let mut s = String::from_str("ldaps://");
    s.append(host);
    s.append(":");
    let d = u64_dec_string(port as u64);
    s.append(d.as_str());
    s
}

/// What one plan entry does with the directive it came from: the
/// composition of template resolution and loader-step construction.
pub open spec fn loads_directive(
    step: LoaderStep,
    d: (u8, LdapFile),
    idx: int,
    work_dir: Seq<char>,
    config_dir: Seq<char>,
    schema_dir: Seq<char>,
    t: &Substitutions,
) -> bool {
    &&& step.db_number == d.0
    &&& (match d.1 {
        LdapFile::SystemSchema(f) => step.spool is None && step.source_path@ == spec_path_join(
            schema_dir,
            f@,
        ),
        LdapFile::File { file, .. } => step.spool is None && step.source_path@ == file@,
        LdapFile::Text { template, content } => step.spool matches Some(pc) && pc.0@
            == spec_path_join(work_dir, spec_tmp_name(idx)) && pc.1@ == (if template {
            spec_resolve(content@, t)
        } else {
            content@
        }) && step.source_path@ == spec_path_join(work_dir, spec_tmp_name(idx)),
    })
    &&& spec_loader_argv(step.argv@, config_dir, d.0, step.source_path@)
}

/// Everything the driver needs to bring one instance up.
pub struct StartupPlan {
    /// The discovered system schema directory.
    pub schema_dir: String,
    /// The instance's private working directory.
    pub work_dir: String,
    /// The configuration directory to create inside the working
    /// directory, fully assembled before the daemon is spawned.
    pub config_dir: String,
    /// The bind host.
    pub host: String,
    /// The plaintext listen port.
    pub port: u16,
    /// The TLS listen port.
    pub ssl_port: u16,
    /// The plaintext endpoint URL.
    pub url: String,
    /// The TLS endpoint URL.
    pub ssl_url: String,
    /// Both listen URLs, space separated, as the daemon receives them.
    pub urls: String,
    /// The certificate PEM the instance serves.
    pub ssl_cert_pem: String,
    /// The private key PEM.
    pub ssl_key_pem: String,
    /// Where the driver writes the certificate PEM.
    pub cert_path: String,
    /// Where the driver writes the key PEM.
    pub key_path: String,
    /// The substitution table every template was resolved against.
    pub substitutions: Substitutions,
    /// One bulk-loader invocation per directive, in insertion order.
    pub loader_steps: Vec<LoaderStep>,
    /// The daemon's argument list.
    pub daemon_argv: Vec<String>,
    /// Base distinguished name, carried to the connection.
    pub base_dn: String,
    /// Administrator distinguished name.
    pub root_dn: String,
    /// Administrator password.
    pub root_pw: String,
}

/// The whole contract of a finished plan against the builder it came
/// from.  Port numbers and TLS material are taken from the plan itself;
/// callers pin them separately where they are owed.
pub open spec fn plan_matches(
    b: &LdapServerBuilder,
    probes: Seq<bool>,
    work_dir: Seq<char>,
    p: &StartupPlan,
) -> bool {
    &&& exists|i: int| spec_first_true(probes, i) && p.schema_dir@ == spec_candidate(i)
    &&& p.work_dir@ == work_dir
    &&& p.config_dir@ == spec_path_join(work_dir, "config"@)
    &&& p.host@ == spec_bind_host(b)
    &&& p.url@ == spec_plain_url(p.host@, p.port)
    &&& p.ssl_url@ == spec_tls_url(p.host@, p.ssl_port)
    &&& p.urls@ == p.url@ + " "@ + p.ssl_url@
    &&& p.cert_path@ == spec_path_join(work_dir, "cert.pem"@)
    &&& p.key_path@ == spec_path_join(work_dir, "key.pem"@)
    &&& p.base_dn@ == b.base_dn@
    &&& p.root_dn@ == b.root_dn@
    &&& p.root_pw@ == b.root_pw@
    &&& p.substitutions.schema_dir_uri@ == file_uri_of(p.schema_dir@)
    &&& p.substitutions.work_dir@ == work_dir
    &&& p.substitutions.base_dn@ == b.base_dn@
    &&& p.substitutions.root_dn@ == b.root_dn@
    &&& p.substitutions.root_pw@ == b.root_pw@
    &&& p.loader_steps@.len() == b.directives@.len()
    &&& forall|i: int|
        0 <= i < b.directives@.len() ==> loads_directive(
            #[trigger] p.loader_steps@[i],
            b.directives@[i],
            i,
            work_dir,
            p.config_dir@,
            p.schema_dir@,
            &p.substitutions,
        )
    &&& p.daemon_argv@.len() == 6
    &&& p.daemon_argv@[0]@ == "-F"@
    &&& p.daemon_argv@[1]@ == p.config_dir@
    &&& p.daemon_argv@[2]@ == "-d"@
    &&& p.daemon_argv@[3]@ == "2048"@
    &&& p.daemon_argv@[4]@ == "-h"@
    &&& p.daemon_argv@[5]@ == p.urls@
}

/// Build the deterministic part of the plan, from already chosen ports
/// and TLS material.  Fails exactly when no schema directory probe
/// succeeded, before anything else is computed.
pub fn build_plan(
    b: &LdapServerBuilder,
    probes: &Vec<bool>,
    work_dir: &str,
    port: u16,
    ssl_port: u16,
    tls: (String, String),
) -> (r: Result<StartupPlan, SetupError>)
    requires
        probes@.len() == 3,
        forall|i: int|
            0 <= i < b.directives@.len() ==> !is_template_file(#[trigger] b.directives@[i].1),
    ensures
        (r matches Err(e) ==> e is SchemaDirNotFound),
        (r is Err <==> (forall|j: int| 0 <= j < probes@.len() ==> !probes@[j])),
        (r matches Ok(p) ==> plan_matches(b, probes@, work_dir@, &p) && p.port == port
            && p.ssl_port == ssl_port && p.ssl_cert_pem@ == tls.0@ && p.ssl_key_pem@ == tls.1@),
{
    let idx = match pick_first_existing(probes) {
        Some(i) => i,
        None => {
            return Err(SetupError::SchemaDirNotFound);
        },
    };
    let candidates = schema_dir_candidates();
    let schema_dir: &str = candidates[idx];
    proof {
        reveal_strlit("/etc/ldap/schema");
        reveal_strlit("/usr/local/etc/openldap/schema");
        reveal_strlit("/etc/openldap/schema/");
        assert(schema_dir@ == spec_candidate(idx as int));
        assert(schema_dir@[0] == '/');
    }
    let schema_dir_uri = match path_to_file_uri(schema_dir) {
        Some(u) => u,
        None => {
            // unreachable: every candidate is an absolute path
            proof {
                assert(false);
            }
            return Err(SetupError::SchemaDirNotFound);
        },
    };
    let subs = Substitutions {
        schema_dir_uri,
        work_dir: work_dir.to_owned(),
        base_dn: b.base_dn.clone(),
        root_dn: b.root_dn.clone(),
        root_pw: b.root_pw.clone(),
    };
    let config_dir = path_join(work_dir, "config");
    let resolved = resolve_directives(&b.directives, &subs);
    let loader_steps = assembly_plan(&resolved, work_dir, config_dir.as_str(), schema_dir);
    let host = bind_host(b);
    let url = plain_url(host.as_str(), port);
    let ssl_url = tls_url(host.as_str(), ssl_port);
    let mut urls = String::from_str(url.as_str());
    urls.append(" ");
    urls.append(ssl_url.as_str());
    let daemon_argv = crate::assembler::daemon_argv(config_dir.as_str(), urls.as_str());
    let (ssl_cert_pem, ssl_key_pem) = tls;
    let p = StartupPlan {
        schema_dir: String::from_str(schema_dir),
        work_dir: work_dir.to_owned(),
        config_dir,
        host,
        port,
        ssl_port,
        url,
        ssl_url,
        urls,
        ssl_cert_pem,
        ssl_key_pem,
        cert_path: path_join(work_dir, "cert.pem"),
        key_path: path_join(work_dir, "key.pem"),
        substitutions: subs,
        loader_steps,
        daemon_argv,
        base_dn: b.base_dn.clone(),
        root_dn: b.root_dn.clone(),
        root_pw: b.root_pw.clone(),
    };
    proof {
        assert(spec_first_true(probes@, idx as int) && p.schema_dir@ == spec_candidate(idx as int));
        assert forall|i: int| 0 <= i < b.directives@.len() implies loads_directive(
            #[trigger] p.loader_steps@[i],
            b.directives@[i],
            i,
            work_dir@,
            p.config_dir@,
            p.schema_dir@,
            &p.substitutions,
        ) by {
            assert(crate::assembler::directive_resolved(
                b.directives@[i],
                resolved@[i],
                &p.substitutions,
            ));
            assert(crate::assembler::step_matches(
                p.loader_steps@[i],
                resolved@[i],
                i,
                work_dir@,
                p.config_dir@,
                p.schema_dir@,
            ));
        }
    }
    Ok(p)
}

impl StartupPlan {
    /// The daemon argument list, released only once every loader step
    /// has run: the configuration directory is never partially visible
    /// to the daemon.
    pub fn daemon_argv_when_assembled(&self, completed_steps: usize) -> (r: Option<&Vec<String>>)
        ensures
            (r is Some <==> completed_steps == self.loader_steps@.len()),
            (r matches Some(v) ==> v@ == self.daemon_argv@),
    {
        if completed_steps == self.loader_steps.len() {
            Some(&self.daemon_argv)
        } else {
            None
        }
    }
}

/// Finalize's pre-spawn phase: discover the schema directory, choose the
/// ports, provision the TLS material, and build the whole plan.  Fails
/// with no partial state on a failed discovery; an explicitly requested
/// port and an explicitly supplied certificate pair are honoured
/// exactly.
pub fn prepare(b: &LdapServerBuilder, probes: &Vec<bool>, work_dir: &str) -> (r: Result<
    StartupPlan,
    SetupError,
>)
    requires
        probes@.len() == 3,
        forall|i: int|
            0 <= i < b.directives@.len() ==> !is_template_file(#[trigger] b.directives@[i].1),
    ensures
        ((forall|j: int| 0 <= j < probes@.len() ==> !probes@[j]) <==> (r matches Err(e) && e
            is SchemaDirNotFound)),
        (r matches Err(e) && e is TlsGenerationFailed ==> b.ssl_cert_key is None),
        (r matches Ok(p) ==> {
            &&& plan_matches(b, probes@, work_dir@, &p)
            &&& (b.port matches Some(x) ==> p.port == x)
            &&& (b.ssl_port matches Some(x) ==> p.ssl_port == x)
            &&& (b.ssl_cert_key matches Some(pair) ==> p.ssl_cert_pem@ == pair.0@
                && p.ssl_key_pem@ == pair.1@)
        }),
{
    match pick_first_existing(probes) {
        Some(_) => (),
        None => {
            return Err(SetupError::SchemaDirNotFound);
        },
    }
    let host = bind_host(b);
    let port = choose_port(b.port);
    let ssl_port = choose_port(b.ssl_port);
    let supplied: Option<(String, String)> = match &b.ssl_cert_key {
        Some(pair) => Some((pair.0.clone(), pair.1.clone())),
        None => None,
    };
    let tls = match provision_tls(supplied, host.as_str()) {
        Some(t) => t,
        None => {
            return Err(SetupError::TlsGenerationFailed);
        },
    };
    build_plan(b, probes, work_dir, port, ssl_port, tls)
}

} // verus!
