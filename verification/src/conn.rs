//! The live connection: the immutable facts of a running instance —
//! endpoints, credentials, certificate, working directory — together
//! with exclusive ownership of the daemon process handle.  Runtime
//! mutations are planned here (spool file plus mutation-tool argument
//! list) and executed by the driver; teardown sends the process a
//! forceful kill and is best-effort.

use vstd::prelude::*;
use vstd::string::StringExecFns;

use crate::assembler::spec_path_join;
use crate::assembler::path_join;
use crate::plan::StartupPlan;
use crate::supervisor::SupervisorState;

verus! {

#[verifier::external_type_specification]
#[verifier::external_body]
pub struct ExChild(tokio::process::Child);

/// Relies on tokio::process::Child::start_kill: sends the forceful kill
/// signal without awaiting the exit; reports success also when the
/// process was already reaped.
#[verifier::external_body]
fn child_start_kill(c: &mut tokio::process::Child) -> (r: bool) {
    c.start_kill().is_ok()
}

/// Relies on tokio::process::Child::try_wait: reports, without blocking,
/// whether the process has exited.
#[verifier::external_body]
fn child_has_exited(c: &mut tokio::process::Child) -> (r: bool) {
    matches!(c.try_wait(), Ok(Some(_)))
}

/// Relies on tokio::process::Child::id: the OS process id while the
/// process is still running.
#[verifier::external_body]
fn child_id(c: &tokio::process::Child) -> (r: Option<u32>) {
    c.id()
}

/// The mutation tool's argument list: simple bind with the given
/// identity, the target URL, and the source file.
pub open spec fn spec_mutation_argv(
    argv: Seq<String>,
    binddn: Seq<char>,
    pw: Seq<char>,
    url: Seq<char>,
    file: Seq<char>,
) -> bool {
    &&& argv.len() == 9
    &&& argv[0]@ == "-x"@
    &&& argv[1]@ == "-D"@
    &&& argv[2]@ == binddn
    &&& argv[3]@ == "-w"@
    &&& argv[4]@ == pw
    &&& argv[5]@ == "-H"@
    &&& argv[6]@ == url
    &&& argv[7]@ == "-f"@
    &&& argv[8]@ == file
}

/// One planned mutation-tool invocation.
pub struct MutationPlan {
    /// For inline text: the spool file to write first, as a
    /// `(path, contents)` pair.  Inline mutations share one fixed spool
    /// name, so concurrent mutation calls on one instance must be
    /// serialized by the caller.
    pub spool: Option<(String, String)>,
    /// The external tool to invoke.
    pub tool: String,
    /// Its full argument list.
    pub argv: Vec<String>,
}

/// Connection to a running instance.  Created exactly once, by finalize,
/// and only out of a supervisor that reached `Ready`; owns the daemon
/// process handle exclusively.
pub struct LdapServerConn {
    /// Plaintext endpoint URL.
    pub url: String,
    /// Bind host.
    pub host: String,
    /// Plaintext port.
    pub port: u16,
    /// TLS endpoint URL.
    pub ssl_url: String,
    /// TLS port.
    pub ssl_port: u16,
    /// The certificate PEM the instance serves.
    pub ssl_cert_pem: String,
    /// The private working directory.
    pub dir: String,
    /// Base distinguished name.
    pub base_dn: String,
    /// Administrator distinguished name.
    pub root_dn: String,
    /// Administrator password.
    pub root_pw: String,
    /// Whether teardown has not yet been issued.
    pub live: bool,
    /// The daemon process handle.
    pub server: tokio::process::Child,
}

impl LdapServerConn {
    /// Take ownership of the spawned daemon once the supervisor reports
    /// readiness — and only then.
    pub fn establish(plan: &StartupPlan, state: SupervisorState, server: tokio::process::Child) -> (r:
        Self)
        requires
            state is Ready,
        ensures
            r.url@ == plan.url@,
            r.host@ == plan.host@,
            r.port == plan.port,
            r.ssl_url@ == plan.ssl_url@,
            r.ssl_port == plan.ssl_port,
            r.ssl_cert_pem@ == plan.ssl_cert_pem@,
            r.dir@ == plan.work_dir@,
            r.base_dn@ == plan.base_dn@,
            r.root_dn@ == plan.root_dn@,
            r.root_pw@ == plan.root_pw@,
            r.live == true,
    {
        LdapServerConn {
            url: plan.url.clone(),
            host: plan.host.clone(),
            port: plan.port,
            ssl_url: plan.ssl_url.clone(),
            ssl_port: plan.ssl_port,
            ssl_cert_pem: plan.ssl_cert_pem.clone(),
            dir: plan.work_dir.clone(),
            base_dn: plan.base_dn.clone(),
            root_dn: plan.root_dn.clone(),
            root_pw: plan.root_pw.clone(),
            live: true,
            server,
        }
    }

    /// The plaintext URL of this instance.
    pub fn url(&self) -> (r: &str)
        ensures
            r@ == self.url@,
    {
        self.url.as_str()
    }

    /// The host this instance binds.
    pub fn host(&self) -> (r: &str)
        ensures
            r@ == self.host@,
    {
        self.host.as_str()
    }

    /// The plaintext port.
    pub fn port(&self) -> (r: u16)
        ensures
            r == self.port,
    {
        self.port
    }

    /// The TLS URL.
    pub fn ssl_url(&self) -> (r: &str)
        ensures
            r@ == self.ssl_url@,
    {
        self.ssl_url.as_str()
    }

    /// The TLS port.
    pub fn ssl_port(&self) -> (r: u16)
        ensures
            r == self.ssl_port,
    {
        self.ssl_port
    }

    /// The certificate PEM the instance serves.
    pub fn ssl_cert_pem(&self) -> (r: &str)
        ensures
            r@ == self.ssl_cert_pem@,
    {
        self.ssl_cert_pem.as_str()
    }

    /// The base distinguished name.
    pub fn base_dn(&self) -> (r: &str)
        ensures
            r@ == self.base_dn@,
    {
        self.base_dn.as_str()
    }

    /// The administrator distinguished name.
    pub fn root_dn(&self) -> (r: &str)
        ensures
            r@ == self.root_dn@,
    {
        self.root_dn.as_str()
    }

    /// The administrator password.
    pub fn root_pw(&self) -> (r: &str)
        ensures
            r@ == self.root_pw@,
    {
        self.root_pw.as_str()
    }

    /// The private working directory of the instance.
    pub fn server_dir(&self) -> (r: &str)
        ensures
            r@ == self.dir@,
    {
        self.dir.as_str()
    }

    /// Whether teardown has not yet been issued.
    pub fn is_live(&self) -> (r: bool)
        ensures
            r == self.live,
    {
        self.live
    }

    fn mutation_argv(&self, binddn: &str, pw: &str, file: &str) -> (r: Vec<String>)
        ensures
            spec_mutation_argv(r@, binddn@, pw@, self.url@, file@),
    {
        let mut v: Vec<String> = Vec::new();
        v.push(String::from_str("-x"));
        v.push(String::from_str("-D"));
        v.push(String::from_str(binddn));
        v.push(String::from_str("-w"));
        v.push(String::from_str(pw));
        v.push(String::from_str("-H"));
        v.push(self.url.clone());
        v.push(String::from_str("-f"));
        v.push(String::from_str(file));
        v
    }

    fn spooled_plan(&self, tool: &str, ldif_text: &str, binddn: &str, pw: &str) -> (r: MutationPlan)
        ensures
            r.tool@ == tool@,
            (r.spool matches Some(pc) && pc.0@ == spec_path_join(self.dir@, "tmp.ldif"@) && pc.1@
                == ldif_text@),
            spec_mutation_argv(
                r.argv@,
                binddn@,
                pw@,
                self.url@,
                spec_path_join(self.dir@, "tmp.ldif"@),
            ),
    {
        let file = path_join(self.dir.as_str(), "tmp.ldif");
        let argv = self.mutation_argv(binddn, pw, file.as_str());
        MutationPlan {
            spool: Some((file, ldif_text.to_owned())),
            tool: String::from_str(tool),
            argv,
        }
    }

    fn file_plan(&self, tool: &str, file: &str, binddn: &str, pw: &str) -> (r: MutationPlan)
        ensures
            r.tool@ == tool@,
            r.spool is None,
            spec_mutation_argv(r.argv@, binddn@, pw@, self.url@, file@),
    {
        let argv = self.mutation_argv(binddn, pw, file);
        MutationPlan { spool: None, tool: String::from_str(tool), argv }
    }

    /// Plan the addition of inline LDIF text, bound as the
    /// administrator: spool the text under the fixed name, then run the
    /// add tool on it.
    pub fn add(&self, ldif_text: &str) -> (r: MutationPlan)
        ensures
            r.tool@ == "ldapadd"@,
            (r.spool matches Some(pc) && pc.0@ == spec_path_join(self.dir@, "tmp.ldif"@) && pc.1@
                == ldif_text@),
            spec_mutation_argv(
                r.argv@,
                self.root_dn@,
                self.root_pw@,
                self.url@,
                spec_path_join(self.dir@, "tmp.ldif"@),
            ),
    {
        self.spooled_plan("ldapadd", ldif_text, self.root_dn.as_str(), self.root_pw.as_str())
    }

    /// Plan the addition of an LDIF file, bound as the administrator.
    pub fn add_file(&self, file: &str) -> (r: MutationPlan)
        ensures
            r.tool@ == "ldapadd"@,
            r.spool is None,
            spec_mutation_argv(r.argv@, self.root_dn@, self.root_pw@, self.url@, file@),
    {
        self.file_plan("ldapadd", file, self.root_dn.as_str(), self.root_pw.as_str())
    }

    /// Plan a modification from inline LDIF text.
    pub fn modify(&self, ldif_text: &str) -> (r: MutationPlan)
        ensures
            r.tool@ == "ldapmodify"@,
            (r.spool matches Some(pc) && pc.0@ == spec_path_join(self.dir@, "tmp.ldif"@) && pc.1@
                == ldif_text@),
            spec_mutation_argv(
                r.argv@,
                self.root_dn@,
                self.root_pw@,
                self.url@,
                spec_path_join(self.dir@, "tmp.ldif"@),
            ),
    {
        self.spooled_plan("ldapmodify", ldif_text, self.root_dn.as_str(), self.root_pw.as_str())
    }

    /// Plan a modification from an LDIF file.
    pub fn modify_file(&self, file: &str) -> (r: MutationPlan)
        ensures
            r.tool@ == "ldapmodify"@,
            r.spool is None,
            spec_mutation_argv(r.argv@, self.root_dn@, self.root_pw@, self.url@, file@),
    {
        self.file_plan("ldapmodify", file, self.root_dn.as_str(), self.root_pw.as_str())
    }

    /// Plan a deletion from inline LDIF text.  Deletion text carries its
    /// own `changetype` directive, so it runs through the modify tool.
    pub fn delete(&self, ldif_text: &str) -> (r: MutationPlan)
        ensures
            r.tool@ == "ldapmodify"@,
            (r.spool matches Some(pc) && pc.0@ == spec_path_join(self.dir@, "tmp.ldif"@) && pc.1@
                == ldif_text@),
            spec_mutation_argv(
                r.argv@,
                self.root_dn@,
                self.root_pw@,
                self.url@,
                spec_path_join(self.dir@, "tmp.ldif"@),
            ),
    {
        self.spooled_plan("ldapmodify", ldif_text, self.root_dn.as_str(), self.root_pw.as_str())
    }

    /// Plan a deletion from an LDIF file naming the entries to delete.
    pub fn delete_file(&self, file: &str) -> (r: MutationPlan)
        ensures
            r.tool@ == "ldapdelete"@,
            r.spool is None,
            spec_mutation_argv(r.argv@, self.root_dn@, self.root_pw@, self.url@, file@),
    {
        self.file_plan("ldapdelete", file, self.root_dn.as_str(), self.root_pw.as_str())
    }

    /// Plan the addition of an LDIF file under an explicitly supplied
    /// bind identity, for privileged or config-database mutations.
    pub fn add_ldif_file_binddn(&self, file: &str, binddn: &str, password: &str) -> (r:
        MutationPlan)
        ensures
            r.tool@ == "ldapadd"@,
            r.spool is None,
            spec_mutation_argv(r.argv@, binddn@, password@, self.url@, file@),
    {
        self.file_plan("ldapadd", file, binddn, password)
    }

    /// Plan the addition of inline LDIF text against the configuration
    /// database, bound as its own administrator.
    pub fn add_ldif_config(&self, ldif_text: &str) -> (r: MutationPlan)
        ensures
            r.tool@ == "ldapadd"@,
            (r.spool matches Some(pc) && pc.0@ == spec_path_join(self.dir@, "tmp.ldif"@) && pc.1@
                == ldif_text@),
            spec_mutation_argv(
                r.argv@,
                "cn=config"@,
                "secret"@,
                self.url@,
                spec_path_join(self.dir@, "tmp.ldif"@),
            ),
    {
        self.spooled_plan("ldapadd", ldif_text, "cn=config", "secret")
    }

    /// Tear the instance down: issue the forceful kill on the owned
    /// process.  Failure to kill is reported, never escalated.
    pub fn close(&mut self) -> (killed: bool)
        ensures
            final(self).live == false,
            final(self).url == old(self).url,
            final(self).host == old(self).host,
            final(self).port == old(self).port,
            final(self).ssl_url == old(self).ssl_url,
            final(self).ssl_port == old(self).ssl_port,
            final(self).ssl_cert_pem == old(self).ssl_cert_pem,
            final(self).dir == old(self).dir,
            final(self).base_dn == old(self).base_dn,
            final(self).root_dn == old(self).root_dn,
            final(self).root_pw == old(self).root_pw,
    {
        self.live = false;
        child_start_kill(&mut self.server)
    }

    /// Whether the owned daemon process has exited.
    pub fn process_has_exited(&mut self) -> (r: bool)
        ensures
            final(self).live == old(self).live,
            final(self).url == old(self).url,
            final(self).dir == old(self).dir,
            final(self).base_dn == old(self).base_dn,
    {
        child_has_exited(&mut self.server)
    }

    /// The OS process id of the daemon, while it is still running.
    pub fn process_id(&self) -> (r: Option<u32>) {
        child_id(&self.server)
    }
}

} // verus!
