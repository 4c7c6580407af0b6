//! The staged, mutable configuration of an instance: a builder that
//! accumulates scalar settings (last write wins) and an ordered,
//! append-only sequence of directives, until it is consumed at finalize
//! time.

use vstd::prelude::*;
use vstd::string::StringExecFns;

verus! {

/// One unit of content destined for a numbered configuration database.
#[derive(Debug)]
pub enum LdapFile {
    /// A file name resolved against the discovered system schema
    /// directory.
    SystemSchema(String),
    /// A file path, with a flag saying whether its contents are a
    /// template to resolve before loading.
    File { template: bool, file: String },
    /// Literal text, with the same template flag.
    Text { template: bool, content: String },
}

impl LdapFile {
    /// Whether this directive must pass through the template resolver
    /// before it is loaded.
    pub open spec fn is_template(&self) -> bool {
        match self {
            LdapFile::SystemSchema(_) => false,
            LdapFile::File { template, .. } => *template,
            LdapFile::Text { template, .. } => *template,
        }
    }
}

/// The staged configuration.  The base DN and the administrator identity
/// are fixed at creation; everything else may be set again before
/// finalize, and directives are only ever appended.
pub struct LdapServerBuilder {
    /// Base distinguished name of the directory tree.
    pub base_dn: String,
    /// Administrator distinguished name.
    pub root_dn: String,
    /// Administrator password.
    pub root_pw: String,
    /// Listen address override; the loopback address when absent.
    pub bind_addr: Option<String>,
    /// Plaintext listen port override; picked automatically when absent.
    pub port: Option<u16>,
    /// TLS listen port override; picked automatically when absent.
    pub ssl_port: Option<u16>,
    /// The ordered directive sequence, paired with target database
    /// numbers.  Insertion order is load order.
    pub directives: Vec<(u8, LdapFile)>,
    /// An externally supplied certificate/key PEM pair; generated fresh
    /// when absent.
    pub ssl_cert_key: Option<(String, String)>,
}

/// The scalar settings of `b` are those of `a`.
pub open spec fn scalars_eq(a: &LdapServerBuilder, b: &LdapServerBuilder) -> bool {
    &&& a.base_dn == b.base_dn
    &&& a.root_dn == b.root_dn
    &&& a.root_pw == b.root_pw
    &&& a.bind_addr == b.bind_addr
    &&& a.port == b.port
    &&& a.ssl_port == b.ssl_port
    &&& a.ssl_cert_key == b.ssl_cert_key
}

/// `post` is `pre` with exactly one directive appended.
pub open spec fn appends_one(pre: Seq<(u8, LdapFile)>, post: Seq<(u8, LdapFile)>) -> bool {
    &&& post.len() == pre.len() + 1
    &&& post.subrange(0, pre.len() as int) == pre
}

/// The default configuration template installed by
/// `LdapServerBuilder::new`: a minimal daemon configuration with a
/// config database and one content database rooted at the base DN.
pub open spec fn spec_default_template() -> Seq<char> {
    "dn: cn=config\nobjectClass: olcGlobal\ncn: config\n\ndn: cn=schema,cn=config\nobjectClass: olcSchemaConfig\ncn: schema\n\ndn: olcDatabase={0}config,cn=config\nobjectClass: olcDatabaseConfig\nolcDatabase: {0}config\nolcRootDN: cn=config\nolcRootPW: @ROOTPW@\n\ndn: cn=module{0},cn=config\nobjectClass: olcModuleList\ncn: module{0}\nolcModuleLoad: back_mdb\n\ndn: olcDatabase={1}mdb,cn=config\nobjectClass: olcDatabaseConfig\nobjectClass: olcMdbConfig\nolcDatabase: {1}mdb\nolcDbDirectory: @WORKDIR@\nolcSuffix: @BASEDN@\nolcRootDN: @ROOTDN@\nolcRootPW: @ROOTPW@\n"@
}

/// The default configuration template as text.
pub fn default_template() -> (r: &'static str)
    ensures
        r@ == spec_default_template(),
{
    "dn: cn=config\nobjectClass: olcGlobal\ncn: config\n\ndn: cn=schema,cn=config\nobjectClass: olcSchemaConfig\ncn: schema\n\ndn: olcDatabase={0}config,cn=config\nobjectClass: olcDatabaseConfig\nolcDatabase: {0}config\nolcRootDN: cn=config\nolcRootPW: @ROOTPW@\n\ndn: cn=module{0},cn=config\nobjectClass: olcModuleList\ncn: module{0}\nolcModuleLoad: back_mdb\n\ndn: olcDatabase={1}mdb,cn=config\nobjectClass: olcDatabaseConfig\nobjectClass: olcMdbConfig\nolcDatabase: {1}mdb\nolcDbDirectory: @WORKDIR@\nolcSuffix: @BASEDN@\nolcRootDN: @ROOTDN@\nolcRootPW: @ROOTPW@\n"
}

impl LdapServerBuilder {
    /// Start an empty builder from the three fixed identity inputs.
    pub fn empty(base_dn: &str, root_dn: &str, root_pw: &str) -> (r: Self)
        ensures
            r.base_dn@ == base_dn@,
            r.root_dn@ == root_dn@,
            r.root_pw@ == root_pw@,
            r.bind_addr is None,
            r.port is None,
            r.ssl_port is None,
            r.ssl_cert_key is None,
            r.directives@.len() == 0,
    {
        LdapServerBuilder {
            base_dn: base_dn.to_owned(),
            root_dn: root_dn.to_owned(),
            root_pw: root_pw.to_owned(),
            bind_addr: None,
            port: None,
            ssl_port: None,
            directives: Vec::new(),
            ssl_cert_key: None,
        }
    }

    /// Start a builder with the usual administrator identity and the
    /// default configuration template staged for database 0.
    pub fn new(base_dn: &str) -> (r: Self)
        ensures
            r.base_dn@ == base_dn@,
            r.root_dn@ == "cn=admin,"@ + base_dn@,
            r.root_pw@ == "secret"@,
            r.bind_addr is None,
            r.port is None,
            r.ssl_port is None,
            r.ssl_cert_key is None,
            r.directives@.len() == 1,
            r.directives@[0].0 == 0,
            (r.directives@[0].1 matches LdapFile::Text { template: t, content: c } && t == true
                && c@ == spec_default_template()),
    {
        let mut root_dn = String::from_str("cn=admin,");
        root_dn.append(base_dn);
        let b = LdapServerBuilder::empty(base_dn, root_dn.as_str(), "secret");
        b.add_template(0, default_template())
    }

    /// Use an existing certificate and key PEM pair instead of generating
    /// a fresh one.
    pub fn ssl_certificates(self, certificate: String, key: String) -> (r: Self)
        ensures
            r.ssl_cert_key == Some((certificate, key)),
            r.base_dn == self.base_dn,
            r.root_dn == self.root_dn,
            r.root_pw == self.root_pw,
            r.bind_addr == self.bind_addr,
            r.port == self.port,
            r.ssl_port == self.ssl_port,
            r.directives@ == self.directives@,
    {
        LdapServerBuilder { ssl_cert_key: Some((certificate, key)), ..self }
    }

    /// Override the listen address.
    pub fn bind_addr(self, bind_addr: &str) -> (r: Self)
        ensures
            r.bind_addr matches Some(a) && a@ == bind_addr@,
            r.base_dn == self.base_dn,
            r.root_dn == self.root_dn,
            r.root_pw == self.root_pw,
            r.port == self.port,
            r.ssl_port == self.ssl_port,
            r.ssl_cert_key == self.ssl_cert_key,
            r.directives@ == self.directives@,
    {
        LdapServerBuilder { bind_addr: Some(bind_addr.to_owned()), ..self }
    }

    /// Override the plaintext listen port.
    pub fn port(self, port: u16) -> (r: Self)
        ensures
            r.port == Some(port),
            r.base_dn == self.base_dn,
            r.root_dn == self.root_dn,
            r.root_pw == self.root_pw,
            r.bind_addr == self.bind_addr,
            r.ssl_port == self.ssl_port,
            r.ssl_cert_key == self.ssl_cert_key,
            r.directives@ == self.directives@,
    {
        LdapServerBuilder { port: Some(port), ..self }
    }

    /// Override the TLS listen port.
    pub fn ssl_port(self, port: u16) -> (r: Self)
        ensures
            r.ssl_port == Some(port),
            r.base_dn == self.base_dn,
            r.root_dn == self.root_dn,
            r.root_pw == self.root_pw,
            r.bind_addr == self.bind_addr,
            r.port == self.port,
            r.ssl_cert_key == self.ssl_cert_key,
            r.directives@ == self.directives@,
    {
        LdapServerBuilder { ssl_port: Some(port), ..self }
    }

    /// Append a directive naming a file from the system schema
    /// directory.
    pub fn add_system_file(self, dbnum: u8, file: &str) -> (r: Self)
        ensures
            scalars_eq(&self, &r),
            appends_one(self.directives@, r.directives@),
            r.directives@.last().0 == dbnum,
            (r.directives@.last().1 matches LdapFile::SystemSchema(f) && f@ == file@),
    {
        let mut r = self;
        r.directives.push((dbnum, LdapFile::SystemSchema(file.to_owned())));
        proof {
            assert(r.directives@.subrange(0, self.directives@.len() as int) =~= self.directives@);
        }
        r
    }

    /// Append literal, non-template content.
    pub fn add(self, dbnum: u8, content: &str) -> (r: Self)
        ensures
            scalars_eq(&self, &r),
            appends_one(self.directives@, r.directives@),
            r.directives@.last().0 == dbnum,
            (r.directives@.last().1 matches LdapFile::Text { template: t, content: c } && t
                == false && c@ == content@),
    {
        let mut r = self;
        r.directives.push((dbnum, LdapFile::Text { template: false, content: content.to_owned() }));
        proof {
            assert(r.directives@.subrange(0, self.directives@.len() as int) =~= self.directives@);
        }
        r
    }

    /// Append a file path whose contents are resolved as a template
    /// before loading.
    pub fn add_file(self, dbnum: u8, file: &str) -> (r: Self)
        ensures
            scalars_eq(&self, &r),
            appends_one(self.directives@, r.directives@),
            r.directives@.last().0 == dbnum,
            (r.directives@.last().1 matches LdapFile::File { template: t, file: f } && t == true
                && f@ == file@),
    {
        let mut r = self;
        r.directives.push((dbnum, LdapFile::File { template: true, file: file.to_owned() }));
        proof {
            assert(r.directives@.subrange(0, self.directives@.len() as int) =~= self.directives@);
        }
        r
    }

    /// Append literal template content.
    pub fn add_template(self, dbnum: u8, content: &str) -> (r: Self)
        ensures
            scalars_eq(&self, &r),
            appends_one(self.directives@, r.directives@),
            r.directives@.last().0 == dbnum,
            (r.directives@.last().1 matches LdapFile::Text { template: t, content: c } && t == true
                && c@ == content@),
    {
        let mut r = self;
        r.directives.push((dbnum, LdapFile::Text { template: true, content: content.to_owned() }));
        proof {
            assert(r.directives@.subrange(0, self.directives@.len() as int) =~= self.directives@);
        }
        r
    }

    /// Alias of [`Self::add_system_file`].
    pub fn add_system_ldif(self, dbnum: u8, file: &str) -> (r: Self)
        ensures
            scalars_eq(&self, &r),
            appends_one(self.directives@, r.directives@),
            r.directives@.last().0 == dbnum,
            (r.directives@.last().1 matches LdapFile::SystemSchema(f) && f@ == file@),
    {
        self.add_system_file(dbnum, file)
    }

    /// Alias of [`Self::add`].
    pub fn add_ldif(self, dbnum: u8, content: &str) -> (r: Self)
        ensures
            scalars_eq(&self, &r),
            appends_one(self.directives@, r.directives@),
            r.directives@.last().0 == dbnum,
            (r.directives@.last().1 matches LdapFile::Text { template: t, content: c } && t
                == false && c@ == content@),
    {
        self.add(dbnum, content)
    }

    /// Alias of [`Self::add_file`].
    pub fn add_ldif_file(self, dbnum: u8, file: &str) -> (r: Self)
        ensures
            scalars_eq(&self, &r),
            appends_one(self.directives@, r.directives@),
            r.directives@.last().0 == dbnum,
            (r.directives@.last().1 matches LdapFile::File { template: t, file: f } && t == true
                && f@ == file@),
    {
        self.add_file(dbnum, file)
    }

    /// Alias of [`Self::add_template`].
    pub fn add_template_ldif(self, dbnum: u8, content: &str) -> (r: Self)
        ensures
            scalars_eq(&self, &r),
            appends_one(self.directives@, r.directives@),
            r.directives@.last().0 == dbnum,
            (r.directives@.last().1 matches LdapFile::Text { template: t, content: c } && t == true
                && c@ == content@),
    {
        self.add_template(dbnum, content)
    }

    /// Alias of [`Self::add_template_file`].
    pub fn add_template_ldif_file(self, dbnum: u8, file: &str) -> (r: Self)
        ensures
            scalars_eq(&self, &r),
            appends_one(self.directives@, r.directives@),
            r.directives@.last().0 == dbnum,
            (r.directives@.last().1 matches LdapFile::File { template: t, file: f } && t == true
                && f@ == file@),
    {
        self.add_template_file(dbnum, file)
    }

    /// Append a template file path.
    pub fn add_template_file(self, dbnum: u8, file: &str) -> (r: Self)
        ensures
            scalars_eq(&self, &r),
            appends_one(self.directives@, r.directives@),
            r.directives@.last().0 == dbnum,
            (r.directives@.last().1 matches LdapFile::File { template: t, file: f } && t == true
                && f@ == file@),
    {
        let mut r = self;
        r.directives.push((dbnum, LdapFile::File { template: true, file: file.to_owned() }));
        proof {
            assert(r.directives@.subrange(0, self.directives@.len() as int) =~= self.directives@);
        }
        r
    }
}

} // verus!
