//! An ephemeral, isolated LDAP (directory-service) test fixture.
//!
//! The crate assembles an on-disk slapd configuration from an ordered list
//! of directives, provisions TLS material, plans the launch of the daemon,
//! tracks its two-phase readiness handshake as an explicit state machine,
//! and exposes the connection facts of the running instance together with
//! plans for runtime mutations.  Everything that decides or computes lives
//! here and is verified; the surrounding process and file I/O is driven by
//! an ordinary (unverified) front end that executes the plans produced
//! here.

pub mod assembler;
pub mod builder;
pub mod conn;
pub mod plan;
pub mod ports;
pub mod schema;
pub mod supervisor;
pub mod template;
pub mod text;
pub mod tls;
pub mod uri;

pub use builder::LdapFile;
pub use builder::LdapServerBuilder;
pub use conn::LdapServerConn;
pub use text::u64_dec_string;
