use ldap_test_server::builder::{default_template, LdapFile, LdapServerBuilder};
use ldap_test_server::template::{resolve, Substitutions};
use ldap_test_server::text::diagnostic_message;
use ldap_test_server::u64_dec_string;

fn table() -> Substitutions {
    Substitutions {
        schema_dir_uri: String::from("file:///etc/ldap/schema"),
        work_dir: String::from("/w"),
        base_dn: String::from("dc=example,dc=com"),
        root_dn: String::from("cn=admin,dc=example,dc=com"),
        root_pw: String::from("secret"),
    }
}

#[test]
fn decimal_rendering_exact_values() {
    assert_eq!(u64_dec_string(0), "0");
    assert_eq!(u64_dec_string(7), "7");
    assert_eq!(u64_dec_string(10), "10");
    assert_eq!(u64_dec_string(255), "255");
    assert_eq!(u64_dec_string(65535), "65535");
}

#[test]
fn failure_diagnostics_name_everything() {
    assert_eq!(
        diagnostic_message("slapadd", "exit status: 1", "out", "err", "/w/tmp_0.ldif"),
        "slapadd command exited with error exit status: 1, stdout: out, stderr: err on file /w/tmp_0.ldif"
    );
}

#[test]
fn resolution_is_identity_without_tokens() {
    let x = "dn: cn=user,cn=schema,cn=config\nobjectClass: olcSchemaConfig\ncn: user\n";
    assert_eq!(resolve(x, &table()), x);
}

#[test]
fn resolution_identity_on_empty_content() {
    assert_eq!(resolve("", &table()), "");
}

#[test]
fn resolution_substitutes_every_token() {
    let y = "dn: @BASEDN@\nolcRootDN: @ROOTDN@\nolcRootPW: @ROOTPW@\ndir: @WORKDIR@\nuri: @SCHEMADIR@";
    assert_eq!(
        resolve(y, &table()),
        "dn: dc=example,dc=com\nolcRootDN: cn=admin,dc=example,dc=com\nolcRootPW: secret\ndir: /w\nuri: file:///etc/ldap/schema"
    );
}

#[test]
fn resolution_replaces_repeated_and_adjacent_tokens() {
    assert_eq!(resolve("@BASEDN@@BASEDN@", &table()), "dc=example,dc=comdc=example,dc=com");
    assert_eq!(resolve("@@BASEDN@@", &table()), "@dc=example,dc=com@");
}

#[test]
fn empty_builder_holds_identity_and_nothing_else() {
    let b = LdapServerBuilder::empty("dc=kondej,dc=net", "cn=root,dc=kondej,dc=net", "pw");
    assert_eq!(b.base_dn, "dc=kondej,dc=net");
    assert_eq!(b.root_dn, "cn=root,dc=kondej,dc=net");
    assert_eq!(b.root_pw, "pw");
    assert!(b.bind_addr.is_none());
    assert!(b.port.is_none());
    assert!(b.ssl_port.is_none());
    assert!(b.ssl_cert_key.is_none());
    assert!(b.directives.is_empty());
}

#[test]
fn new_builder_uses_admin_identity_and_default_template() {
    let b = LdapServerBuilder::new("dc=kondej,dc=net");
    assert_eq!(b.base_dn, "dc=kondej,dc=net");
    assert_eq!(b.root_dn, "cn=admin,dc=kondej,dc=net");
    assert_eq!(b.root_pw, "secret");
    assert_eq!(b.directives.len(), 1);
    assert_eq!(b.directives[0].0, 0);
    match &b.directives[0].1 {
        LdapFile::Text { template, content } => {
            assert!(*template);
            assert_eq!(content, default_template());
        }
        other => panic!("unexpected directive {other:?}"),
    }
}

#[test]
fn older_method_names_stage_the_same_directives() {
    let a = LdapServerBuilder::empty("dc=a", "cn=r,dc=a", "pw")
        .add_system_ldif(0, "core.ldif")
        .add_ldif(1, "one")
        .add_ldif_file(1, "/x/a.ldif")
        .add_template_ldif(1, "two: @BASEDN@")
        .add_template_ldif_file(1, "/x/t.ldif");
    let b = LdapServerBuilder::empty("dc=a", "cn=r,dc=a", "pw")
        .add_system_file(0, "core.ldif")
        .add(1, "one")
        .add_file(1, "/x/a.ldif")
        .add_template(1, "two: @BASEDN@")
        .add_template_file(1, "/x/t.ldif");
    assert_eq!(format!("{:?}", a.directives), format!("{:?}", b.directives));
}

#[test]
fn builder_setters_are_last_write_wins() {
    let b = LdapServerBuilder::new("dc=a")
        .port(1000)
        .port(1389)
        .ssl_port(1636)
        .bind_addr("0.0.0.0")
        .ssl_certificates(String::from("C"), String::from("K"));
    assert_eq!(b.port, Some(1389));
    assert_eq!(b.ssl_port, Some(1636));
    assert_eq!(b.bind_addr.as_deref(), Some("0.0.0.0"));
    assert_eq!(b.ssl_cert_key, Some((String::from("C"), String::from("K"))));
}

#[test]
fn directives_keep_insertion_order() {
    let b = LdapServerBuilder::empty("dc=a", "cn=r,dc=a", "pw")
        .add_system_file(0, "core.ldif")
        .add(1, "one")
        .add_template(1, "two: @BASEDN@")
        .add_file(0, "/etc/extra.ldif")
        .add_template_file(1, "/etc/tmpl.ldif");
    assert_eq!(b.directives.len(), 5);
    let dbs: Vec<u8> = b.directives.iter().map(|d| d.0).collect();
    assert_eq!(dbs, vec![0, 1, 1, 0, 1]);
    match &b.directives[0].1 {
        LdapFile::SystemSchema(f) => assert_eq!(f, "core.ldif"),
        other => panic!("unexpected directive {other:?}"),
    }
    match &b.directives[2].1 {
        LdapFile::Text { template, content } => {
            assert!(*template);
            assert_eq!(content, "two: @BASEDN@");
        }
        other => panic!("unexpected directive {other:?}"),
    }
    match &b.directives[3].1 {
        LdapFile::File { template, file } => {
            assert!(*template);
            assert_eq!(file, "/etc/extra.ldif");
        }
        other => panic!("unexpected directive {other:?}"),
    }
}
