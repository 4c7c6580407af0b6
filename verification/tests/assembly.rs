use ldap_test_server::assembler::{
    path_join, resolve_directives, set_inline_text, template_file_path_at,
};
use ldap_test_server::builder::{LdapFile, LdapServerBuilder};
use ldap_test_server::plan::{build_plan, prepare, SetupError};
use ldap_test_server::schema::{pick_first_existing, schema_dir_candidates};
use ldap_test_server::template::Substitutions;

fn table() -> Substitutions {
    Substitutions {
        schema_dir_uri: String::from("file:///etc/ldap/schema"),
        work_dir: String::from("/w"),
        base_dn: String::from("dc=e"),
        root_dn: String::from("cn=a,dc=e"),
        root_pw: String::from("pw"),
    }
}

#[test]
fn path_join_inserts_single_separator() {
    assert_eq!(path_join("/etc/ldap/schema", "core.ldif"), "/etc/ldap/schema/core.ldif");
    assert_eq!(path_join("/etc/openldap/schema/", "core.ldif"), "/etc/openldap/schema/core.ldif");
    assert_eq!(path_join("", "x"), "/x");
}

#[test]
fn schema_candidates_are_the_fixed_list() {
    let c = schema_dir_candidates();
    assert_eq!(
        c,
        vec!["/etc/ldap/schema", "/usr/local/etc/openldap/schema", "/etc/openldap/schema/"]
    );
}

#[test]
fn first_existing_candidate_wins() {
    assert_eq!(pick_first_existing(&vec![false, true, true]), Some(1));
    assert_eq!(pick_first_existing(&vec![true, false, false]), Some(0));
    assert_eq!(pick_first_existing(&vec![false, false, false]), None);
    assert_eq!(pick_first_existing(&vec![]), None);
}


#[test]
fn template_files_are_inlined_then_resolved() {
    let b = LdapServerBuilder::empty("dc=e", "cn=a,dc=e", "pw")
        .add_template_file(0, "/x/t.ldif")
        .add(1, "data");
    let mut ds = b.directives;
    assert_eq!(template_file_path_at(&ds, 0), Some(&String::from("/x/t.ldif")));
    assert!(template_file_path_at(&ds, 1).is_none());
    set_inline_text(&mut ds, 0, "name: @BASEDN@");
    let resolved = resolve_directives(&ds, &table());
    assert_eq!(resolved.len(), 2);
    match &resolved[0].1 {
        LdapFile::Text { template, content } => {
            assert!(!*template);
            assert_eq!(content, "name: dc=e");
        }
        other => panic!("unexpected directive {other:?}"),
    }
    match &resolved[1].1 {
        LdapFile::Text { template, content } => {
            assert!(!*template);
            assert_eq!(content, "data");
        }
        other => panic!("unexpected directive {other:?}"),
    }
}

#[test]
fn loader_runs_once_per_directive_in_order() {
    let b = LdapServerBuilder::empty("dc=e,dc=c", "cn=admin,dc=e,dc=c", "pw")
        .add_system_file(0, "core.ldif")
        .add(0, "first")
        .add(1, "second");
    let probes = vec![false, true, false];
    let plan = build_plan(
        &b,
        &probes,
        "/work",
        400,
        500,
        (String::from("c"), String::from("k")),
    )
    .unwrap();
    assert_eq!(plan.schema_dir, "/usr/local/etc/openldap/schema");
    assert_eq!(plan.config_dir, "/work/config");
    // the schema directory reaches the substitution table as a file: URI
    assert_eq!(plan.substitutions.schema_dir_uri, "file:///usr/local/etc/openldap/schema");
    assert_eq!(plan.substitutions.work_dir, "/work");
    assert_eq!(plan.substitutions.base_dn, "dc=e,dc=c");
    assert_eq!(plan.substitutions.root_dn, "cn=admin,dc=e,dc=c");
    assert_eq!(plan.substitutions.root_pw, "pw");
    assert_eq!(plan.loader_steps.len(), 3);

    let dbs: Vec<u8> = plan.loader_steps.iter().map(|s| s.db_number).collect();
    assert_eq!(dbs, vec![0, 0, 1]);

    let s0 = &plan.loader_steps[0];
    assert!(s0.spool.is_none());
    assert_eq!(s0.source_path, "/usr/local/etc/openldap/schema/core.ldif");
    assert_eq!(
        s0.argv,
        vec!["-F", "/work/config", "-n", "0", "-l", "/usr/local/etc/openldap/schema/core.ldif"]
    );

    let s1 = &plan.loader_steps[1];
    assert_eq!(
        s1.spool,
        Some((String::from("/work/tmp_1.ldif"), String::from("first")))
    );
    assert_eq!(s1.source_path, "/work/tmp_1.ldif");
    assert_eq!(s1.argv, vec!["-F", "/work/config", "-n", "0", "-l", "/work/tmp_1.ldif"]);

    let s2 = &plan.loader_steps[2];
    assert_eq!(
        s2.spool,
        Some((String::from("/work/tmp_2.ldif"), String::from("second")))
    );
    assert_eq!(s2.argv, vec!["-F", "/work/config", "-n", "1", "-l", "/work/tmp_2.ldif"]);

    assert_eq!(plan.url, "ldap://127.0.0.1:400");
    assert_eq!(plan.ssl_url, "ldaps://127.0.0.1:500");
    assert_eq!(plan.urls, "ldap://127.0.0.1:400 ldaps://127.0.0.1:500");
    assert_eq!(
        plan.daemon_argv,
        vec!["-F", "/work/config", "-d", "2048", "-h", "ldap://127.0.0.1:400 ldaps://127.0.0.1:500"]
    );

    assert!(plan.daemon_argv_when_assembled(0).is_none());
    assert!(plan.daemon_argv_when_assembled(2).is_none());
    assert_eq!(plan.daemon_argv_when_assembled(3), Some(&plan.daemon_argv));
}

#[test]
fn largest_database_number_is_rendered_exactly() {
    let b = LdapServerBuilder::empty("dc=e", "cn=a,dc=e", "pw").add(255, "x");
    let probes = vec![true, false, false];
    let plan = build_plan(&b, &probes, "/w", 1, 2, (String::from("c"), String::from("k")))
        .unwrap();
    assert_eq!(plan.loader_steps[0].db_number, 255);
    assert_eq!(plan.loader_steps[0].argv[3], "255");
}

#[test]
fn base_dn_scenario_builds_full_plan() {
    let b = LdapServerBuilder::new("dc=example,dc=com").add(
        1,
        "dn: dc=example,dc=com\nobjectclass: dcObject\nobjectclass: organization\no: Example\ndc: example",
    );
    let probes = vec![true, false, false];
    let plan = build_plan(
        &b,
        &probes,
        "/tmp/work",
        3890,
        6360,
        (String::from("CERT"), String::from("KEY")),
    )
    .unwrap();
    assert_eq!(plan.base_dn, "dc=example,dc=com");
    assert_eq!(plan.root_dn, "cn=admin,dc=example,dc=com");
    assert_eq!(plan.root_pw, "secret");
    assert_eq!(plan.loader_steps.len(), 2);
    assert_eq!(plan.loader_steps[0].db_number, 0);
    assert_eq!(plan.loader_steps[1].db_number, 1);
    // the default template was resolved: placeholders gone, values in
    let spooled = plan.loader_steps[0].spool.as_ref().unwrap();
    assert!(!spooled.1.contains("@BASEDN@"));
    assert!(spooled.1.contains("olcSuffix: dc=example,dc=com"));
    assert!(spooled.1.contains("olcRootDN: cn=admin,dc=example,dc=com"));
    assert!(spooled.1.contains("olcRootPW: secret"));
    assert!(spooled.1.contains("olcDbDirectory: /tmp/work"));
    // the inline data directive is spooled verbatim
    let data = plan.loader_steps[1].spool.as_ref().unwrap();
    assert!(data.1.starts_with("dn: dc=example,dc=com"));
}

#[test]
fn discovery_failure_aborts_before_anything_else() {
    let b = LdapServerBuilder::new("dc=example,dc=com").port(1389).ssl_port(1636);
    let probes = vec![false, false, false];
    assert!(matches!(
        build_plan(&b, &probes, "/w", 1, 2, (String::from("c"), String::from("k"))),
        Err(SetupError::SchemaDirNotFound)
    ));
    assert!(matches!(prepare(&b, &probes, "/w"), Err(SetupError::SchemaDirNotFound)));
}

#[test]
fn explicit_certificates_pass_through_verbatim() {
    let b = LdapServerBuilder::new("dc=example,dc=com")
        .port(1389)
        .ssl_port(1636)
        .ssl_certificates(String::from("MY CERT PEM"), String::from("MY KEY PEM"));
    let probes = vec![true, false, false];
    let plan = prepare(&b, &probes, "/w").unwrap();
    assert_eq!(plan.ssl_cert_pem, "MY CERT PEM");
    assert_eq!(plan.ssl_key_pem, "MY KEY PEM");
    assert_eq!(plan.port, 1389);
    assert_eq!(plan.ssl_port, 1636);
    assert_eq!(plan.cert_path, "/w/cert.pem");
    assert_eq!(plan.key_path, "/w/key.pem");
}

#[test]
fn bind_addr_flows_into_urls() {
    let b = LdapServerBuilder::new("dc=e").bind_addr("0.0.0.0");
    let probes = vec![true, false, false];
    let plan = build_plan(&b, &probes, "/w", 389, 636, (String::from("c"), String::from("k")))
        .unwrap();
    assert_eq!(plan.host, "0.0.0.0");
    assert_eq!(plan.url, "ldap://0.0.0.0:389");
    assert_eq!(plan.ssl_url, "ldaps://0.0.0.0:636");
}
