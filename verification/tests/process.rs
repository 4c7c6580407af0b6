use ldap_test_server::builder::LdapServerBuilder;
use ldap_test_server::plan::build_plan;
use ldap_test_server::supervisor::SupervisorState;
use ldap_test_server::tls::provision_tls;
use ldap_test_server::LdapServerConn;

fn runtime() -> tokio::runtime::Runtime {
    tokio::runtime::Builder::new_current_thread().enable_all().build().unwrap()
}

fn spawn_placeholder_daemon(rt: &tokio::runtime::Runtime) -> tokio::process::Child {
    let _guard = rt.enter();
    tokio::process::Command::new("sleep").arg("60").spawn().unwrap()
}

fn example_conn(rt: &tokio::runtime::Runtime) -> LdapServerConn {
    let b = LdapServerBuilder::new("dc=example,dc=com").add(
        1,
        "dn: dc=example,dc=com\nobjectclass: dcObject\nobjectclass: organization\no: Example\ndc: example",
    );
    let probes = vec![true, false, false];
    let plan = build_plan(
        &b,
        &probes,
        "/tmp/work",
        3890,
        6360,
        (String::from("CERT"), String::from("KEY")),
    )
    .unwrap();
    let child = spawn_placeholder_daemon(rt);
    LdapServerConn::establish(&plan, SupervisorState::Ready, child)
}

#[test]
fn connection_exposes_the_planned_facts() {
    let rt = runtime();
    let mut conn = example_conn(&rt);
    assert_eq!(conn.base_dn(), "dc=example,dc=com");
    assert_eq!(conn.root_dn(), "cn=admin,dc=example,dc=com");
    assert_eq!(conn.root_pw(), "secret");
    assert_eq!(conn.url(), "ldap://127.0.0.1:3890");
    assert_eq!(conn.ssl_url(), "ldaps://127.0.0.1:6360");
    assert_eq!(conn.host(), "127.0.0.1");
    assert_eq!(conn.port(), 3890);
    assert_eq!(conn.ssl_port(), 6360);
    assert_eq!(conn.ssl_cert_pem(), "CERT");
    assert_eq!(conn.server_dir(), "/tmp/work");
    assert!(conn.is_live());
    conn.close();
}

#[test]
fn mutation_plans_spool_and_bind_as_admin() {
    let rt = runtime();
    let mut conn = example_conn(&rt);

    let add = conn.add("dn: cn=child,dc=example,dc=com\nobjectClass: person\ncn: child\nsn: c");
    assert_eq!(add.tool, "ldapadd");
    let (path, content) = add.spool.clone().unwrap();
    assert_eq!(path, "/tmp/work/tmp.ldif");
    assert!(content.starts_with("dn: cn=child"));
    assert_eq!(
        add.argv,
        vec![
            "-x",
            "-D",
            "cn=admin,dc=example,dc=com",
            "-w",
            "secret",
            "-H",
            "ldap://127.0.0.1:3890",
            "-f",
            "/tmp/work/tmp.ldif",
        ]
    );

    let add_file = conn.add_file("/tmp/extra.ldif");
    assert_eq!(add_file.tool, "ldapadd");
    assert!(add_file.spool.is_none());
    assert_eq!(add_file.argv[8], "/tmp/extra.ldif");

    let modify = conn.modify("dn: cn=child,dc=example,dc=com\nchangetype: modify");
    assert_eq!(modify.tool, "ldapmodify");

    // deletion text carries its own changetype and runs through the modify tool
    let del = conn.delete("dn: cn=child,dc=example,dc=com\nchangetype: delete");
    assert_eq!(del.tool, "ldapmodify");
    assert!(del.spool.is_some());

    let del_file = conn.delete_file("/tmp/del.ldif");
    assert_eq!(del_file.tool, "ldapdelete");
    assert!(del_file.spool.is_none());

    let cfg = conn.add_ldif_config("dn: olcDatabase={1}mdb,cn=config");
    assert_eq!(cfg.tool, "ldapadd");
    assert_eq!(cfg.argv[2], "cn=config");
    assert_eq!(cfg.argv[4], "secret");

    let bound = conn.add_ldif_file_binddn("/tmp/extra.ldif", "cn=other,dc=example,dc=com", "pw2");
    assert_eq!(bound.argv[2], "cn=other,dc=example,dc=com");
    assert_eq!(bound.argv[4], "pw2");

    conn.close();
}

#[test]
fn teardown_kills_the_owned_process() {
    let rt = runtime();
    let mut conn = example_conn(&rt);
    assert!(conn.is_live());
    assert!(conn.process_id().is_some());
    let killed = conn.close();
    assert!(killed);
    assert!(!conn.is_live());

    let mut exited = false;
    for _ in 0..500 {
        if conn.process_has_exited() {
            exited = true;
            break;
        }
        rt.block_on(async { tokio::time::sleep(std::time::Duration::from_millis(10)).await });
    }
    assert!(exited, "daemon process still running after teardown");
}

#[test]
fn generated_tls_material_is_fresh_pem() {
    let pair = provision_tls(None, "127.0.0.1").unwrap();
    assert!(pair.0.contains("BEGIN CERTIFICATE"));
    assert!(pair.1.contains("PRIVATE KEY"));
    let named = provision_tls(None, "localhost").unwrap();
    assert!(named.0.contains("BEGIN CERTIFICATE"));
}

#[test]
fn supplied_tls_material_is_untouched() {
    let supplied = Some((String::from("A"), String::from("B")));
    let pair = provision_tls(supplied, "localhost").unwrap();
    assert_eq!(pair, (String::from("A"), String::from("B")));
}
