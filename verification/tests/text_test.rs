use surrealdb_live_message::digits::fmt_u64;
use surrealdb_live_message::queries::{live_select_query, message_select_query, relate_query};
use surrealdb_live_message::sdb::use_local_container;
use surrealdb_live_message::sdb_server::{bind_address, container_command, health_url};
use surrealdb_live_message::settings::{Docker, Logger, Sdb, Settings};

fn sample_settings(environment: &str) -> Settings {
    Settings {
        environment: String::from(environment),
        logger: Logger { level: String::from("info") },
        docker: Docker { platform: String::from("linux/amd64") },
        sdb: Sdb {
            host: String::from("localhost"),
            port: 8000,
            image: String::from("surrealdb/surrealdb"),
            tag: String::from("latest"),
            container_name: String::from("surrealdb"),
            namespace: String::from("test"),
            database: String::from("test"),
            username: String::from("root"),
            password: String::from("root"),
        },
    }
}

#[test]
fn decimal_formatting_exact_values() {
    assert_eq!(fmt_u64(0), "0");
    assert_eq!(fmt_u64(7), "7");
    assert_eq!(fmt_u64(10), "10");
    assert_eq!(fmt_u64(8000), "8000");
    assert_eq!(fmt_u64(65535), "65535");
    assert_eq!(fmt_u64(u64::MAX), "18446744073709551615");
}

#[test]
fn query_text_exact_values() {
    assert_eq!(
        live_select_query("bob"),
        "LIVE SELECT * FROM message WHERE out = agent:bob"
    );
    assert_eq!(
        message_select_query("alice"),
        "SELECT * FROM message WHERE out = agent:alice"
    );
    assert_eq!(
        relate_query("alice", "bob"),
        "RELATE agent:alice->message->agent:bob CONTENT { created: time::now(), payload: $payload };"
    );
}

#[test]
fn endpoint_and_addresses() {
    let s = sample_settings("development");
    assert_eq!(s.sdb.endpoint(), "ws://localhost:8000");
    assert_eq!(s.sdb.image_ref(), "surrealdb/surrealdb:latest");
    assert_eq!(bind_address(8000), "0.0.0.0:8000");
    assert_eq!(health_url("localhost", 8000), "http://localhost:8000/health");
}

#[test]
fn environment_selects_the_store_flavour() {
    let dev = sample_settings("development");
    let prod = sample_settings("production");
    assert!(!dev.is_production());
    assert!(prod.is_production());
    assert!(use_local_container(&dev));
    assert!(!use_local_container(&prod));
}

#[test]
fn container_command_exact_items() {
    let s = sample_settings("test");
    let cmd = container_command(&s.sdb);
    let expected = vec![
        "start", "--log", "trace", "-u", "root", "-p", "root", "-b", "0.0.0.0:8000", "memory",
    ];
    assert_eq!(cmd.len(), expected.len());
    for (got, want) in cmd.iter().zip(expected.iter()) {
        assert_eq!(got, want);
    }
}
