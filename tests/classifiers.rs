use defra_supervisor::command::{DaemonCommand, KEYRING_SECRET, SCHEMA_DEFINITION};
use defra_supervisor::identity::{fetch_peer_info, peer_payload_usable};
use defra_supervisor::peers::{
    check_peer_connections, connect_to_peer, connections_from_listing, ListingShape,
};
use defra_supervisor::schema::{
    check_schema_exists, creation_line_reports_success, BootstrapAction, LineDisposition,
    SchemaBootstrap, SchemaCreation,
};
use defra_supervisor::discovery::{DiscoveryAction, Discoverer};

#[test]
fn discovery_scenario_accepts_third_payload() {
    let answers = [
        "{\"ID\":\"\",\"Addrs\":[]}",
        "{\"ID\":\"\",\"Addrs\":[]}",
        "{\"ID\":\"QmAbc\",\"Addrs\":[\"/ip4/127.0.0.1/tcp/9171\"]}",
        "{\"ID\":\"QmLate\",\"Addrs\":[]}",
    ];
    let mut d = Discoverer::new();
    let mut cached = None;
    let mut asked = 0;
    while d.next_query() {
        let got = fetch_peer_info(answers[asked]);
        asked += 1;
        match d.on_answer(got.is_some()) {
            DiscoveryAction::CacheAndPublish => {
                cached = got;
                break;
            }
            DiscoveryAction::RetryAfterPause { .. } => {}
            DiscoveryAction::GiveUp => break,
        }
    }
    assert_eq!(asked, 3);
    let cached = cached.unwrap();
    let v: serde_json::Value = serde_json::from_str(&cached).unwrap();
    assert_eq!(v["ID"], "QmAbc");
    assert_eq!(v["Addrs"][0], "/ip4/127.0.0.1/tcp/9171");
}

#[test]
fn peer_info_rejects_blank_and_malformed() {
    assert_eq!(fetch_peer_info(""), None);
    assert_eq!(fetch_peer_info("   \n"), None);
    assert_eq!(fetch_peer_info("not json"), None);
    assert_eq!(fetch_peer_info("{\"ID\":\"\",\"Addrs\":[]}"), None);
    assert_eq!(fetch_peer_info("{}"), None);
    assert_eq!(fetch_peer_info("{\"ID\":5}"), None);
}

#[test]
fn peer_info_accepts_either_signal_and_compacts() {
    assert_eq!(
        fetch_peer_info("  { \"ID\" : \"QmX\" }\n"),
        Some("{\"ID\":\"QmX\"}".to_string())
    );
    assert_eq!(
        fetch_peer_info("{\"ID\":\"\",\"Addrs\":[\"/ip4/1.2.3.4/tcp/1\"]}"),
        Some("{\"Addrs\":[\"/ip4/1.2.3.4/tcp/1\"],\"ID\":\"\"}".to_string())
    );
}

#[test]
fn payload_usable_cases() {
    assert!(peer_payload_usable(Some("QmAbc"), None));
    assert!(peer_payload_usable(None, Some(1)));
    assert!(!peer_payload_usable(Some(""), Some(0)));
    assert!(!peer_payload_usable(None, None));
}

#[test]
fn connections_scenario() {
    assert_eq!(check_peer_connections("[]"), Ok(false));
    assert_eq!(check_peer_connections("[{\"info\":\"peer1\"}]"), Ok(true));
    assert_eq!(check_peer_connections(""), Ok(false));
}

#[test]
fn connections_null_other_and_garbage() {
    assert_eq!(check_peer_connections(" null \n"), Ok(false));
    assert_eq!(check_peer_connections("{\"a\":1}"), Ok(true));
    assert_eq!(
        check_peer_connections("  oops  "),
        Err("Failed to parse peer connections output: oops".to_string())
    );
}

#[test]
fn connections_from_listing_shapes() {
    assert_eq!(connections_from_listing("[1]", ListingShape::Array { len: 1 }), Ok(true));
    assert_eq!(connections_from_listing("[]", ListingShape::Array { len: 0 }), Ok(false));
    assert_eq!(connections_from_listing("null", ListingShape::Null), Ok(false));
    assert_eq!(connections_from_listing("{}", ListingShape::Other), Ok(true));
    assert_eq!(connections_from_listing("", ListingShape::Unparsed), Ok(false));
    assert_eq!(
        connections_from_listing("x", ListingShape::Unparsed),
        Err("Failed to parse peer connections output: x".to_string())
    );
}

#[test]
fn connect_scenario() {
    assert_eq!(
        connect_to_peer("QmPeer", "", "", true, "0"),
        Ok("Successfully connected to peer: QmPeer".to_string())
    );
    assert_eq!(
        connect_to_peer("QmPeer", "warning: x", "", true, "0"),
        Err("Failed to connect to peer. Error: stdout='warning: x', stderr=''".to_string())
    );
    assert_eq!(
        connect_to_peer("QmPeer", "", "boom", true, "0"),
        Err("Failed to connect to peer. Error: stdout='', stderr='boom'".to_string())
    );
}

#[test]
fn connect_whitespace_only_and_failed_status() {
    assert_eq!(
        connect_to_peer("QmPeer", " \n", "\t", true, "0"),
        Ok("Successfully connected to peer: QmPeer".to_string())
    );
    assert_eq!(
        connect_to_peer("QmPeer", "", "", false, "1"),
        Err("Failed to connect to peer. Exit status: 1".to_string())
    );
}

#[test]
fn schema_creation_scenario() {
    let mut b = SchemaBootstrap::new();
    assert_eq!(b.on_exists_checked(check_schema_exists("[]")), BootstrapAction::Create);
    let mut c = SchemaCreation::new();
    assert_eq!(c.on_line("schema successfully added", false), LineDisposition::Log);
    assert!(c.success);
    assert_eq!(b.on_creation_finished(c.success), BootstrapAction::Ready { existed: false });
    assert!(b.is_done());
    assert_eq!(b.attempt, 1);
}

#[test]
fn schema_lines_on_error_stream() {
    let mut c = SchemaCreation::new();
    assert_eq!(c.on_line("connection refused", true), LineDisposition::LogAndDiagnose);
    assert!(!c.success);
    assert_eq!(c.on_line("collection already exists", true), LineDisposition::Log);
    assert!(c.success);
    assert_eq!(c.on_line("another error", true), LineDisposition::LogAndDiagnose);
    assert!(c.success);
}

#[test]
fn schema_markers_and_listing() {
    assert!(creation_line_reports_success("schema successfully added"));
    assert!(creation_line_reports_success("Note already exists"));
    assert!(!creation_line_reports_success("syntax error"));
    assert!(check_schema_exists("[{\"Name\": \"Note\"}]"));
    assert!(!check_schema_exists("[{\"Name\": \"User\"}]"));
    assert!(!check_schema_exists(""));
}

#[test]
fn command_arguments() {
    assert_eq!(
        DaemonCommand::Start.args(),
        vec!["start", "--allowed-origins", "http://localhost:1420", "--rootdir", "./.defradb"]
    );
    assert_eq!(DaemonCommand::KeyringGenerate.args(), vec!["keyring", "generate"]);
    assert_eq!(DaemonCommand::SchemaList.args(), vec!["client", "schema", "list"]);
    assert_eq!(
        DaemonCommand::SchemaAdd.args(),
        vec!["client", "schema", "add", SCHEMA_DEFINITION]
    );
    assert_eq!(DaemonCommand::PeerInfo.args(), vec!["client", "p2p", "info"]);
    assert_eq!(
        DaemonCommand::ReplicatorSet { peer_id: "QmPeer".to_string() }.args(),
        vec!["client", "p2p", "replicator", "set", "-c", "Note", "QmPeer"]
    );
    assert_eq!(
        DaemonCommand::ReplicatorGetAll.args(),
        vec!["client", "p2p", "replicator", "getall"]
    );
    assert_eq!(KEYRING_SECRET, "your-secret-key-here");
    assert!(SCHEMA_DEFINITION.starts_with("type Note {"));
}
