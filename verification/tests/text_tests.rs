use ecmui::catalog::{nd_from_path, NitData, NitKind};
use ecmui::errors::{DispatchError, RemoteError};
use ecmui::text::{i16_dec, spent_time, u64_dec};

#[test]
fn decimal_rendering_is_exact() {
    assert_eq!(u64_dec(0), "0");
    assert_eq!(u64_dec(7), "7");
    assert_eq!(u64_dec(10), "10");
    assert_eq!(u64_dec(12345), "12345");
    assert_eq!(u64_dec(u64::MAX), "18446744073709551615");
}

#[test]
fn signed_decimal_rendering_is_exact() {
    assert_eq!(i16_dec(0), "0");
    assert_eq!(i16_dec(32767), "32767");
    assert_eq!(i16_dec(-1), "-1");
    assert_eq!(i16_dec(-32001), "-32001");
    assert_eq!(i16_dec(-32768), "-32768");
}

#[test]
fn spent_time_decomposes_each_magnitude() {
    assert_eq!(spent_time(0), "0 sec");
    assert_eq!(spent_time(59), "59 sec");
    assert_eq!(spent_time(60), "1m 0s");
    assert_eq!(spent_time(119), "1m 59s");
    assert_eq!(spent_time(3599), "59m 59s");
    assert_eq!(spent_time(3600), "1h 0m 0s");
    assert_eq!(spent_time(86399), "23h 59m 59s");
    assert_eq!(spent_time(86400), "1d 0h 0m 0s");
    assert_eq!(spent_time(90061), "1d 1h 1m 1s");
}

#[test]
fn fixed_error_texts_never_expose_structure() {
    assert_eq!(DispatchError::NotConnected.display_string(), "Not connected");
    assert_eq!(DispatchError::AdmissionRejected.display_string(), "Operations pending");
}

#[test]
fn remote_error_text_builds_from_kind_code_and_message() {
    let e = RemoteError { code: -32001, message: Some("gone".to_string()) };
    assert_eq!(e.display_string(), "Resource not found (-32001): gone");
    let e = RemoteError { code: -32008, message: None };
    assert_eq!(e.display_string(), "Timed out (-32008)");
    let e = RemoteError { code: -1, message: None };
    assert_eq!(e.display_string(), "Other (-1)");
    assert_eq!(
        DispatchError::Remote(RemoteError { code: -32016, message: Some("pipe".to_string()) })
            .display_string(),
        "IO error (-32016): pipe"
    );
}

#[test]
fn bulk_failure_text_names_the_item_first() {
    let e = DispatchError::BulkItem {
        item: "lvar:one".to_string(),
        cause: RemoteError { code: -32010, message: Some("refused".to_string()) },
    };
    assert_eq!(e.display_string(), "lvar:one: Function failed (-32010): refused");
}

#[test]
fn local_failure_texts_carry_their_message() {
    assert_eq!(
        DispatchError::Invalid("invalid ID".to_string()).display_string(),
        "Invalid data: invalid ID"
    );
    assert_eq!(
        DispatchError::Decode("bad shape".to_string()).display_string(),
        "Invalid data: bad shape"
    );
}

#[test]
fn not_found_detection_matches_the_remote_code() {
    assert!(RemoteError { code: -32001, message: None }.is_not_found());
    assert!(!RemoteError { code: -32002, message: None }.is_not_found());
}

#[test]
fn command_display_uses_the_canonical_short_names() {
    assert_eq!(NitData::<u64>::new_save("node1").display_string(), "node1->save");
    assert_eq!(NitData::<u64>::new_restart("n").display_string(), "n->restart");
    assert_eq!(
        NitData::<u64>::new_lvar_toggle("n", vec!["a".to_string()]).display_string(),
        "n->lvar.toggle"
    );
    assert_eq!(
        NitData::<u64>::new_svc_restart("n", vec![]).display_string(),
        "n->svc.restart"
    );
    // operations without a canonical name display nothing after the arrow
    assert_eq!(NitData::<u64>::new_state("node1").display_string(), "node1->");
    assert_eq!(NitData::<u64>::new_services("node1").display_string(), "node1->");
}

#[test]
fn tree_paths_parse_into_commands() {
    let p = |parts: &[&str]| -> Vec<String> { parts.iter().map(|s| s.to_string()).collect() };
    let nd = nd_from_path::<u64>(&p(&["node1"])).unwrap();
    assert_eq!(nd.node, "node1");
    assert_eq!(nd.kind, NitKind::State);
    let nd = nd_from_path::<u64>(&p(&["node1", "log"])).unwrap();
    assert_eq!(nd.kind, NitKind::Log(None));
    let nd = nd_from_path::<u64>(&p(&["node1", "broker"])).unwrap();
    assert_eq!(nd.kind, NitKind::Broker);
    let nd = nd_from_path::<u64>(&p(&["node1", "services"])).unwrap();
    assert_eq!(nd.kind, NitKind::Services);
    let nd = nd_from_path::<u64>(&p(&["node1", "spoints"])).unwrap();
    assert_eq!(nd.kind, NitKind::SPoints);
    let nd = nd_from_path::<u64>(&p(&["node1", "items"])).unwrap();
    assert_eq!(nd.kind, NitKind::Items(None, None));
    let nd = nd_from_path::<u64>(&p(&["node1", "actions"])).unwrap();
    assert_eq!(nd.kind, NitKind::Actions(None));
    let nd = nd_from_path::<u64>(&p(&["node1", "users"])).unwrap();
    assert_eq!(nd.kind, NitKind::Users(None));
    assert!(nd_from_path::<u64>(&p(&["node1", "bogus"])).is_none());
    assert!(nd_from_path::<u64>(&p(&[])).is_none());
    // anything below the leaf is ignored
    let nd = nd_from_path::<u64>(&p(&["node1", "services", "extra"])).unwrap();
    assert_eq!(nd.kind, NitKind::Services);
}
