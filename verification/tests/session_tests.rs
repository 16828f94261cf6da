use ecmui::catalog::{ItemState, NitData, NitKind};
use ecmui::errors::{DispatchError, RemoteError};
use ecmui::nodes::NodeInfo;
use ecmui::notify::{StatusKind, UiCommand};
use ecmui::session::{item_state_check, normalize_connection_path, LoadOutcome, Phase, Session};

type S = Session<u64, u32, u32>;

fn node(name: &str, remote: bool, svc: Option<&str>) -> NodeInfo<u64> {
    NodeInfo {
        name: name.to_string(),
        online: true,
        remote,
        svc: svc.map(str::to_string),
        info: None,
    }
}

fn remote_err(code: i16, msg: &str) -> RemoteError {
    RemoteError { code, message: Some(msg.to_string()) }
}

fn connect_to_loading(s: &mut S) {
    let (_teardown, status) = s.connect("var/bus.ipc".to_string(), 5000, None);
    match status {
        UiCommand::SetStatus(m, StatusKind::Info) => {
            assert_eq!(m, "Connecting to var/bus.ipc...");
        }
        other => panic!("unexpected notice: {:?}", other),
    }
    let notice = s.on_transport(Ok(()));
    match notice {
        UiCommand::SetStatus(m, StatusKind::Info) => {
            assert_eq!(m, "Loading data from var/bus.ipc...");
        }
        other => panic!("unexpected notice: {:?}", other),
    }
    assert_eq!(s.on_system_info(Ok("sysname".to_string())), None);
}

#[test]
fn healthy_connect_sorts_nodes_and_starts_the_session() {
    let mut s: S = Session::new();
    connect_to_loading(&mut s);
    let nodes = vec![
        node("node1", true, Some("eva.repl.one")),
        node("sysname", false, None),
    ];
    let ok = match s.on_node_list(Ok(nodes)) {
        LoadOutcome::Up(ok) => ok,
        LoadOutcome::Failed(_, n) => panic!("connect failed: {:?}", n),
    };
    assert_eq!(s.phase, Phase::Connected);
    // the node list is sorted with the local node first
    match &ok.connected_notice {
        UiCommand::MarkConnected(path, ns) => {
            assert_eq!(path, "var/bus.ipc");
            assert_eq!(ns.len(), 2);
            assert_eq!(ns[0].name, "sysname");
            assert_eq!(ns[1].name, "node1");
        }
        other => panic!("unexpected notice: {:?}", other),
    }
    // the routing map holds the one node that reports a service address
    assert_eq!(ok.node_map, vec![("node1".to_string(), "eva.repl.one".to_string())]);
    // liveness is probed every half timeout
    assert_eq!(ok.heartbeat_period_ms, 2500);
    // the initial state query goes to the local system
    match &ok.initial_query_notice {
        UiCommand::ProcessNit(nd) => {
            assert_eq!(nd.node, "sysname");
            assert_eq!(nd.kind, NitKind::State);
        }
        other => panic!("unexpected notice: {:?}", other),
    }
    // the queue is installed: a command is admitted now
    assert_eq!(s.submit(NitData::new_save("sysname"), 1), Ok(()));
}

#[test]
fn remote_nodes_sort_lexicographically_after_the_local_one() {
    let mut s: S = Session::new();
    connect_to_loading(&mut s);
    let nodes = vec![
        node("zeta", true, None),
        node("alpha", true, None),
        node("local", false, None),
        node("mid", true, None),
    ];
    let ok = match s.on_node_list(Ok(nodes)) {
        LoadOutcome::Up(ok) => ok,
        LoadOutcome::Failed(_, n) => panic!("connect failed: {:?}", n),
    };
    match &ok.connected_notice {
        UiCommand::MarkConnected(_, ns) => {
            let names: Vec<&str> = ns.iter().map(|n| n.name.as_str()).collect();
            assert_eq!(names, vec!["local", "alpha", "mid", "zeta"]);
        }
        other => panic!("unexpected notice: {:?}", other),
    }
}

#[test]
fn connect_records_the_caller_credentials() {
    let mut s: S = Session::new();
    let creds = Some(("op".to_string(), "pw".to_string()));
    let _ = s.connect("var/bus.ipc".to_string(), 5000, creds.clone());
    assert_eq!(s.credentials, creds);
    assert_eq!(s.timeout_ms, 5000);
    assert_eq!(s.path, Some("var/bus.ipc".to_string()));
}

#[test]
fn sort_handles_prefixes_and_equal_names() {
    let sorted = ecmui::nodes::sort_nodes(vec![
        node("abc", true, None),
        node("aa", true, None),
        node("ab", true, None),
        node("ab", true, None),
    ]);
    let names: Vec<&str> = sorted.iter().map(|n| n.name.as_str()).collect();
    assert_eq!(names, vec!["aa", "ab", "ab", "abc"]);
}

#[test]
fn transport_failure_reports_once_and_returns_to_disconnected() {
    let mut s: S = Session::new();
    let _ = s.connect("badhost".to_string(), 1000, None);
    let notice = s.on_transport(Err(remote_err(-32016, "refused")));
    match notice {
        UiCommand::SetStatus(m, StatusKind::Error) => assert_eq!(m, "refused"),
        other => panic!("unexpected notice: {:?}", other),
    }
    assert_eq!(s.phase, Phase::Disconnected);
    // no queue was installed: commands are rejected
    assert_eq!(
        s.submit(NitData::new_save("x"), 1),
        Err(DispatchError::NotConnected)
    );
}

#[test]
fn silent_transport_failure_uses_the_fixed_fallback_text() {
    let mut s: S = Session::new();
    let _ = s.connect("badhost".to_string(), 1000, None);
    let notice = s.on_transport(Err(RemoteError { code: -32016, message: None }));
    match notice {
        UiCommand::SetStatus(m, StatusKind::Error) => assert_eq!(m, "Connection error"),
        other => panic!("unexpected notice: {:?}", other),
    }
}

#[test]
fn disconnect_clears_every_watcher_whatever_their_number() {
    for n in [0u32, 1, 5] {
        let mut s: S = Session::new();
        connect_to_loading(&mut s);
        let _ = s.on_node_list(Ok(vec![node("sysname", false, None)]));
        for i in 0..n {
            s.registry.register(i as u128, 1000 + i);
        }
        assert_eq!(s.registry.active_count(), n as usize);
        let teardown = s.disconnect();
        assert_eq!(teardown.watchers.len(), n as usize);
        assert_eq!(teardown.notice, UiCommand::MarkDisconnected);
        assert_eq!(s.registry.active_count(), 0);
        assert_eq!(s.phase, Phase::Disconnected);
        assert_eq!(s.take_last_command(), None);
    }
}

#[test]
fn disconnect_is_safe_when_nothing_is_connected() {
    let mut s: S = Session::new();
    let teardown = s.disconnect();
    assert_eq!(teardown.watchers.len(), 0);
    assert_eq!(teardown.supervisor_task, None);
    assert_eq!(teardown.router_task, None);
    assert_eq!(teardown.notice, UiCommand::MarkDisconnected);
}

#[test]
fn heartbeat_failure_is_fatal_and_tears_everything_down() {
    let mut s: S = Session::new();
    connect_to_loading(&mut s);
    let _ = s.on_node_list(Ok(vec![node("sysname", false, None)]));
    s.set_router_task(1);
    s.set_supervisor_task(2);
    s.registry.register(7, 70);
    // a healthy probe changes nothing
    assert!(s.on_heartbeat(Ok(())).is_none());
    assert_eq!(s.phase, Phase::Connected);
    // a failed probe ends the session
    let (teardown, notice) = s.on_heartbeat(Err(remote_err(-32008, "probe lost"))).unwrap();
    assert_eq!(teardown.watchers, vec![70]);
    assert_eq!(teardown.router_task, Some(1));
    assert_eq!(teardown.supervisor_task, Some(2));
    match notice {
        UiCommand::SetStatus(m, StatusKind::Error) => assert_eq!(m, "probe lost"),
        other => panic!("unexpected notice: {:?}", other),
    }
    assert_eq!(s.phase, Phase::Disconnected);
    assert_eq!(s.registry.active_count(), 0);
}

#[test]
fn reconnect_tears_the_previous_session_down_first() {
    let mut s: S = Session::new();
    connect_to_loading(&mut s);
    let _ = s.on_node_list(Ok(vec![node("sysname", false, None)]));
    s.registry.register(1, 10);
    s.set_last_command(NitData::new_save("sysname"));
    let (teardown, _) = s.connect("otherhost".to_string(), 2000, None);
    assert_eq!(teardown.watchers, vec![10]);
    assert_eq!(s.phase, Phase::Connecting);
    assert_eq!(s.registry.active_count(), 0);
    assert_eq!(s.take_last_command(), None);
    // the old queue is gone until the new session is up
    assert_eq!(
        s.submit(NitData::new_save("x"), 1),
        Err(DispatchError::NotConnected)
    );
}

#[test]
fn loading_failure_reports_and_abandons_the_attempt() {
    let mut s: S = Session::new();
    connect_to_loading(&mut s);
    match s.on_node_list(Err(remote_err(-32003, "db down"))) {
        LoadOutcome::Failed(teardown, notice) => {
            assert_eq!(teardown.notice, UiCommand::MarkDisconnected);
            match notice {
                UiCommand::SetStatus(m, StatusKind::Error) => assert_eq!(m, "db down"),
                other => panic!("unexpected notice: {:?}", other),
            }
        }
        LoadOutcome::Up(_) => panic!("load should have failed"),
    }
    assert_eq!(s.phase, Phase::Disconnected);
}

#[test]
fn session_queue_keeps_capacity_one_semantics() {
    let mut s: S = Session::new();
    connect_to_loading(&mut s);
    let _ = s.on_node_list(Ok(vec![node("sysname", false, None)]));
    assert_eq!(s.submit(NitData::new_save("sysname"), 41), Ok(()));
    assert_eq!(
        s.submit(NitData::new_restart("sysname"), 42),
        Err(DispatchError::AdmissionRejected)
    );
    // the first command comes out paired with its own reply ticket
    let (first, ticket) = s.next_command().unwrap();
    assert_eq!(first.kind, NitKind::Save);
    assert_eq!(ticket, 41);
    assert_eq!(s.next_command(), None);
}

#[test]
fn item_state_check_accepts_exactly_one_matching_record() {
    let st = ItemState { oid: "sensor:temp1".to_string(), status: 1, value: Some(42u64) };
    let r = item_state_check("sensor:temp1", vec![st.clone()]);
    assert_eq!(r, Ok(st));
}

#[test]
fn item_state_check_rejects_wrong_shapes() {
    let st = ItemState { oid: "sensor:temp1".to_string(), status: 1, value: Some(42u64) };
    let r = item_state_check::<u64>("sensor:temp1", vec![]);
    assert_eq!(r, Err(DispatchError::Invalid("invalid payload received".to_string())));
    let r = item_state_check("sensor:temp1", vec![st.clone(), st.clone()]);
    assert_eq!(r, Err(DispatchError::Invalid("invalid payload received".to_string())));
    let r = item_state_check("sensor:other", vec![st]);
    assert_eq!(r, Err(DispatchError::Invalid("OID mismatch".to_string())));
}

#[test]
fn connection_path_scheme_prefix_is_stripped() {
    assert_eq!(normalize_connection_path("rt://var/bus.ipc"), "var/bus.ipc");
    assert_eq!(normalize_connection_path("var/bus.ipc"), "var/bus.ipc");
    assert_eq!(normalize_connection_path("http://host:7727"), "http://host:7727");
    assert_eq!(normalize_connection_path("rt:/"), "rt:/");
    assert_eq!(normalize_connection_path("rt://"), "");
}
