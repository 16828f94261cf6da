use ecmui::catalog::{NitData, PayloadAction, PayloadLvarSet, ServiceParams};
use ecmui::errors::{DispatchError, RemoteError};
use ecmui::route::{
    bulk_attempts, resume_command, route_command, BulkStyle, Effect, Outcome, Payload, RouterRun,
    RouterStep,
};

fn ids(v: &[&str]) -> Vec<String> {
    let mut out = Vec::new();
    for s in v {
        out.push((*s).to_string());
    }
    out
}

fn remote_err(code: i16, msg: &str) -> RemoteError {
    RemoteError { code, message: Some(msg.to_string()) }
}

#[test]
fn save_maps_to_the_save_method() {
    let step = route_command(NitData::<u64>::new_save("node1"));
    match step {
        RouterStep::Continue { run, call } => {
            assert_eq!(run, RouterRun::AwaitSimple);
            assert_eq!(call.node, "node1");
            assert_eq!(call.target, "eva.core");
            assert_eq!(call.method, "save");
            assert_eq!(call.payload, Payload::Void);
        }
        other => panic!("unexpected step: {:?}", other),
    }
}

#[test]
fn restart_maps_to_core_shutdown() {
    let step = route_command(NitData::<u64>::new_restart("node1"));
    match step {
        RouterStep::Continue { call, .. } => {
            assert_eq!(call.method, "core.shutdown");
            assert_eq!(call.target, "eva.core");
        }
        other => panic!("unexpected step: {:?}", other),
    }
}

#[test]
fn broker_query_goes_to_the_broker_target() {
    let step = route_command(NitData::<u64>::new_broker("node1"));
    match step {
        RouterStep::Continue { call, .. } => {
            assert_eq!(call.target, ".broker");
            assert_eq!(call.method, "client.list");
        }
        other => panic!("unexpected step: {:?}", other),
    }
}

#[test]
fn svc_get_info_targets_the_service_itself() {
    let step = route_command(NitData::<u64>::new_svc_get_info("node1", "my.svc".to_string()));
    match step {
        RouterStep::Continue { call, .. } => {
            assert_eq!(call.target, "my.svc");
            assert_eq!(call.method, "info");
            assert_eq!(call.payload, Payload::Void);
        }
        other => panic!("unexpected step: {:?}", other),
    }
}

#[test]
fn state_query_pairs_state_with_node_list() {
    // first call: the liveness/identity probe
    let step = route_command(NitData::<u64>::new_state("node1"));
    let (run, call) = match step {
        RouterStep::Continue { run, call } => (run, call),
        other => panic!("unexpected step: {:?}", other),
    };
    assert_eq!(call.method, "test");
    // its result is kept, and the node list is asked for next
    let step = resume_command(run, Ok(111));
    let (run, call) = match step {
        RouterStep::Continue { run, call } => (run, call),
        other => panic!("unexpected step: {:?}", other),
    };
    assert_eq!(call.method, "node.list");
    // the reply pairs the state map with the node list, in that order
    let step = resume_command(run, Ok(222));
    assert_eq!(
        step,
        RouterStep::Finish { reply: Ok(Outcome::Pair(111, 222)), effect: None }
    );
}

#[test]
fn compound_failure_discards_the_first_half() {
    let step = route_command(NitData::<u64>::new_state("node1"));
    let run = match step {
        RouterStep::Continue { run, .. } => run,
        other => panic!("unexpected step: {:?}", other),
    };
    let run = match resume_command(run, Ok(111)) {
        RouterStep::Continue { run, .. } => run,
        other => panic!("unexpected step: {:?}", other),
    };
    let step = resume_command(run, Err(remote_err(-32008, "timeout")));
    assert_eq!(
        step,
        RouterStep::Finish {
            reply: Err(DispatchError::Remote(remote_err(-32008, "timeout"))),
            effect: None
        }
    );
}

#[test]
fn svc_get_params_x_replies_params_then_spoints() {
    let step = route_command(NitData::<u64>::new_svc_get_params_x("node1", "svc1".to_string()));
    let (run, call) = match step {
        RouterStep::Continue { run, call } => (run, call),
        other => panic!("unexpected step: {:?}", other),
    };
    assert_eq!(call.method, "spoint.list");
    let (run, call) = match resume_command(run, Ok(77)) {
        RouterStep::Continue { run, call } => (run, call),
        other => panic!("unexpected step: {:?}", other),
    };
    assert_eq!(call.method, "svc.get_params");
    assert_eq!(call.payload, Payload::Id("svc1".to_string()));
    // the params lead the reply pair even though the secondary-point list was
    // fetched first
    let step = resume_command(run, Ok(88));
    assert_eq!(
        step,
        RouterStep::Finish { reply: Ok(Outcome::Pair(88, 77)), effect: None }
    );
}

#[test]
fn bulk_operation_halts_at_first_failure_naming_the_item() {
    let step = route_command(NitData::<u64>::new_lvar_reset("node1", ids(&["a", "b", "c"])));
    let (run, call) = match step {
        RouterStep::Continue { run, call } => (run, call),
        other => panic!("unexpected step: {:?}", other),
    };
    assert_eq!(call.method, "lvar.reset");
    assert_eq!(call.payload, Payload::Id("a".to_string()));
    // `a` succeeds, so `b` is attempted
    let (run, call) = match resume_command(run, Ok(0)) {
        RouterStep::Continue { run, call } => (run, call),
        other => panic!("unexpected step: {:?}", other),
    };
    assert_eq!(call.payload, Payload::Id("b".to_string()));
    // `b` fails: the reply names `b`, and the machine is finished, so `c` is
    // never attempted
    let step = resume_command(run, Err(remote_err(-32010, "boom")));
    assert_eq!(
        step,
        RouterStep::Finish {
            reply: Err(DispatchError::BulkItem {
                item: "b".to_string(),
                cause: remote_err(-32010, "boom"),
            }),
            effect: None
        }
    );
}

#[test]
fn bulk_operation_acknowledges_after_the_last_item() {
    let step = route_command(NitData::<u64>::new_item_enable("node1", ids(&["x", "y"])));
    let run = match step {
        RouterStep::Continue { run, call } => {
            assert_eq!(call.method, "item.enable");
            run
        }
        other => panic!("unexpected step: {:?}", other),
    };
    let run = match resume_command(run, Ok(0)) {
        RouterStep::Continue { run, call } => {
            assert_eq!(call.payload, Payload::Id("y".to_string()));
            run
        }
        other => panic!("unexpected step: {:?}", other),
    };
    let step = resume_command(run, Ok(0));
    assert_eq!(step, RouterStep::Finish { reply: Ok(Outcome::Unit), effect: None });
}

#[test]
fn bulk_trace_attempts_exactly_the_prefix_up_to_the_failure() {
    // every call succeeds: every identifier is attempted, in order
    let (attempted, reply) = bulk_attempts::<u64>(
        "node1".to_string(),
        "item.disable",
        ids(&["a", "b", "c"]),
        BulkStyle::Id,
        vec![Ok(0), Ok(0), Ok(0)],
    );
    assert_eq!(attempted, ids(&["a", "b", "c"]));
    assert_eq!(reply, Ok(Outcome::Unit));
    // the call for `b` fails: `a` and `b` were attempted, `c` never was
    let (attempted, reply) = bulk_attempts::<u64>(
        "node1".to_string(),
        "item.disable",
        ids(&["a", "b", "c"]),
        BulkStyle::Id,
        vec![Ok(0), Err(remote_err(-32010, "boom")), Ok(0)],
    );
    assert_eq!(attempted, ids(&["a", "b"]));
    // destroying two of three items before the third fails: both applied
    // destroys stay applied, the failure names the third
    let (attempted, destroy_reply) = bulk_attempts::<u64>(
        "node1".to_string(),
        "item.undeploy",
        ids(&["x", "y", "z"]),
        BulkStyle::ItemsOne,
        vec![Ok(0), Ok(0), Err(remote_err(-32013, "busy"))],
    );
    assert_eq!(attempted, ids(&["x", "y", "z"]));
    assert_eq!(
        destroy_reply,
        Err(DispatchError::BulkItem {
            item: "z".to_string(),
            cause: remote_err(-32013, "busy"),
        })
    );
    assert_eq!(
        reply,
        Err(DispatchError::BulkItem {
            item: "b".to_string(),
            cause: remote_err(-32010, "boom"),
        })
    );
}

#[test]
fn empty_bulk_list_acknowledges_without_any_call() {
    let step = route_command(NitData::<u64>::new_item_announce("node1", ids(&[])));
    assert_eq!(step, RouterStep::Finish { reply: Ok(Outcome::Unit), effect: None });
}

#[test]
fn lvar_set_fills_the_target_id_per_variable() {
    let p = PayloadLvarSet { i: None, status: Some(1), value: Some(42u64) };
    let step = route_command(NitData::new_lvar_set("node1", ids(&["v1", "v2"]), p));
    let (run, call) = match step {
        RouterStep::Continue { run, call } => (run, call),
        other => panic!("unexpected step: {:?}", other),
    };
    assert_eq!(call.method, "lvar.set");
    match call.payload {
        Payload::LvarSet(p) => {
            assert_eq!(p.i, Some("v1".to_string()));
            assert_eq!(p.status, Some(1));
            assert_eq!(p.value, Some(42));
        }
        other => panic!("unexpected payload: {:?}", other),
    }
    match resume_command(run, Ok(0)) {
        RouterStep::Continue { call, .. } => match call.payload {
            Payload::LvarSet(p) => {
                assert_eq!(p.i, Some("v2".to_string()));
                assert_eq!(p.status, Some(1));
                assert_eq!(p.value, Some(42));
            }
            other => panic!("unexpected payload: {:?}", other),
        },
        other => panic!("unexpected step: {:?}", other),
    }
}

#[test]
fn item_destroy_runs_per_identifier_and_halts_at_the_first_failure() {
    // one call per identifier, each carrying a one-element items list
    let step = route_command(NitData::<u64>::new_item_destroy("node1", ids(&["a", "b", "c"])));
    let (run, call) = match step {
        RouterStep::Continue { run, call } => (run, call),
        other => panic!("unexpected step: {:?}", other),
    };
    assert_eq!(call.method, "item.undeploy");
    assert_eq!(call.payload, Payload::Items(ids(&["a"])));
    // `a` succeeds, so `b` is attempted
    let (run, call) = match resume_command(run, Ok(0)) {
        RouterStep::Continue { run, call } => (run, call),
        other => panic!("unexpected step: {:?}", other),
    };
    assert_eq!(call.payload, Payload::Items(ids(&["b"])));
    // `b` fails: the reply names `b`, and the machine is finished, so the
    // destroy of `c` is never attempted
    let step = resume_command(run, Err(remote_err(-32013, "busy")));
    assert_eq!(
        step,
        RouterStep::Finish {
            reply: Err(DispatchError::BulkItem {
                item: "b".to_string(),
                cause: remote_err(-32013, "busy"),
            }),
            effect: None
        }
    );
}

#[test]
fn svc_destroy_runs_per_service_and_purge_sends_the_whole_list() {
    // destroy is bulk: one call per service, one-element svcs list each
    let step = route_command(NitData::<u64>::new_svc_destroy("node1", ids(&["s1", "s2"])));
    let (run, call) = match step {
        RouterStep::Continue { run, call } => (run, call),
        other => panic!("unexpected step: {:?}", other),
    };
    assert_eq!(call.method, "svc.undeploy");
    assert_eq!(call.payload, Payload::Svcs(ids(&["s1"])));
    let (run, call) = match resume_command(run, Ok(0)) {
        RouterStep::Continue { run, call } => (run, call),
        other => panic!("unexpected step: {:?}", other),
    };
    assert_eq!(call.payload, Payload::Svcs(ids(&["s2"])));
    let step = resume_command(run, Ok(0));
    assert_eq!(step, RouterStep::Finish { reply: Ok(Outcome::Unit), effect: None });
    // purge is not bulk: one call with the whole list
    let step = route_command(NitData::<u64>::new_svc_purge("node1", ids(&["s1", "s2"])));
    match step {
        RouterStep::Continue { run, call } => {
            assert_eq!(run, RouterRun::AwaitSimple);
            assert_eq!(call.method, "svc.purge");
            assert_eq!(call.payload, Payload::Svcs(ids(&["s1", "s2"])));
        }
        other => panic!("unexpected step: {:?}", other),
    }
}

#[test]
fn svc_deploy_with_trailing_dot_fails_locally_before_any_call() {
    let params = ServiceParams { id: Some("my.svc.".to_string()), params: 0u64 };
    let step = route_command(NitData::new_svc_deploy("node1", params));
    // a Finish step makes no remote call at all
    assert_eq!(
        step,
        RouterStep::Finish {
            reply: Err(DispatchError::Invalid("invalid ID".to_string())),
            effect: None
        }
    );
}

#[test]
fn svc_deploy_without_id_fails_locally() {
    let params = ServiceParams { id: None, params: 0u64 };
    let step = route_command(NitData::new_svc_deploy("node1", params));
    assert_eq!(
        step,
        RouterStep::Finish {
            reply: Err(DispatchError::Invalid("ID is not set".to_string())),
            effect: None
        }
    );
}

#[test]
fn svc_deploy_with_good_id_sends_the_deploy_payload() {
    let params = ServiceParams { id: Some("my.svc".to_string()), params: 9u64 };
    let step = route_command(NitData::new_svc_deploy("node1", params));
    match step {
        RouterStep::Continue { call, .. } => {
            assert_eq!(call.method, "svc.deploy");
            assert_eq!(call.payload, Payload::SvcDeploy { id: "my.svc".to_string(), params: 9 });
        }
        other => panic!("unexpected step: {:?}", other),
    }
}

#[test]
fn item_list_normalises_wildcard_source_nodes() {
    for src in ["", "*", "#"] {
        let step = route_command(NitData::<u64>::new_item_list(
            "node1",
            Some("sensor:#".to_string()),
            Some(src.to_string()),
        ));
        match step {
            RouterStep::Continue { call, .. } => {
                assert_eq!(call.method, "item.list");
                assert_eq!(
                    call.payload,
                    Payload::ItemList { i: "sensor:#".to_string(), src: None }
                );
            }
            other => panic!("unexpected step: {:?}", other),
        }
    }
    let step = route_command(NitData::<u64>::new_item_list(
        "node1",
        Some("sensor:#".to_string()),
        Some("node2".to_string()),
    ));
    match step {
        RouterStep::Continue { call, .. } => {
            assert_eq!(
                call.payload,
                Payload::ItemList { i: "sensor:#".to_string(), src: Some("node2".to_string()) }
            );
        }
        other => panic!("unexpected step: {:?}", other),
    }
}

#[test]
fn filterless_queries_answer_an_empty_list_without_any_call() {
    let step = route_command(NitData::<u64>::new_item_list("node1", None, None));
    assert_eq!(step, RouterStep::Finish { reply: Ok(Outcome::Empty), effect: None });
}

#[test]
fn unit_action_and_macro_run_carry_the_action_payload() {
    let p = PayloadAction { i: Some("unit:door".to_string()), params: 5u64 };
    let step = route_command(NitData::new_unit_action("node1", p));
    match step {
        RouterStep::Continue { call, .. } => {
            assert_eq!(call.method, "action");
            assert_eq!(
                call.payload,
                Payload::Action(PayloadAction { i: Some("unit:door".to_string()), params: 5 })
            );
        }
        other => panic!("unexpected step: {:?}", other),
    }
    let p = PayloadAction { i: Some("lmacro:m1".to_string()), params: 6u64 };
    let step = route_command(NitData::new_lmacro_run("node1", p));
    match step {
        RouterStep::Continue { call, .. } => {
            assert_eq!(call.method, "run");
        }
        other => panic!("unexpected step: {:?}", other),
    }
}

#[test]
fn simple_call_result_becomes_the_reply() {
    let step = route_command(NitData::<u64>::new_services("node1"));
    let run = match step {
        RouterStep::Continue { run, call } => {
            assert_eq!(call.method, "svc.list");
            run
        }
        other => panic!("unexpected step: {:?}", other),
    };
    let step = resume_command(run, Ok(314));
    assert_eq!(step, RouterStep::Finish { reply: Ok(Outcome::One(314)), effect: None });
}

#[test]
fn simple_call_failure_becomes_a_remote_error() {
    let step = route_command(NitData::<u64>::new_spoints("node1"));
    let run = match step {
        RouterStep::Continue { run, .. } => run,
        other => panic!("unexpected step: {:?}", other),
    };
    let step = resume_command(run, Err(remote_err(-32002, "denied")));
    assert_eq!(
        step,
        RouterStep::Finish {
            reply: Err(DispatchError::Remote(remote_err(-32002, "denied"))),
            effect: None
        }
    );
}

#[test]
fn start_watcher_commands_reply_at_once_and_spawn() {
    let step = route_command(NitData::<u64>::start_item_watcher(9, "node1", "sensor:temp1".to_string(), 1000));
    assert_eq!(
        step,
        RouterStep::Finish {
            reply: Ok(Outcome::Unit),
            effect: Some(Effect::SpawnItemWatcher {
                u: 9,
                node: "node1".to_string(),
                oid: "sensor:temp1".to_string(),
                interval_ms: 1000,
            })
        }
    );
    let step = route_command(NitData::<u64>::start_action_watcher(10, "node1", 77, 500));
    assert_eq!(
        step,
        RouterStep::Finish {
            reply: Ok(Outcome::Unit),
            effect: Some(Effect::SpawnActionWatcher {
                u: 10,
                node: "node1".to_string(),
                action_uuid: 77,
                interval_ms: 500,
            })
        }
    );
}

#[test]
fn stop_watcher_command_replies_at_once() {
    let step = route_command(NitData::<u64>::stop_watcher(9));
    assert_eq!(
        step,
        RouterStep::Finish {
            reply: Ok(Outcome::Unit),
            effect: Some(Effect::StopWatcher { u: 9 })
        }
    );
}

#[test]
fn svc_call_acknowledges_and_spawns_out_of_band() {
    let step = route_command(NitData::<u64>::new_svc_call(
        4,
        "node1",
        "my.svc".to_string(),
        "do_thing".to_string(),
        Some(1234),
    ));
    assert_eq!(
        step,
        RouterStep::Finish {
            reply: Ok(Outcome::Unit),
            effect: Some(Effect::SpawnSvcCall {
                u: 4,
                node: "node1".to_string(),
                target: "my.svc".to_string(),
                method: "do_thing".to_string(),
                payload: Some(1234),
            })
        }
    );
}
