//! The end-to-end scenarios: catch-up, state sharing, reattachment, and the
//! corner cases of the tag-based rendezvous.

use qni_core::api::{
    ConsoleMessage, ConsoleRequest, ConsoleResponse, InputKind, InputValue, ProgramCommand,
    ProgramMessage, ProgramRequest, ProgramResponse, Timestamp,
};
use qni_core::connector::ConnectorContext;
use qni_core::console::{ConsoleContext, PollStatus, WaitError};
use qni_core::hub::Hub;

fn int_request() -> ProgramRequest {
    ProgramRequest::new(InputKind::Int, None)
}

fn now(seconds: i64, nanos: u32) -> Timestamp {
    Timestamp::new(seconds, nanos)
}

#[test]
fn print_only_program() {
    let mut ctx = ConsoleContext::new();
    ctx.append_command(ProgramCommand::PrintLine("Hello, world!".to_string()));
    ctx.append_command(ProgramCommand::PrintLine("Hello, world!".to_string()));
    ctx.set_exit();

    assert_eq!(ctx.get_command_count(), 2);
    let exported = ctx.export_command(0);
    assert_eq!(
        exported,
        vec![
            ProgramCommand::PrintLine("Hello, world!".to_string()),
            ProgramCommand::PrintLine("Hello, world!".to_string()),
        ]
    );
}

#[test]
fn catch_up_after_exit() {
    let mut hub = Hub::new();
    let id = hub.new_context();
    let mut connector = ConnectorContext::new(id);

    hub.context_mut(id)
        .append_command(ProgramCommand::Print("one".to_string()));
    hub.context_mut(id)
        .append_command(ProgramCommand::Print("two".to_string()));
    hub.context_mut(id)
        .append_command(ProgramCommand::Print("three".to_string()));
    hub.context_mut(id).set_exit();

    let r = connector.on_recv_message(&mut hub, ConsoleMessage::Req(ConsoleRequest::GetState(0)));
    match r {
        Some(ProgramMessage::Res(ProgramResponse::OkGetState(slice))) => {
            assert_eq!(slice.len(), 3);
        }
        other => panic!("expected the full slice: {:?}", other),
    }

    let r = connector.on_recv_message(&mut hub, ConsoleMessage::Req(ConsoleRequest::GetState(3)));
    match r {
        Some(ProgramMessage::Res(ProgramResponse::Error { reason, req_type })) => {
            assert_eq!(reason, "program exited");
            assert_eq!(req_type, "GET_STATE");
        }
        other => panic!("expected the program-exited error: {:?}", other),
    }
}

#[test]
fn catch_up_before_exit_past_end_is_empty() {
    let mut hub = Hub::new();
    let id = hub.new_context();
    let mut connector = ConnectorContext::new(id);

    hub.context_mut(id).append_command(ProgramCommand::NewLine);

    let r = connector.on_recv_message(&mut hub, ConsoleMessage::Req(ConsoleRequest::GetState(5)));
    match r {
        Some(ProgramMessage::Res(ProgramResponse::OkGetState(slice))) => {
            assert!(slice.is_empty());
        }
        other => panic!("expected an empty slice: {:?}", other),
    }
}

#[test]
fn share_state_conflict() {
    let mut hub = Hub::new();
    let id = hub.new_context();
    let mut connector = ConnectorContext::new(id);

    let r = connector.on_recv_message(
        &mut hub,
        ConsoleMessage::Req(ConsoleRequest::ShareState("a".to_string())),
    );
    assert_eq!(
        r,
        Some(ProgramMessage::Res(ProgramResponse::OkShareState(
            "a".to_string()
        )))
    );

    let r = connector.on_recv_message(
        &mut hub,
        ConsoleMessage::Req(ConsoleRequest::ShareState("a".to_string())),
    );
    match r {
        Some(ProgramMessage::Res(ProgramResponse::Error { reason, req_type })) => {
            assert_eq!(reason, "state [a] already exist");
            assert_eq!(req_type, "SHARE_STATE");
        }
        other => panic!("expected the conflict error: {:?}", other),
    }

    let r = connector.on_recv_message(
        &mut hub,
        ConsoleMessage::Req(ConsoleRequest::ShareStateOverwrite("a".to_string())),
    );
    assert_eq!(
        r,
        Some(ProgramMessage::Res(ProgramResponse::OkShareState(
            "a".to_string()
        )))
    );
}

#[test]
fn load_state_reattach() {
    let mut hub = Hub::new();
    let first = hub.new_context();
    let second = hub.new_context();

    hub.context_mut(first)
        .append_command(ProgramCommand::Print("first".to_string()));
    hub.context_mut(second)
        .append_command(ProgramCommand::Print("second".to_string()));
    hub.context_mut(second).append_command(ProgramCommand::NewLine);

    assert!(hub.insert_ctx("s".to_string(), second, false));

    let mut connector = ConnectorContext::new(first);
    let r = connector.on_recv_message(
        &mut hub,
        ConsoleMessage::Req(ConsoleRequest::LoadState("s".to_string())),
    );
    assert_eq!(r, Some(ProgramMessage::Res(ProgramResponse::OkLoadState)));

    let r = connector.on_recv_message(&mut hub, ConsoleMessage::Req(ConsoleRequest::GetState(0)));
    match r {
        Some(ProgramMessage::Res(ProgramResponse::OkGetState(slice))) => {
            assert_eq!(
                slice,
                vec![
                    ProgramCommand::Print("second".to_string()),
                    ProgramCommand::NewLine
                ]
            );
        }
        other => panic!("expected the newly bound log: {:?}", other),
    }
}

#[test]
fn load_state_miss() {
    let mut hub = Hub::new();
    let id = hub.new_context();
    let mut connector = ConnectorContext::new(id);

    let r = connector.on_recv_message(
        &mut hub,
        ConsoleMessage::Req(ConsoleRequest::LoadState("ghostly".to_string())),
    );
    match r {
        Some(ProgramMessage::Res(ProgramResponse::Error { reason, req_type })) => {
            assert_eq!(reason, "state [ghostly] not exist");
            assert_eq!(req_type, "LOAD_STATE");
        }
        other => panic!("expected the miss error: {:?}", other),
    }
}

#[test]
fn delete_state_has_no_reply() {
    let mut hub = Hub::new();
    let id = hub.new_context();
    let mut connector = ConnectorContext::new(id);

    assert!(hub.insert_ctx("gone".to_string(), id, false));
    let r = connector.on_recv_message(
        &mut hub,
        ConsoleMessage::Req(ConsoleRequest::DeleteState("gone".to_string())),
    );
    assert_eq!(r, None);
    assert_eq!(hub.get_ctx("gone"), None);

    // Deleting an absent name is also silent.
    let r = connector.on_recv_message(
        &mut hub,
        ConsoleMessage::Req(ConsoleRequest::DeleteState("gone".to_string())),
    );
    assert_eq!(r, None);
}

#[test]
fn registry_basics() {
    let mut hub = Hub::new();
    let a = hub.new_context();
    let b = hub.new_context();

    assert!(hub.insert_ctx("x".to_string(), a, false));
    assert_eq!(hub.get_ctx("x"), Some(a));
    assert!(!hub.insert_ctx("x".to_string(), b, false));
    assert_eq!(hub.get_ctx("x"), Some(a));
    assert!(hub.insert_ctx("x".to_string(), b, true));
    assert_eq!(hub.get_ctx("x"), Some(b));

    assert!(hub.erase_ctx("x"));
    assert!(!hub.erase_ctx("x"));
    assert_eq!(hub.get_ctx("x"), None);
}

#[test]
fn wait_times_out_at_expiry() {
    let mut ctx = ConsoleContext::new();
    let expire = Some(now(100, 500_000_000));
    let req = ProgramRequest::new(InputKind::Int, expire);
    let tag = ctx.begin_wait(req);

    assert_eq!(ctx.poll_wait(tag, expire, now(100, 499_999_999)), PollStatus::Pending);
    assert_eq!(ctx.poll_wait(tag, expire, now(99, 999_999_999)), PollStatus::Pending);
    // The deadline itself already counts as reached.
    assert_eq!(
        ctx.poll_wait(tag, expire, now(100, 500_000_000)),
        PollStatus::Finished(Err(WaitError::Timeout))
    );
}

#[test]
fn wait_without_expiry_stays_pending() {
    let mut ctx = ConsoleContext::new();
    let tag = ctx.begin_wait(int_request());
    assert_eq!(ctx.poll_wait(tag, None, now(i64::MAX, 0)), PollStatus::Pending);
    assert_eq!(ctx.poll_wait_now(tag, None), PollStatus::Pending);
}

#[test]
fn stale_response_is_discarded() {
    let mut ctx = ConsoleContext::new();
    let t0 = ctx.begin_wait(int_request());
    assert_eq!(t0, 0);
    let t1 = ctx.begin_wait(int_request());
    assert_eq!(t1, 1);

    // Tag 0 is stale now: 0 + 1 < 2.
    assert!(ctx.is_outdated_tag(0));
    ctx.on_recv_response(ConsoleResponse {
        tag: 0,
        payload: InputValue::Int(5),
    });
    assert_eq!(ctx.poll_wait(t1, None, now(0, 0)), PollStatus::Pending);

    ctx.on_recv_response(ConsoleResponse {
        tag: 1,
        payload: InputValue::Int(6),
    });
    match ctx.poll_wait(t1, None, now(0, 0)) {
        PollStatus::Finished(Ok(res)) => {
            assert_eq!(res.tag, 1);
            assert_eq!(res.payload, InputValue::Int(6));
        }
        other => panic!("expected the fresh response: {:?}", other),
    }
}

#[test]
fn superseded_wait_returns_outdated() {
    let mut ctx = ConsoleContext::new();
    let t0 = ctx.begin_wait(int_request());
    let _t1 = ctx.begin_wait(int_request());

    assert_eq!(
        ctx.poll_wait(t0, None, now(0, 0)),
        PollStatus::Finished(Err(WaitError::Outdated))
    );
    // The successor's published request is left alone.
    assert_eq!(ctx.try_get_req().map(|r| r.tag), Some(1));
}

#[test]
fn later_response_wins_the_slot() {
    let mut ctx = ConsoleContext::new();
    let tag = ctx.begin_wait(int_request());

    ctx.on_recv_response(ConsoleResponse {
        tag,
        payload: InputValue::Int(1),
    });
    ctx.on_recv_response(ConsoleResponse {
        tag,
        payload: InputValue::Int(2),
    });

    match ctx.poll_wait(tag, None, now(0, 0)) {
        PollStatus::Finished(Ok(res)) => assert_eq!(res.payload, InputValue::Int(2)),
        other => panic!("expected the later response: {:?}", other),
    }
}

#[test]
fn early_response_is_kept_for_the_next_wait() {
    let mut ctx = ConsoleContext::new();
    // No wait has begun; a response for the wait about to begin arrives
    // first. It is installed (its tag is not stale) and the next poller
    // takes it.
    ctx.on_recv_response(ConsoleResponse {
        tag: 0,
        payload: InputValue::Int(9),
    });
    let tag = ctx.begin_wait(int_request());
    match ctx.poll_wait(tag, None, now(0, 0)) {
        PollStatus::Finished(Ok(res)) => assert_eq!(res.payload, InputValue::Int(9)),
        other => panic!("expected the early response: {:?}", other),
    }
}

#[test]
fn request_visible_only_while_wait_pending() {
    let mut ctx = ConsoleContext::new();
    assert_eq!(ctx.try_get_req(), None);

    let tag = ctx.begin_wait(int_request());
    let published = ctx.try_get_req().expect("the request is published");
    assert_eq!(published.tag, tag);
    assert_eq!(published.input, InputKind::Int);

    ctx.on_recv_response(ConsoleResponse {
        tag,
        payload: InputValue::Int(3),
    });
    assert!(matches!(
        ctx.poll_wait(tag, None, now(0, 0)),
        PollStatus::Finished(Ok(_))
    ));
    assert_eq!(ctx.try_get_req(), None);
}

#[test]
fn log_snapshots_are_prefixes() {
    let mut ctx = ConsoleContext::new();
    ctx.append_command(ProgramCommand::Print("a".to_string()));
    let early = ctx.export_command(0);

    ctx.append_command(ProgramCommand::Print("b".to_string()));
    ctx.append_command(ProgramCommand::DrawLine);
    let late = ctx.export_command(0);

    assert_eq!(ctx.get_cur_input_tag(), 0);
    assert_eq!(early.len(), 1);
    assert_eq!(late.len(), 3);
    assert_eq!(&late[..early.len()], &early[..]);

    let tail = ctx.export_command(1);
    assert_eq!(
        tail,
        vec![
            ProgramCommand::Print("b".to_string()),
            ProgramCommand::DrawLine
        ]
    );

    // A snapshot taken exactly at the end is empty.
    assert!(ctx.export_command(3).is_empty());
}

#[test]
fn tags_are_distinct_and_increasing() {
    let mut ctx = ConsoleContext::new();
    let t0 = ctx.begin_wait(int_request());
    let t1 = ctx.begin_wait(int_request());
    let t2 = ctx.begin_wait(ProgramRequest::new(InputKind::Str, None));
    assert_eq!((t0, t1, t2), (0, 1, 2));
    assert_eq!(ctx.get_cur_input_tag(), 3);
}

#[test]
fn staleness_at_the_tag_bounds() {
    let ctx = ConsoleContext::new();
    // With the counter at zero nothing is stale, not even the largest tag.
    assert!(!ctx.is_outdated_tag(0));
    assert!(!ctx.is_outdated_tag(u32::MAX));

    let mut ctx = ConsoleContext::new();
    let _ = ctx.begin_wait(int_request());
    let _ = ctx.begin_wait(int_request());
    // Counter at 2: exactly the tags below 1 are stale.
    assert!(ctx.is_outdated_tag(0));
    assert!(!ctx.is_outdated_tag(1));
    assert!(!ctx.is_outdated_tag(2));
}

#[test]
fn timestamp_order() {
    assert!(now(5, 0).reached(&now(4, 999_999_999)));
    assert!(now(5, 1).reached(&now(5, 1)));
    assert!(!now(5, 1).reached(&now(5, 2)));
    assert!(!now(4, 999_999_999).reached(&now(5, 0)));
}
