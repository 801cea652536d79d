//! The embedding surface exercised end to end, sequentially: the program
//! side drives a context owned by a hub, the console side speaks through a
//! connector.

use qni_core::api::{
    ConsoleMessage, ConsoleResponse, InputKind, InputValue, ProgramCommand, ProgramMessage,
    ProgramRequest, ProgramResponse,
};
use qni_core::connector::ConnectorContext;
use qni_core::console::{ConsoleContext, PollStatus, QniWaitResult, WaitError};
use qni_core::hub::Hub;

fn int_request() -> ProgramRequest {
    ProgramRequest::new(InputKind::Int, None)
}

#[test]
fn api_simple_test() {
    let mut ctx = ConsoleContext::new();
    ctx.append_command(ProgramCommand::PrintLine("Hello, world!".to_string()));
    ctx.append_command(ProgramCommand::PrintLine("Hello, world!".to_string()));
    ctx.set_exit();

    assert!(ctx.need_exit());
    assert_eq!(2, ctx.get_command_count());
}

#[test]
fn api_exit_test() {
    let mut ctx = ConsoleContext::new();
    let tag = ctx.begin_wait(int_request());

    ctx.set_exit();

    let polled = ctx.poll_wait_now(tag, None);
    assert_eq!(polled, PollStatus::Finished(Err(WaitError::Exited)));
    assert_eq!(
        QniWaitResult::from_wait(&Err(WaitError::Exited)),
        QniWaitResult::Exited
    );
}

#[test]
fn api_wait_test() {
    let mut hub = Hub::new();
    let id = hub.new_context();
    let mut connector = ConnectorContext::new(id);

    let tag = hub.context_mut(id).begin_wait(int_request());
    assert_eq!(tag, 0);

    let expected = ProgramMessage::Req(ProgramRequest {
        tag: 0,
        input: InputKind::Int,
        expire: None,
    });
    assert_eq!(connector.try_get_msg(&hub), Some(expected));

    let msg = ConsoleMessage::Res(ConsoleResponse {
        tag: 0,
        payload: InputValue::Int(100),
    });
    assert_eq!(connector.on_recv_message(&mut hub, msg), None);

    let polled = hub.context_mut(id).poll_wait_now(tag, None);
    match polled {
        PollStatus::Finished(Ok(res)) => {
            assert_eq!(res.tag, 0);
            assert_eq!(res.payload, InputValue::Int(100));
        }
        other => panic!("wait did not finish with the response: {:?}", other),
    }

    assert_eq!(0, hub.context_ref(id).get_command_count());
    assert_eq!(
        connector.try_get_msg(&hub),
        Some(ProgramMessage::AcceptRes(0))
    );
}

#[test]
fn test_api_simple_test() {
    let mut hub = Hub::new();
    let id = hub.new_context();

    hub.context_mut(id)
        .append_command(ProgramCommand::PrintLine("Hello, world!".to_string()));
    hub.context_mut(id)
        .append_command(ProgramCommand::PrintLine("Hello, world!".to_string()));
    hub.context_mut(id).set_exit();

    assert!(hub.context_ref(id).need_exit());
    assert_eq!(2, hub.context_ref(id).get_command_count());
}

#[test]
fn test_api_wait_test() {
    let mut hub = Hub::new();
    let id = hub.new_context();
    let mut connector = ConnectorContext::new(id);

    let tag = hub.context_mut(id).begin_wait(int_request());

    let expected = ProgramMessage::Req(ProgramRequest {
        tag: 0,
        input: InputKind::Int,
        expire: None,
    });
    assert_eq!(connector.try_get_msg(&hub), Some(expected));

    // The request stays published while the wait is pending and is not
    // re-dispatched.
    assert_eq!(connector.try_get_msg(&hub), None);

    let msg = ConsoleMessage::Res(ConsoleResponse {
        tag: 0,
        payload: InputValue::Int(100),
    });
    assert_eq!(connector.on_recv_message(&mut hub, msg), None);

    let polled = hub.context_mut(id).poll_wait_now(tag, None);
    assert!(matches!(polled, PollStatus::Finished(Ok(_))));

    assert_eq!(0, hub.context_ref(id).get_command_count());
    assert_eq!(
        connector.try_get_msg(&hub),
        Some(ProgramMessage::AcceptRes(0))
    );
    // The acknowledgement is sent once.
    assert_eq!(connector.try_get_msg(&hub), None);
}

#[test]
fn wait_result_codes() {
    assert_eq!(QniWaitResult::Success.code(), 0);
    assert_eq!(QniWaitResult::Exited.code(), 1);
    assert_eq!(QniWaitResult::Timeout.code(), 2);
    assert_eq!(QniWaitResult::OutDated.code(), 3);
    assert_eq!(QniWaitResult::Internal.code(), -1);

    let ok: Result<ConsoleResponse, WaitError> = Ok(ConsoleResponse {
        tag: 7,
        payload: InputValue::Str("x".to_string()),
    });
    assert_eq!(QniWaitResult::from_wait(&ok), QniWaitResult::Success);
    assert_eq!(
        QniWaitResult::from_wait(&Err(WaitError::Timeout)),
        QniWaitResult::Timeout
    );
    assert_eq!(
        QniWaitResult::from_wait(&Err(WaitError::Outdated)),
        QniWaitResult::OutDated
    );
}

#[test]
fn connector_streams_log_tail_first() {
    let mut hub = Hub::new();
    let id = hub.new_context();
    let mut connector = ConnectorContext::new(id);

    hub.context_mut(id)
        .append_command(ProgramCommand::Print("a".to_string()));
    hub.context_mut(id)
        .append_command(ProgramCommand::NewLine);

    match connector.try_get_msg(&hub) {
        Some(ProgramMessage::Res(ProgramResponse::OkGetState(chunk))) => {
            assert_eq!(
                chunk,
                vec![
                    ProgramCommand::Print("a".to_string()),
                    ProgramCommand::NewLine
                ]
            );
        }
        other => panic!("expected the log tail: {:?}", other),
    }

    // The cursor advanced: nothing further until new commands arrive.
    assert_eq!(connector.try_get_msg(&hub), None);

    hub.context_mut(id)
        .append_command(ProgramCommand::DeleteLine(1));
    match connector.try_get_msg(&hub) {
        Some(ProgramMessage::Res(ProgramResponse::OkGetState(chunk))) => {
            assert_eq!(chunk, vec![ProgramCommand::DeleteLine(1)]);
        }
        other => panic!("expected the new tail: {:?}", other),
    }
}

#[test]
fn connector_need_exit_tracks_context_and_hub() {
    let mut hub = Hub::new();
    let id = hub.new_context();
    let connector = ConnectorContext::new(id);

    assert!(!connector.need_exit(&hub));
    hub.context_mut(id).set_exit();
    assert!(connector.need_exit(&hub));

    let id2 = hub.new_context();
    let connector2 = ConnectorContext::new(id2);
    assert!(!connector2.need_exit(&hub));
    hub.set_exit();
    assert!(connector2.need_exit(&hub));
}
