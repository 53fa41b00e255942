use wapo::connect::{connect_vm, vm_address, ConnectEvent, ConnectState};
use wapo::http::Status;

fn refusal<const N: usize>(state: ConnectState<N>) -> (Status, String) {
    match state {
        ConnectState::Refused { failure } => (failure.status, failure.message),
        _ => panic!("the request is not refused"),
    }
}

fn first(path: Option<&str>) -> ConnectState<4> {
    connect_vm::<4>(vec![1, 2, 3, 4], path.map(|p| p.to_string()))
}

#[test]
fn addresses_have_a_length() {
    assert_eq!(vm_address::<3>(&vec![7, 8, 9]), Some([7, 8, 9]));
    assert_eq!(vm_address::<3>(&vec![7, 8]), None);
    assert_eq!(vm_address::<3>(&vec![7, 8, 9, 10]), None);
    assert_eq!(vm_address::<0>(&vec![]), Some([]));
    assert_eq!(vm_address::<32>(&vec![5; 32]), Some([5; 32]));
}

#[test]
fn status_codes() {
    assert_eq!(Status::BadRequest.code(), 400);
    assert_eq!(Status::NotFound.code(), 404);
    assert_eq!(Status::InternalServerError.code(), 500);
}

#[test]
fn wrong_address_is_refused_first() {
    let state = connect_vm::<32>(vec![1; 31], None);
    let state = state.step(ConnectEvent::QueryPrepared(Err("no".to_string())));
    assert_eq!(refusal(state), (Status::BadRequest, "invalid address".to_string()));
}

#[test]
fn missing_instance_is_not_found() {
    let state = first(None).step(ConnectEvent::QueryPrepared(Err("no such instance".to_string())));
    assert_eq!(refusal(state), (Status::NotFound, "no such instance".to_string()));
}

#[test]
fn missing_channel_is_not_found() {
    let state = first(None).step(ConnectEvent::QueryPrepared(Ok(())));
    let state = state.step(ConnectEvent::SenderLookedUp(false));
    assert_eq!(refusal(state), (Status::NotFound, "".to_string()));
}

#[test]
fn unreadable_path_is_refused() {
    let state = first(None).step(ConnectEvent::QueryPrepared(Ok(())));
    let state = state.step(ConnectEvent::SenderLookedUp(true));
    assert_eq!(refusal(state), (Status::BadRequest, "invalid path".to_string()));
}

#[test]
fn broken_connection_is_an_error() {
    let state = first(Some("x")).step(ConnectEvent::QueryPrepared(Ok(())));
    let state = state.step(ConnectEvent::SenderLookedUp(true));
    let state = state.step(ConnectEvent::Connected(Err("closed".to_string())));
    assert_eq!(refusal(state), (Status::InternalServerError, "closed".to_string()));
}

#[test]
fn request_is_passed_on() {
    let state = first(Some("a/b"));
    match &state {
        ConnectState::PrepareQuery { address, slot, .. } => {
            assert_eq!(*address, [1, 2, 3, 4]);
            assert_eq!(*slot, 0);
        }
        _ => panic!("no query is prepared"),
    }
    let state = state.step(ConnectEvent::QueryPrepared(Ok(())));
    match &state {
        ConnectState::FindSender { address, slot, .. } => {
            assert_eq!(*address, [1, 2, 3, 4]);
            assert_eq!(*slot, 0);
        }
        _ => panic!("no channel is looked up"),
    }
    let state = state.step(ConnectEvent::SenderLookedUp(true));
    match &state {
        ConnectState::Connect { target } => assert_eq!(target, "a/b"),
        _ => panic!("the request is not passed on"),
    }
    assert!(matches!(state.step(ConnectEvent::Connected(Ok(()))), ConnectState::Answered));
}

#[test]
fn end_of_a_request_is_final() {
    let state = connect_vm::<2>(vec![], None).step(ConnectEvent::Connected(Ok(())));
    assert_eq!(refusal(state), (Status::BadRequest, "invalid address".to_string()));
    let state = first(Some("")).step(ConnectEvent::Connected(Ok(())));
    assert!(matches!(state, ConnectState::PrepareQuery { .. }));
}
