use jq_bridge::bridge::{
    bridge_step, encode_response, final_exit_code, BridgeEvent, BridgeState,
};
use jq_bridge::error::Error;
use jq_bridge::json::Json;
use jq_bridge::NONE_EXIT_CODE;

#[test]
fn ok_envelope_lines() {
    assert_eq!(encode_response(Ok(Json::Null)), "{\"ok\":null}");
    assert_eq!(encode_response(Ok(Json::Arr(vec![]))), "{\"ok\":[]}");
    assert_eq!(
        encode_response(Ok(Json::Str(String::from("done")))),
        "{\"ok\":\"done\"}"
    );
}

#[test]
fn err_envelope_lines() {
    assert_eq!(
        encode_response(Err(Error::InvalidProcessorId(5))),
        "{\"err\":\"invalid processor id: 5\"}"
    );
    assert_eq!(
        encode_response(Err(Error::IoError(String::from("denied")))),
        "{\"err\":\"denied\"}"
    );
}

#[test]
fn final_code_mirrors_the_peer() {
    assert_eq!(final_exit_code(Some(7)), 7);
    assert_eq!(final_exit_code(Some(0)), 0);
    assert_eq!(final_exit_code(None), NONE_EXIT_CODE);
}

#[test]
fn loop_transitions() {
    let s = BridgeState::Running;
    let s = bridge_step(s, BridgeEvent::LineHandled);
    assert_eq!(s, BridgeState::Running);
    let s = bridge_step(s, BridgeEvent::InputClosed);
    assert_eq!(s, BridgeState::PeerClosed);
    let s = bridge_step(s, BridgeEvent::PeerExited(Some(7)));
    assert_eq!(s, BridgeState::Terminated(7));
    let s = bridge_step(s, BridgeEvent::LineHandled);
    assert_eq!(s, BridgeState::Terminated(7));
}

#[test]
fn signal_killed_peer_gets_sentinel() {
    let s = bridge_step(BridgeState::PeerClosed, BridgeEvent::PeerExited(None));
    assert_eq!(s, BridgeState::Terminated(250));
}
