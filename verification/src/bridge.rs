//! The bridge loop's verified pieces: the response envelope, its exact wire
//! line, the loop's state machine, and the bridge's final exit code.
//!
//! The loop itself lives in the unverified front end — it blocks on pipes —
//! but every decision it takes is a function here: what line answers a
//! command's result, how the loop state moves on each event, and which
//! status the bridge exits with once the peer is gone.

use vstd::prelude::*;
use crate::NONE_EXIT_CODE;
use crate::error::{message_chars, Error};
use crate::json::{json_chars, quoted, to_text, Json};

verus! {

/// The wire line that answers one command: `{"ok":<value>}` on success,
/// `{"err":"<message>"}` on a command-level failure. Exactly one envelope
/// answers every command; no command error ends the loop.
pub open spec fn response_chars(r: Result<Json, Error>) -> Seq<char> {
    match r {
        Ok(v) => seq!['{', '"', 'o', 'k', '"', ':'] + json_chars(v) + seq!['}'],
        Err(e) => seq!['{', '"', 'e', 'r', 'r', '"', ':'] + quoted(message_chars(e)) + seq!['}'],
    }
}

/// Wraps a command's result in its response envelope.
pub fn envelope(r: Result<Json, Error>) -> (v: Json)
    ensures
        json_chars(v) == response_chars(r),
{
    match r {
        Ok(value) => {
            let mut o: Vec<(String, Json)> = Vec::new();
            o.push((String::from_str("ok"), value));
            let v = Json::Obj(o);
            proof {
                reveal_strlit("ok");
                reveal_with_fuel(crate::json::esc_str, 4);
                let s = "ok"@;
                assert(s.len() == 2);
                assert(s.drop_last() =~= seq!['o']);
                assert(seq!['o'].drop_last() =~= Seq::<char>::empty());
                assert(crate::json::esc_char('o') =~= seq!['o']);
                assert(crate::json::esc_char('k') =~= seq!['k']);
                assert(crate::json::esc_str(s) =~= seq!['o', 'k']);
                assert(json_chars(v) =~= response_chars(r));
            }
            v
        },
        Err(e) => {
            let msg = e.message();
            let mut o: Vec<(String, Json)> = Vec::new();
            o.push((String::from_str("err"), Json::Str(msg)));
            let v = Json::Obj(o);
            proof {
                reveal_strlit("err");
                reveal_with_fuel(crate::json::esc_str, 5);
                let s = "err"@;
                assert(s.len() == 3);
                assert(s.drop_last() =~= seq!['e', 'r']);
                assert(seq!['e', 'r'].drop_last() =~= seq!['e']);
                assert(seq!['e'].drop_last() =~= Seq::<char>::empty());
                assert(crate::json::esc_char('e') =~= seq!['e']);
                assert(crate::json::esc_char('r') =~= seq!['r']);
                assert(crate::json::esc_str(s) =~= seq!['e', 'r', 'r']);
                assert(msg@ == message_chars(e));
                assert(json_chars(Json::Str(msg)) == quoted(msg@));
                assert(crate::json::obj_chars(o@) =~= quoted("err"@) + seq![':'] + json_chars(
                    Json::Str(msg),
                ));
                assert(json_chars(v) =~= response_chars(r));
            }
            v
        },
    }
}

/// Renders one response line (without its trailing newline).
pub fn encode_response(r: Result<Json, Error>) -> (line: String)
    ensures
        line@ == response_chars(r),
{
    let v = envelope(r);
    let line = to_text(&v);
    line
}

/// The bridge loop's state: reading commands, peer's stream closed, or
/// terminated with the bridge's final exit code.
#[derive(Clone, Copy, Debug, PartialEq, Eq, Structural)]
pub enum BridgeState {
    /// Blocked reading one line from the peer; each full line is answered
    /// with exactly one envelope.
    Running,
    /// The peer half-closed its output: stop reading, block on its exit.
    PeerClosed,
    /// The peer exited; the bridge exits with this same status.
    Terminated(i32),
}

/// An event the front end observes while running the loop.
#[derive(Clone, Copy, Debug, PartialEq, Eq, Structural)]
pub enum BridgeEvent {
    /// One full line was read, dispatched and answered.
    LineHandled,
    /// End of stream from the peer: a clean half-close.
    InputClosed,
    /// The peer process exited with this code, if the OS reports one.
    PeerExited(Option<i32>),
}

/// The bridge's own final exit status: the peer's code, or the reserved
/// sentinel when the peer was killed by a signal and has none.
pub fn final_exit_code(peer_code: Option<i32>) -> (r: i32)
    ensures
        peer_code matches Some(n) ==> r == n,
        peer_code is None ==> r == NONE_EXIT_CODE,
{
    match peer_code {
        Some(n) => n,
        None => NONE_EXIT_CODE,
    }
}

/// One transition of the bridge loop: lines keep it `Running`, a half-close
/// moves it to `PeerClosed`, and the peer's exit terminates it with the
/// mirrored status. Events that cannot occur in a state leave it unchanged.
pub fn bridge_step(s: BridgeState, e: BridgeEvent) -> (r: BridgeState)
    ensures
        s == BridgeState::Running && e == BridgeEvent::LineHandled ==> r == BridgeState::Running,
        s == BridgeState::Running && e == BridgeEvent::InputClosed ==> r
            == BridgeState::PeerClosed,
        s == BridgeState::PeerClosed && (e matches BridgeEvent::PeerExited(_)) ==> r
            == BridgeState::Terminated(
            match e->PeerExited_0 {
                Some(n) => n,
                None => NONE_EXIT_CODE,
            },
        ),
        s matches BridgeState::Terminated(_) ==> r == s,
    {
    match (s, e) {
        (BridgeState::Running, BridgeEvent::LineHandled) => BridgeState::Running,
        (BridgeState::Running, BridgeEvent::InputClosed) => BridgeState::PeerClosed,
        (BridgeState::PeerClosed, BridgeEvent::PeerExited(c)) => BridgeState::Terminated(
            final_exit_code(c),
        ),
        _ => s,
    }
}

} // verus!
