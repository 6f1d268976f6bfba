use vstd::prelude::*;
use crate::frame::ShellDataFrame;
use crate::frame::diagnostic_command;
use crate::frame::build_msg;
use crate::frame::visible_payload;
use crate::frame::DEVICE_SHELL;
use crate::frame::FLAG_RESPOND;
use crate::frame::FLAG_EXCLUSIVE;
use crate::frame::FLAG_MULTI;

verus! {

/// The relay loop's two states, strictly alternating: waiting for one line
/// of console input, or waiting for the reply to the frame just sent.
#[derive(Clone, Copy, Debug, PartialEq, Eq, Structural)]
pub enum RelayState {
    AwaitingInput,
    AwaitingReply,
}

/// One thing the outside world hands the relay: a line read from the local
/// console, or an inbound protocol message — a shell data frame, or `None`
/// for a message of any other type, whose content is discarded.
pub enum RelayEvent {
    Line(String),
    Inbound(Option<ShellDataFrame>),
}

/// What the relay asks its driver to do after one step: transmit a frame,
/// display bytes on the local console, or nothing.
pub enum RelayAction {
    Transmit(ShellDataFrame),
    Display(Vec<u8>),
    Stay,
}

/// The state after consuming one event. A console line moves the relay from
/// awaiting input to awaiting the reply; any inbound message moves it back;
/// an event that does not belong to the current state changes nothing.
pub open spec fn step_state(s: RelayState, e: RelayEvent) -> RelayState {
    match (s, e) {
        (RelayState::AwaitingInput, RelayEvent::Line(_)) => RelayState::AwaitingReply,
        (RelayState::AwaitingReply, RelayEvent::Inbound(_)) => RelayState::AwaitingInput,
        (_, _) => s,
    }
}

/// Whether consuming this event in this state transmits an outbound frame.
pub open spec fn step_sends(s: RelayState, e: RelayEvent) -> bool {
    s is AwaitingInput && e is Line
}

/// Whether this step consumes an inbound message as the awaited reply.
pub open spec fn step_consumes_inbound(s: RelayState, e: RelayEvent) -> bool {
    s is AwaitingReply && e is Inbound
}

/// One step of the relay loop. A console line is answered by transmitting
/// one shell request frame; a reply frame by displaying exactly its first
/// `count` payload bytes; an inbound message of any other type is discarded
/// and the relay simply returns to awaiting input.
pub fn relay_step(s: RelayState, e: RelayEvent) -> (r: (RelayState, RelayAction))
    requires
        e matches RelayEvent::Inbound(Some(f)) ==> f.wf(),
    ensures
        r.0 == step_state(s, e),
        (r.1 is Transmit) == step_sends(s, e),
        step_sends(s, e) ==> (r.1 matches RelayAction::Transmit(f) && {
            &&& f.wf()
            &&& f.visible() == diagnostic_command()
            &&& f.data@ == diagnostic_command()
            &&& f.count == 8u8
            &&& f.baudrate == 0u32
            &&& f.timeout == 0u16
            &&& f.device == DEVICE_SHELL
            &&& f.flags == (FLAG_RESPOND | FLAG_EXCLUSIVE | FLAG_MULTI)
        }),
        s is AwaitingReply ==> (e matches RelayEvent::Inbound(Some(f))
            ==> r.1 matches RelayAction::Display(b) && b@ == f.visible()),
        s is AwaitingReply ==> (e matches RelayEvent::Inbound(None)
            ==> r.1 is Stay),
        !(step_sends(s, e) || step_consumes_inbound(s, e)) ==> r.1 is Stay,
{
    match (s, e) {
        (RelayState::AwaitingInput, RelayEvent::Line(line)) => {
            let frame = build_msg(line);
            (RelayState::AwaitingReply, RelayAction::Transmit(frame))
        },
        (RelayState::AwaitingReply, RelayEvent::Inbound(Some(f))) => {
            let shown = visible_payload(&f);
            (RelayState::AwaitingInput, RelayAction::Display(shown))
        },
        (RelayState::AwaitingReply, RelayEvent::Inbound(None)) => {
            (RelayState::AwaitingInput, RelayAction::Stay)
        },
        (_, _) => (s, RelayAction::Stay),
    }
}

/// The state after consuming a whole sequence of events, one by one.
pub open spec fn run_state(s0: RelayState, es: Seq<RelayEvent>) -> RelayState
    decreases es.len(),
{
    if es.len() == 0 {
        s0
    } else {
        step_state(run_state(s0, es.drop_last()), es.last())
    }
}

/// Unfolds `run_state` by one step at the end of a prefix.
proof fn lemma_run_state_snoc(s0: RelayState, es: Seq<RelayEvent>, n: int)
    requires
        0 < n <= es.len(),
    ensures
        run_state(s0, es.take(n)) == step_state(run_state(s0, es.take(n - 1)), es[n - 1]),
{
    let pre = es.take(n);
    assert(pre.drop_last() =~= es.take(n - 1));
    assert(pre.last() == es[n - 1]);
}

/// While the relay awaits a reply, the only way back to awaiting input is a
/// step that consumes an inbound message: between a position where it awaits
/// a reply and a later one where it awaits input, some step consumed one.
proof fn lemma_reply_resolved_by_inbound(s0: RelayState, es: Seq<RelayEvent>, m: int, n: int)
    requires
        0 <= m < n <= es.len(),
        run_state(s0, es.take(m)) is AwaitingReply,
        run_state(s0, es.take(n)) is AwaitingInput,
    ensures
        exists|k: int|
            m <= k < n && step_consumes_inbound(run_state(s0, es.take(k)), es[k]),
    decreases n - m,
{
    lemma_run_state_snoc(s0, es, n);
    let before = run_state(s0, es.take(n - 1));
    if before is AwaitingReply {
        assert(step_consumes_inbound(before, es[n - 1]));
    } else {
        lemma_reply_resolved_by_inbound(s0, es, m, n - 1);
    }
}

/// The relay alternates strictly: between any two steps that each transmit
/// an outbound frame, some step in between consumed an inbound message as
/// the awaited reply.
pub proof fn lemma_strict_alternation(s0: RelayState, es: Seq<RelayEvent>, i: int, j: int)
    requires
        0 <= i < j < es.len(),
        step_sends(run_state(s0, es.take(i)), es[i]),
        step_sends(run_state(s0, es.take(j)), es[j]),
    ensures
        exists|k: int|
            i < k < j && step_consumes_inbound(run_state(s0, es.take(k)), es[k]),
{
    lemma_run_state_snoc(s0, es, i + 1);
    assert(run_state(s0, es.take(i + 1)) is AwaitingReply);
    assert(run_state(s0, es.take(j)) is AwaitingInput);
    lemma_reply_resolved_by_inbound(s0, es, i + 1, j);
}

} // verus!
