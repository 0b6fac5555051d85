//! Whole runs of the engine: what holds of the frames that go out on the wire, whatever
//! events come in.

use crate::protocols::frames::{judged, page_pass, program_script, ExchangeView};
use crate::protocols::paging::page_count;
use crate::protocols::stk500v1::{
    in_flight, initial_view, script_len, transition, ActionView, EngineView, EventView, Phase, SYNC_ATTEMPTS,
};
use crate::util::starts_with;
use vstd::prelude::*;

verus! {

/// The place of a frame in the order of a run, by its command byte: sync 0, read
/// signature 1, set device 2, enter programming mode 3, the page traffic (load address,
/// program page, read page) 4, leave programming mode 5. Anything else is given 6.
pub open spec fn stage_of(command: Seq<u8>) -> nat {
    if command.len() == 0 {
        6
    } else if command[0] == 0x30u8 {
        0
    } else if command[0] == 0x75u8 {
        1
    } else if command[0] == 0x42u8 {
        2
    } else if command[0] == 0x50u8 {
        3
    } else if command[0] == 0x55u8 || command[0] == 0x64u8 || command[0] == 0x74u8 {
        4
    } else if command[0] == 0x51u8 {
        5
    } else {
        6
    }
}

/// No frame of a later stage stands before a frame of an earlier one.
pub open spec fn in_order(frames: Seq<Seq<u8>>) -> bool {
    forall|i: int, j: int|
        0 <= i < j < frames.len() ==> stage_of(#[trigger] frames[i]) <= stage_of(#[trigger] frames[j])
}

/// The frame that an action puts on the wire, if it puts one there.
pub open spec fn sent(action: ActionView) -> Seq<Seq<u8>> {
    match action {
        ActionView::Send { command, .. } => seq![command],
        _ => Seq::empty(),
    }
}

/// The frames that go out, in order, while the engine takes `events` one after the
/// other, starting in state `pre`.
pub open spec fn outbound(pre: EngineView, events: Seq<EventView>) -> Seq<Seq<u8>>
    decreases events.len(),
{
    if events.len() == 0 {
        Seq::empty()
    } else {
        let (post, action) = transition(pre, events[0]);
        sent(action) + outbound(post, events.skip(1))
    }
}

/// The state in which the engine is after it has taken `events`, starting in `pre`.
pub open spec fn state_after(pre: EngineView, events: Seq<EventView>) -> EngineView
    decreases events.len(),
{
    if events.len() == 0 {
        pre
    } else {
        state_after(transition(pre, events[0]).0, events.skip(1))
    }
}

/// The stage of each exchange of a script, by its position.
pub proof fn lemma_script_stages(signature: Seq<u8>, page_size: nat, image: Seq<u8>, verify: bool)
    ensures
        ({
            let script = program_script(signature, page_size, image, verify);
            let last = script.len() - 1;
            &&& script.len() == script_len(page_count(image.len(), page_size), verify)
            &&& stage_of(script[0].command) == 0
            &&& stage_of(script[1].command) == 1
            &&& stage_of(script[2].command) == 2
            &&& stage_of(script[3].command) == 3
            &&& forall|i: int| 4 <= i < last ==> stage_of(#[trigger] script[i].command) == 4
            &&& stage_of(script[last].command) == 5
        }),
{
}

/// The exchanges of a script stand in the order of their stages.
pub proof fn lemma_script_in_order(signature: Seq<u8>, page_size: nat, image: Seq<u8>, verify: bool)
    ensures
        forall|i: int, j: int|
            0 <= i <= j < program_script(signature, page_size, image, verify).len() ==> stage_of(
                #[trigger] program_script(signature, page_size, image, verify)[i].command,
            ) <= stage_of(#[trigger] program_script(signature, page_size, image, verify)[j].command),
{
    lemma_script_stages(signature, page_size, image, verify);
}

/// One step keeps the state well formed, changes neither the script nor what it was
/// made for, and never moves back in it. A frame that goes out is the command of the
/// exchange then in flight, byte for byte, and what is asked for in return is exactly as
/// many bytes as that exchange expects.
pub proof fn lemma_step_sends_pending(pre: EngineView, event: EventView)
    requires
        pre.wf(),
    ensures
        ({
            let (post, action) = transition(pre, event);
            &&& post.wf()
            &&& post.script == pre.script
            &&& post.pages == pre.pages
            &&& post.verify == pre.verify
            &&& post.cursor >= pre.cursor
            &&& action matches ActionView::Send { command, response_len, .. } ==> {
                &&& in_flight(post.phase)
                &&& command == post.script[post.cursor as int].command
                &&& response_len == post.script[post.cursor as int].expected.len()
            }
        }),
{
}

/// A response is judged by its first bytes alone, as many as were expected: what comes
/// after them changes neither the next state nor the next request.
pub proof fn lemma_response_judged_by_prefix(pre: EngineView, observed: Seq<u8>)
    requires
        pre.wf(),
        in_flight(pre.phase),
    ensures
        transition(pre, EventView::Response(observed)) == transition(
            pre,
            EventView::Response(judged(pre.script[pre.cursor as int].expected, observed)),
        ),
{
    let expected = pre.script[pre.cursor as int].expected;
    let seen = judged(expected, observed);
    if observed.len() > expected.len() {
        assert(seen.take(expected.len() as int) == observed.take(expected.len() as int));
    }
}

/// Once a run is done or has failed, nothing goes out any more.
pub proof fn lemma_silent_when_over(pre: EngineView, events: Seq<EventView>)
    requires
        pre.phase is Done || pre.phase is Failed,
    ensures
        outbound(pre, events) == Seq::<Seq<u8>>::empty(),
        state_after(pre, events) == pre,
    decreases events.len(),
{
    if events.len() > 0 {
        lemma_silent_when_over(pre, events.skip(1));
    }
}

/// The stage below which nothing goes out any more: that of the exchange in flight.
spec fn floor(state: EngineView) -> nat {
    if in_flight(state.phase) {
        stage_of(state.script[state.cursor as int].command)
    } else {
        0
    }
}

/// From any state of a run, the frames still to go out stand in order and none is of
/// an earlier stage than the exchange in flight.
proof fn lemma_outbound_from(
    pre: EngineView,
    events: Seq<EventView>,
    signature: Seq<u8>,
    page_size: nat,
    image: Seq<u8>,
)
    requires
        pre.wf(),
        pre.script == program_script(signature, page_size, image, pre.verify),
    ensures
        in_order(outbound(pre, events)),
        forall|i: int|
            0 <= i < outbound(pre, events).len() ==> stage_of(#[trigger] outbound(pre, events)[i]) >= floor(pre),
    decreases events.len(),
{
    if events.len() > 0 {
        let post = transition(pre, events[0]).0;
        lemma_step_sends_pending(pre, events[0]);
        lemma_script_in_order(signature, page_size, image, pre.verify);
        lemma_outbound_from(post, events.skip(1), signature, page_size, image);
        if post.phase is Done || post.phase is Failed {
            lemma_silent_when_over(post, events.skip(1));
        }
    }
}

/// On the wire, a run keeps to the order of the protocol, whatever the device answers
/// and however the run ends: every sync frame goes out before the signature is read, the
/// signature is read before the device is set, the device is set before programming mode
/// is entered, programming mode is entered before any address is loaded or page written
/// or read, and all of these go out before programming mode is left.
pub proof fn lemma_outbound_in_order(
    signature: Seq<u8>,
    page_size: nat,
    image: Seq<u8>,
    verify: bool,
    events: Seq<EventView>,
)
    ensures
        in_order(outbound(initial_view(signature, page_size, image, verify), events)),
{
    lemma_script_stages(signature, page_size, image, verify);
    lemma_outbound_from(initial_view(signature, page_size, image, verify), events, signature, page_size, image);
}

/// The place of a phase in the order of a run. `Failed` stands last: it can follow any
/// phase and nothing follows it.
pub open spec fn phase_rank(phase: Phase) -> nat {
    match phase {
        Phase::Idle => 0,
        Phase::Reset => 1,
        Phase::Syncing => 2,
        Phase::Identified => 3,
        Phase::Configured => 4,
        Phase::Programming => 5,
        Phase::Verifying => 6,
        Phase::Done => 7,
        Phase::Failed => 8,
    }
}

/// A run never moves back to an earlier phase, and never leaves `Done` or `Failed`.
pub proof fn lemma_phase_never_moves_back(pre: EngineView, event: EventView)
    requires
        pre.wf(),
    ensures
        phase_rank(transition(pre, event).0.phase) >= phase_rank(pre.phase),
        pre.phase is Done || pre.phase is Failed ==> transition(pre, event).0 == pre,
{
}

/// Only sync is ever sent again: where a step sends the frame of the exchange that was
/// in flight already, that exchange is sync, and one more of its attempts is used up.
pub proof fn lemma_only_sync_is_repeated(pre: EngineView, event: EventView)
    requires
        pre.wf(),
        in_flight(pre.phase),
    ensures
        ({
            let (post, action) = transition(pre, event);
            action is Send && post.cursor == pre.cursor ==> {
                &&& pre.cursor == 0
                &&& post.sync_attempts == pre.sync_attempts + 1
                &&& post.sync_attempts <= SYNC_ATTEMPTS
            }
        }),
{
}

/// One for a sync frame, nothing for any other.
pub open spec fn counts_as_sync(frame: Seq<u8>) -> nat {
    if stage_of(frame) == 0 {
        1
    } else {
        0
    }
}

/// The number of sync frames among `frames`.
pub open spec fn sync_frames(frames: Seq<Seq<u8>>) -> nat
    decreases frames.len(),
{
    if frames.len() == 0 {
        0
    } else {
        sync_frames(frames.drop_last()) + counts_as_sync(frames.last())
    }
}

/// The number of sync frames that a run in state `state` may still send.
spec fn syncs_left(state: EngineView) -> nat {
    if state.phase is Idle || state.phase is Reset {
        SYNC_ATTEMPTS as nat
    } else if in_flight(state.phase) && state.cursor == 0 {
        (SYNC_ATTEMPTS - state.sync_attempts) as nat
    } else {
        0
    }
}

/// Putting a frame in front of a list adds one to its sync frames if it is one.
proof fn lemma_sync_frames_front(first: Seq<u8>, rest: Seq<Seq<u8>>)
    ensures
        sync_frames(seq![first] + rest) == sync_frames(rest) + counts_as_sync(first),
    decreases rest.len(),
{
    let all = seq![first] + rest;
    if rest.len() == 0 {
        assert(sync_frames(all.drop_last()) == 0);
    } else {
        assert(all.drop_last() == seq![first] + rest.drop_last());
        lemma_sync_frames_front(first, rest.drop_last());
    }
}

/// From any state of a run, no more sync frames go out than the state has left.
proof fn lemma_syncs_from(
    pre: EngineView,
    events: Seq<EventView>,
    signature: Seq<u8>,
    page_size: nat,
    image: Seq<u8>,
)
    requires
        pre.wf(),
        pre.script == program_script(signature, page_size, image, pre.verify),
    ensures
        sync_frames(outbound(pre, events)) <= syncs_left(pre),
    decreases events.len(),
{
    if events.len() > 0 {
        let (post, action) = transition(pre, events[0]);
        let rest = outbound(post, events.skip(1));
        lemma_step_sends_pending(pre, events[0]);
        lemma_script_stages(signature, page_size, image, pre.verify);
        lemma_syncs_from(post, events.skip(1), signature, page_size, image);
        if let ActionView::Send { command, .. } = action {
            lemma_sync_frames_front(command, rest);
        }
    }
}

/// Whatever the device answers, a run sends the sync frame three times at most.
pub proof fn lemma_sync_sent_at_most_thrice(
    signature: Seq<u8>,
    page_size: nat,
    image: Seq<u8>,
    verify: bool,
    events: Seq<EventView>,
)
    ensures
        sync_frames(outbound(initial_view(signature, page_size, image, verify), events)) <= 3,
{
    lemma_script_stages(signature, page_size, image, verify);
    lemma_syncs_from(initial_view(signature, page_size, image, verify), events, signature, page_size, image);
}

/// A response that is not as expected, and that no retry is left for, ends the run at
/// once: the run has failed, and nothing goes out any more, whatever comes in later.
pub proof fn lemma_mismatch_ends_run(pre: EngineView, observed: Seq<u8>, later: Seq<EventView>)
    requires
        pre.wf(),
        in_flight(pre.phase),
        !starts_with(observed, pre.script[pre.cursor as int].expected),
        !pre.may_retry(),
    ensures
        outbound(pre, seq![EventView::Response(observed)] + later) == Seq::<Seq<u8>>::empty(),
        state_after(pre, seq![EventView::Response(observed)] + later).phase is Failed,
{
    let events = seq![EventView::Response(observed)] + later;
    let failed = transition(pre, events[0]).0;
    assert(events.skip(1) == later);
    lemma_silent_when_over(failed, later);
}

/// The frame is the command of one of the exchanges of `script`.
pub open spec fn from_script(script: Seq<ExchangeView>, frame: Seq<u8>) -> bool {
    exists|c: int| 0 <= c < script.len() && (#[trigger] script[c]).command == frame
}

/// Nothing goes out but commands of the script.
pub proof fn lemma_outbound_is_scripted(pre: EngineView, events: Seq<EventView>)
    requires
        pre.wf(),
    ensures
        forall|i: int|
            0 <= i < outbound(pre, events).len() ==> from_script(pre.script, #[trigger] outbound(pre, events)[i]),
    decreases events.len(),
{
    if events.len() > 0 {
        let (post, action) = transition(pre, events[0]);
        let rest = outbound(post, events.skip(1));
        let all = outbound(pre, events);
        lemma_step_sends_pending(pre, events[0]);
        lemma_outbound_is_scripted(post, events.skip(1));
        assert forall|i: int| 0 <= i < all.len() implies from_script(pre.script, #[trigger] all[i]) by {
            if action is Send {
                if i == 0 {
                    assert(pre.script[post.cursor as int].command == all[0]);
                } else {
                    assert(all[i] == rest[i - 1]);
                }
            } else {
                assert(all[i] == rest[i]);
            }
        }
    }
}

/// The frame asks for a page to be read back.
pub open spec fn reads_page(frame: Seq<u8>) -> bool {
    frame.len() > 0 && frame[0] == 0x74u8
}

/// A run that is not to verify never asks for a page to be read back.
pub proof fn lemma_no_read_back_without_verify(
    signature: Seq<u8>,
    page_size: nat,
    image: Seq<u8>,
    events: Seq<EventView>,
)
    ensures
        forall|i: int|
            0 <= i < outbound(initial_view(signature, page_size, image, false), events).len() ==> !reads_page(
                #[trigger] outbound(initial_view(signature, page_size, image, false), events)[i],
            ),
{
    let start = initial_view(signature, page_size, image, false);
    let frames = outbound(start, events);
    lemma_script_stages(signature, page_size, image, false);
    lemma_outbound_is_scripted(start, events);
    assert forall|i: int| 0 <= i < frames.len() implies !reads_page(#[trigger] frames[i]) by {
        let c = choose|c: int| 0 <= c < start.script.len() && (#[trigger] start.script[c]).command == frames[i];
        if 4 <= c < start.script.len() - 1 {
            assert(start.script[c] == page_pass(image, page_size, false)[c - 4]);
        }
    }
}

/// Each of `responses` begins with what the exchange at its place in `script`, counted
/// from position `from`, expects, and there is one response for each exchange from there
/// to the end.
pub open spec fn answers_from(script: Seq<ExchangeView>, responses: Seq<Seq<u8>>, from: int) -> bool {
    &&& responses.len() == script.len() - from
    &&& forall|i: int|
        0 <= i < responses.len() ==> starts_with(#[trigger] responses[i], script[from + i].expected)
}

/// The responses as the events that report them.
pub open spec fn as_events(responses: Seq<Seq<u8>>) -> Seq<EventView> {
    responses.map_values(|bytes: Seq<u8>| EventView::Response(bytes))
}

/// The commands of a script from position `from` to its end.
pub open spec fn commands_from(script: Seq<ExchangeView>, from: int) -> Seq<Seq<u8>> {
    script.subrange(from, script.len() as int).map_values(|exchange: ExchangeView| exchange.command)
}

/// With the exchange at the cursor in flight and every response as expected, the rest
/// of the script goes out frame by frame and the run ends in `Done`.
proof fn lemma_good_run_from(pre: EngineView, responses: Seq<Seq<u8>>)
    requires
        pre.wf(),
        in_flight(pre.phase),
        answers_from(pre.script, responses, pre.cursor as int),
    ensures
        outbound(pre, as_events(responses)) == commands_from(pre.script, pre.cursor as int + 1),
        state_after(pre, as_events(responses)).phase is Done,
    decreases responses.len(),
{
    let events = as_events(responses);
    let (post, action) = transition(pre, events[0]);
    lemma_step_sends_pending(pre, events[0]);
    assert(events.skip(1) == as_events(responses.skip(1)));
    if pre.cursor + 1 < pre.script.len() {
        lemma_good_run_from(post, responses.skip(1));
    } else {
        assert(outbound(post, events.skip(1)) == Seq::<Seq<u8>>::empty());
        assert(state_after(post, events.skip(1)) == post);
    }
}

/// A run in which the reset is carried out and every response is as expected sends the
/// whole script, frame by frame and nothing else, and ends in `Done`.
pub proof fn lemma_good_run_sends_script(
    signature: Seq<u8>,
    page_size: nat,
    image: Seq<u8>,
    verify: bool,
    responses: Seq<Seq<u8>>,
)
    requires
        answers_from(program_script(signature, page_size, image, verify), responses, 0),
    ensures
        ({
            let start = initial_view(signature, page_size, image, verify);
            let events = seq![EventView::Start, EventView::ResetDone] + as_events(responses);
            &&& outbound(start, events) == commands_from(start.script, 0)
            &&& state_after(start, events).phase is Done
        }),
{
    let start = initial_view(signature, page_size, image, verify);
    let events = seq![EventView::Start, EventView::ResetDone] + as_events(responses);
    lemma_script_stages(signature, page_size, image, verify);
    let (reset, _) = transition(start, EventView::Start);
    let (syncing, first) = transition(reset, EventView::ResetDone);
    lemma_step_sends_pending(start, EventView::Start);
    lemma_step_sends_pending(reset, EventView::ResetDone);
    assert(events.skip(1).skip(1) == as_events(responses));
    lemma_good_run_from(syncing, responses);
    assert(outbound(reset, events.skip(1)) == sent(first) + outbound(syncing, as_events(responses)));
    assert(state_after(reset, events.skip(1)) == state_after(syncing, as_events(responses)));
}

} // verus!
