//! Proved protocol laws: what holds of every engine step, not just of the
//! concrete inputs the tests exercise.

use vstd::prelude::*;

use crate::engine::Cmd;
use crate::engine::ProtocolState;
use crate::engine::ack_commands;
use crate::engine::ack_trigger;
use crate::engine::banner_commands;
use crate::engine::banner_trigger;
use crate::engine::buffer_after_step;
use crate::engine::fires_ack;
use crate::engine::fires_banner;
use crate::engine::fires_prompt;
use crate::engine::is_terminal;
use crate::engine::prompt_commands;
use crate::engine::prompt_trigger;
use crate::engine::step_commands;
use crate::engine::step_state;
use crate::search::has_substring;
use crate::search::lemma_empty_hay_has_no_substring;

verus! {

/// No trigger fires on an empty buffer: a step that receives no new bytes
/// after a clear issues no commands and leaves the buffer empty.
pub proof fn lemma_empty_buffer_fires_nothing(payload: Seq<u8>)
    ensures
        !fires_banner(Seq::<u8>::empty()),
        !fires_prompt(Seq::<u8>::empty()),
        !fires_ack(Seq::<u8>::empty()),
        step_commands(Seq::<u8>::empty(), payload) == Seq::<Cmd>::empty(),
        buffer_after_step(Seq::<u8>::empty()) == Seq::<u8>::empty(),
{
    lemma_empty_hay_has_no_substring(Seq::<u8>::empty(), banner_trigger());
    lemma_empty_hay_has_no_substring(Seq::<u8>::empty(), prompt_trigger());
    lemma_empty_hay_has_no_substring(Seq::<u8>::empty(), ack_trigger());
    assert(step_commands(Seq::<u8>::empty(), payload) =~= Seq::<Cmd>::empty());
}

/// Once any trigger fires, the buffer is empty immediately after the step,
/// and a further step on that cleared buffer (with no new bytes) fires no
/// trigger: no trigger acts twice on the same accumulated text.
pub proof fn lemma_trigger_clearing(b: Seq<u8>, payload: Seq<u8>)
    ensures
        (fires_banner(b) || fires_prompt(b) || fires_ack(b)) ==> {
            &&& buffer_after_step(b) == Seq::<u8>::empty()
            &&& step_commands(buffer_after_step(b), payload) == Seq::<Cmd>::empty()
            &&& buffer_after_step(buffer_after_step(b)) == buffer_after_step(b)
        },
{
    lemma_empty_hay_has_no_substring(Seq::<u8>::empty(), prompt_trigger());
    lemma_empty_hay_has_no_substring(Seq::<u8>::empty(), ack_trigger());
    lemma_empty_buffer_fires_nothing(payload);
}

/// The evaluation order of the triggers within one step. A trigger that
/// fires clears the buffer, and no trigger's text is empty, so later
/// triggers in the same step see an empty buffer and cannot fire: even when
/// one chunk brings several trigger texts at once, exactly the first
/// trigger in priority order acts, and it alone decides the next state.
pub proof fn lemma_priority_order(s: ProtocolState, b: Seq<u8>, payload: Seq<u8>)
    ensures
        fires_banner(b) ==> {
            &&& !fires_prompt(b)
            &&& !fires_ack(b)
            &&& step_commands(b, payload) == banner_commands()
            &&& step_state(s, b) == ProtocolState::AutobootInterruptSent
        },
        !fires_banner(b) && fires_prompt(b) ==> {
            &&& !fires_ack(b)
            &&& step_commands(b, payload) == prompt_commands(payload)
            &&& step_state(s, b) == ProtocolState::PayloadSent
        },
        !fires_banner(b) && !fires_prompt(b) && fires_ack(b) ==> {
            &&& step_commands(b, payload) == ack_commands()
            &&& step_state(s, b) == ProtocolState::Completed
        },
        !fires_banner(b) && !fires_prompt(b) && !fires_ack(b) ==> {
            &&& step_commands(b, payload) == Seq::<Cmd>::empty()
            &&& buffer_after_step(b) == b
            &&& step_state(s, b) == s
        },
{
    lemma_empty_hay_has_no_substring(Seq::<u8>::empty(), prompt_trigger());
    lemma_empty_hay_has_no_substring(Seq::<u8>::empty(), ack_trigger());
    if fires_banner(b) {
        assert(step_commands(b, payload) =~= banner_commands());
    } else if fires_prompt(b) {
        assert(step_commands(b, payload) =~= prompt_commands(payload));
    } else if fires_ack(b) {
        assert(step_commands(b, payload) =~= ack_commands());
    } else {
        assert(step_commands(b, payload) =~= Seq::<Cmd>::empty());
    }
}

/// When the upload prompt fires, the step's commands hold exactly one
/// write, it is the second command, and its bytes are the payload,
/// byte for byte.
pub proof fn lemma_payload_fidelity(b: Seq<u8>, payload: Seq<u8>)
    requires
        fires_prompt(b),
    ensures
        step_commands(b, payload) == prompt_commands(payload),
        step_commands(b, payload)[1] == (Cmd::Write { bytes: payload }),
        forall|i: int|
            0 <= i < step_commands(b, payload).len() && step_commands(b, payload)[i] is Write
                ==> i == 1,
{
    lemma_empty_hay_has_no_substring(Seq::<u8>::empty(), prompt_trigger());
    lemma_empty_hay_has_no_substring(Seq::<u8>::empty(), ack_trigger());
    assert(!fires_banner(b));
    assert(step_commands(b, payload) =~= prompt_commands(payload));
}

/// The delays around each write: the abort byte `'a'` comes only after a
/// 250 ms pause, the upload-select byte `'u'` after a further 250 ms; the
/// payload write is preceded by 200 ms and followed by 1000 ms; the execute
/// byte `'e'` is preceded by 200 ms.
pub proof fn lemma_command_timing(payload: Seq<u8>)
    ensures
        banner_commands().len() == 4,
        banner_commands()[0] == (Cmd::Sleep { ms: 250 }),
        banner_commands()[1] == (Cmd::Write { bytes: seq![97u8] }),
        banner_commands()[2] == (Cmd::Sleep { ms: 250 }),
        banner_commands()[3] == (Cmd::Write { bytes: seq![117u8] }),
        prompt_commands(payload).len() == 3,
        prompt_commands(payload)[0] == (Cmd::Sleep { ms: 200 }),
        prompt_commands(payload)[1] == (Cmd::Write { bytes: payload }),
        prompt_commands(payload)[2] == (Cmd::Sleep { ms: 1000 }),
        ack_commands().len() == 2,
        ack_commands()[0] == (Cmd::Sleep { ms: 200 }),
        ack_commands()[1] == (Cmd::Write { bytes: seq![101u8] }),
{
}

/// A transport that delivers, across three successive reads, a chunk with
/// the banner, then one with the upload prompt, then one with the
/// acknowledgement, drives any non-terminal starting state to `Completed`,
/// issuing the banner commands, the payload commands, and the execute
/// commands, in that order and nothing else.
pub proof fn lemma_terminal_reachability(
    s0: ProtocolState,
    c1: Seq<u8>,
    c2: Seq<u8>,
    c3: Seq<u8>,
    payload: Seq<u8>,
)
    requires
        !is_terminal(s0),
        has_substring(c1, banner_trigger()),
        !has_substring(c2, banner_trigger()),
        has_substring(c2, prompt_trigger()),
        !has_substring(c3, banner_trigger()),
        !has_substring(c3, prompt_trigger()),
        has_substring(c3, ack_trigger()),
    ensures
        ({
            let b1 = Seq::<u8>::empty() + c1;
            let s1 = step_state(s0, b1);
            let b2 = buffer_after_step(b1) + c2;
            let s2 = step_state(s1, b2);
            let b3 = buffer_after_step(b2) + c3;
            let s3 = step_state(s2, b3);
            &&& step_commands(b1, payload) == banner_commands()
            &&& s1 == ProtocolState::AutobootInterruptSent
            &&& step_commands(b2, payload) == prompt_commands(payload)
            &&& s2 == ProtocolState::PayloadSent
            &&& step_commands(b3, payload) == ack_commands()
            &&& s3 == ProtocolState::Completed
            &&& is_terminal(s3)
        }),
{
    let b1 = Seq::<u8>::empty() + c1;
    assert(b1 =~= c1);
    lemma_priority_order(s0, b1, payload);
    let s1 = step_state(s0, b1);
    let b2 = buffer_after_step(b1) + c2;
    assert(b2 =~= c2);
    lemma_priority_order(s1, b2, payload);
    let s2 = step_state(s1, b2);
    let b3 = buffer_after_step(b2) + c3;
    assert(b3 =~= c3);
    lemma_priority_order(s2, b3, payload);
}

} // verus!
