//! The bootloader-handshake protocol engine.
//!
//! A [`Session`] owns the mutable state of one upload attempt: the current
//! [`ProtocolState`], the accumulated receive buffer, and the firmware
//! payload. The embedding program performs the transport work (open, read,
//! write, sleep) and feeds each read chunk to [`Session::on_chunk`], which
//! evaluates the three protocol triggers against the buffer and returns the
//! exact sequence of [`Command`]s (delays and writes) the program must
//! perform, in order. Read and write failures are reported back through
//! [`Session::read_failed`] and [`Session::write_failed`].
//!
//! The triggers are ASCII literals, so the buffer accumulates raw bytes and
//! trigger detection is byte-substring search: a trigger that spans two read
//! chunks is still found, and bytes that are not valid text cannot derail
//! the loop.

use vstd::prelude::*;

use crate::search::has_substring;
use crate::search::find_substring;

verus! {

/// Symbol rate the transport must be opened with.
pub const SYMBOL_RATE: u32 = 19200;

/// Per-read timeout, in milliseconds.
pub const READ_TIMEOUT_MS: u64 = 10000;

/// Upper bound on the bytes requested by one transport read.
pub const READ_CHUNK_LEN: usize = 100;

/// Why an upload attempt failed. Every failure is terminal for the attempt;
/// the caller decides whether to start a whole new attempt.
#[derive(Clone, Copy, Debug, PartialEq, Eq, Structural)]
pub enum FailureReason {
    /// The payload source could not be read (or was empty) before the
    /// transport was opened; no transport side effects occurred.
    PayloadUnavailable,
    /// The transport could not be opened; no reads or writes occurred.
    TransportOpenError,
    /// A transport read failed or timed out.
    ReadError,
    /// A transport write (command byte or payload) failed.
    WriteError,
}

/// The state of the handshake, as observed by the embedding program.
///
/// Triggers are evaluated against the receive buffer alone, so the engine
/// itself moves only through `AwaitingBanner`, `AutobootInterruptSent`,
/// `PayloadSent`, `Completed` and `Failed`; the two remaining states name
/// the phases between those transitions for callers that track progress.
#[derive(Clone, Copy, Debug, PartialEq, Eq, Structural)]
pub enum ProtocolState {
    /// Initial state: waiting for the bootloader banner.
    AwaitingBanner,
    /// The auto-boot abort and upload-select bytes have been issued.
    AutobootInterruptSent,
    /// Waiting for the bootloader's upload prompt.
    AwaitingUploadPrompt,
    /// The firmware payload has been issued.
    PayloadSent,
    /// Waiting for the bootloader's acknowledgement.
    AwaitingAcknowledgement,
    /// The acknowledgement arrived and the execute byte was issued: success.
    Completed,
    /// The attempt ended with the recorded failure.
    Failed { reason: FailureReason },
}

/// The outcome of one upload attempt. `Completed` is the only success.
#[derive(Clone, Copy, Debug, PartialEq, Eq, Structural)]
pub enum SessionResult {
    Completed,
    Failed { reason: FailureReason },
}

/// One transport action the embedding program must perform.
#[derive(Debug, PartialEq, Eq)]
pub enum Command {
    /// Pause for `ms` milliseconds before the next command.
    Sleep { ms: u64 },
    /// Write `bytes` to the transport in one write operation.
    Write { bytes: Vec<u8> },
}

/// Mathematical model of a [`Command`].
pub enum Cmd {
    Sleep { ms: int },
    Write { bytes: Seq<u8> },
}

impl View for Command {
    type V = Cmd;

    open spec fn view(&self) -> Cmd {
        match self {
            Command::Sleep { ms } => Cmd::Sleep { ms: *ms as int },
            Command::Write { bytes } => Cmd::Write { bytes: bytes@ },
        }
    }
}

/// The models of a sequence of commands.
pub open spec fn cmds_view(cs: Seq<Command>) -> Seq<Cmd> {
    cs.map_values(|c: Command| c@)
}

/// The banner trigger: the bytes of `"Auto-boot"`.
pub open spec fn banner_trigger() -> Seq<u8> {
    seq![65u8, 117u8, 116u8, 111u8, 45u8, 98u8, 111u8, 111u8, 116u8]
}

/// The upload-prompt trigger: the bytes of `"Awaiting neorv32_exe.bin"`.
pub open spec fn prompt_trigger() -> Seq<u8> {
    seq![
        65u8, 119u8, 97u8, 105u8, 116u8, 105u8, 110u8, 103u8, 32u8, 110u8,
        101u8, 111u8, 114u8, 118u8, 51u8, 50u8, 95u8, 101u8, 120u8, 101u8,
        46u8, 98u8, 105u8, 110u8,
    ]
}

/// The acknowledgement trigger: the bytes of `"OK"`.
pub open spec fn ack_trigger() -> Seq<u8> {
    seq![79u8, 75u8]
}

/// The banner trigger as an executable byte vector.
pub fn banner_trigger_bytes() -> (r: Vec<u8>)
    ensures
        r@ == banner_trigger(),
{
    let mut v: Vec<u8> = Vec::new();
    v.push(65u8);
    v.push(117u8);
    v.push(116u8);
    v.push(111u8);
    v.push(45u8);
    v.push(98u8);
    v.push(111u8);
    v.push(111u8);
    v.push(116u8);
    proof {
        assert(v@ =~= banner_trigger());
    }
    v
}

/// The upload-prompt trigger as an executable byte vector.
pub fn prompt_trigger_bytes() -> (r: Vec<u8>)
    ensures
        r@ == prompt_trigger(),
{
    let mut v: Vec<u8> = Vec::new();
    v.push(65u8);
    v.push(119u8);
    v.push(97u8);
    v.push(105u8);
    v.push(116u8);
    v.push(105u8);
    v.push(110u8);
    v.push(103u8);
    v.push(32u8);
    v.push(110u8);
    v.push(101u8);
    v.push(111u8);
    v.push(114u8);
    v.push(118u8);
    v.push(51u8);
    v.push(50u8);
    v.push(95u8);
    v.push(101u8);
    v.push(120u8);
    v.push(101u8);
    v.push(46u8);
    v.push(98u8);
    v.push(105u8);
    v.push(110u8);
    proof {
        assert(v@ =~= prompt_trigger());
    }
    v
}

/// The acknowledgement trigger as an executable byte vector.
pub fn ack_trigger_bytes() -> (r: Vec<u8>)
    ensures
        r@ == ack_trigger(),
{
    let mut v: Vec<u8> = Vec::new();
    v.push(79u8);
    v.push(75u8);
    proof {
        assert(v@ =~= ack_trigger());
    }
    v
}

/// The banner trigger fires: the combined buffer holds `"Auto-boot"`.
pub open spec fn fires_banner(b: Seq<u8>) -> bool {
    has_substring(b, banner_trigger())
}

/// The buffer after the banner trigger was evaluated (and, if it fired,
/// cleared).
pub open spec fn buffer_after_banner(b: Seq<u8>) -> Seq<u8> {
    if fires_banner(b) {
        Seq::empty()
    } else {
        b
    }
}

/// The upload-prompt trigger fires: the buffer left by the banner check
/// holds `"Awaiting neorv32_exe.bin"`.
pub open spec fn fires_prompt(b: Seq<u8>) -> bool {
    has_substring(buffer_after_banner(b), prompt_trigger())
}

/// The buffer after the upload-prompt trigger was evaluated.
pub open spec fn buffer_after_prompt(b: Seq<u8>) -> Seq<u8> {
    if fires_prompt(b) {
        Seq::empty()
    } else {
        buffer_after_banner(b)
    }
}

/// The acknowledgement trigger fires: the buffer left by the two earlier
/// checks holds `"OK"`.
pub open spec fn fires_ack(b: Seq<u8>) -> bool {
    has_substring(buffer_after_prompt(b), ack_trigger())
}

/// The buffer after all three triggers were evaluated in priority order.
pub open spec fn buffer_after_step(b: Seq<u8>) -> Seq<u8> {
    if fires_ack(b) {
        Seq::empty()
    } else {
        buffer_after_prompt(b)
    }
}

/// The commands of the banner action: pause, abort auto-boot (`'a'`),
/// pause, select upload mode (`'u'`).
pub open spec fn banner_commands() -> Seq<Cmd> {
    seq![
        Cmd::Sleep { ms: 250 },
        Cmd::Write { bytes: seq![97u8] },
        Cmd::Sleep { ms: 250 },
        Cmd::Write { bytes: seq![117u8] },
    ]
}

/// The commands of the upload-prompt action: pause, write the whole payload
/// in one write, pause.
pub open spec fn prompt_commands(payload: Seq<u8>) -> Seq<Cmd> {
    seq![
        Cmd::Sleep { ms: 200 },
        Cmd::Write { bytes: payload },
        Cmd::Sleep { ms: 1000 },
    ]
}

/// The commands of the acknowledgement action: pause, execute (`'e'`).
pub open spec fn ack_commands() -> Seq<Cmd> {
    seq![Cmd::Sleep { ms: 200 }, Cmd::Write { bytes: seq![101u8] }]
}

/// All commands of one engine step on combined buffer `b`: the actions of
/// the triggers that fire, in priority order.
pub open spec fn step_commands(b: Seq<u8>, payload: Seq<u8>) -> Seq<Cmd> {
    (if fires_banner(b) {
        banner_commands()
    } else {
        Seq::empty()
    }) + (if fires_prompt(b) {
        prompt_commands(payload)
    } else {
        Seq::empty()
    }) + (if fires_ack(b) {
        ack_commands()
    } else {
        Seq::empty()
    })
}

/// The protocol state after one engine step on combined buffer `b`: each
/// trigger that fires moves the state, in priority order, so the last fired
/// trigger decides.
pub open spec fn step_state(s: ProtocolState, b: Seq<u8>) -> ProtocolState {
    if fires_ack(b) {
        ProtocolState::Completed
    } else if fires_prompt(b) {
        ProtocolState::PayloadSent
    } else if fires_banner(b) {
        ProtocolState::AutobootInterruptSent
    } else {
        s
    }
}

/// A state from which the session takes no further step.
pub open spec fn is_terminal(s: ProtocolState) -> bool {
    s is Completed || s is Failed
}

/// Copy a byte vector.
fn copy_bytes(v: &Vec<u8>) -> (r: Vec<u8>)
    ensures
        r@ == v@,
{
    let mut r: Vec<u8> = Vec::new();
    let n = v.len();
    let mut k: usize = 0;
    while k < n
        invariant
            n == v@.len(),
            0 <= k <= n,
            r@ == v@.subrange(0, k as int),
        decreases n - k,
    {
        r.push(v[k]);
        proof {
            assert(r@ =~= v@.subrange(0, k + 1));
        }
        k += 1;
    }
    proof {
        assert(r@ =~= v@);
    }
    r
}

/// The mutable state of one upload attempt.
pub struct Session {
    /// The current protocol state.
    pub state: ProtocolState,
    /// Bytes received since the last trigger fired.
    pub buffer: Vec<u8>,
    /// The firmware image to write when the bootloader prompts for it.
    pub payload: Vec<u8>,
}

impl Session {
    /// A session is well formed when its payload is non-empty; `new`
    /// establishes this and every step preserves it.
    pub open spec fn wf(&self) -> bool {
        self.payload@.len() > 0
    }

    /// The session has reached a terminal state.
    pub open spec fn done(&self) -> bool {
        is_terminal(self.state)
    }

    /// Start one upload attempt from a fully materialized payload.
    /// `None` means the payload source could not be read; an empty payload
    /// is rejected the same way. Only on a non-empty payload does the
    /// attempt begin — the caller must not touch the transport otherwise.
    pub fn new(payload: Option<Vec<u8>>) -> (r: Result<Session, FailureReason>)
        ensures
            match r {
                Ok(s) => {
                    &&& payload matches Some(p) && p@.len() > 0 && s.payload@ == p@
                    &&& s.state == ProtocolState::AwaitingBanner
                    &&& s.buffer@ == Seq::<u8>::empty()
                    &&& s.wf()
                    &&& !s.done()
                },
                Err(reason) => {
                    &&& reason == FailureReason::PayloadUnavailable
                    &&& (payload matches Some(p) ==> p@.len() == 0)
                },
            },
    {
        match payload {
            Some(p) => {
                if p.len() == 0 {
                    Err(FailureReason::PayloadUnavailable)
                } else {
                    Ok(Session {
                        state: ProtocolState::AwaitingBanner,
                        buffer: Vec::new(),
                        payload: p,
                    })
                }
            },
            None => Err(FailureReason::PayloadUnavailable),
        }
    }

    /// Feed one read chunk to the engine. The chunk is appended to the
    /// receive buffer, the three triggers are evaluated in priority order —
    /// each one that fires clears the buffer before the next is checked —
    /// and the transport commands of the fired actions are returned, in the
    /// order the caller must perform them.
    pub fn on_chunk(&mut self, chunk: &[u8]) -> (cmds: Vec<Command>)
        requires
            !old(self).done(),
        ensures
            final(self).payload@ == old(self).payload@,
            final(self).buffer@ == buffer_after_step(old(self).buffer@ + chunk@),
            final(self).state == step_state(old(self).state, old(self).buffer@ + chunk@),
            cmds_view(cmds@) == step_commands(old(self).buffer@ + chunk@, old(self).payload@),
    {
        let ghost b = old(self).buffer@ + chunk@;
        let n = chunk.len();
        let mut k: usize = 0;
        while k < n
            invariant
                n == chunk@.len(),
                0 <= k <= n,
                self.buffer@ == old(self).buffer@ + chunk@.subrange(0, k as int),
                self.state == old(self).state,
                self.payload@ == old(self).payload@,
            decreases n - k,
        {
            self.buffer.push(chunk[k]);
            proof {
                assert(self.buffer@ =~= old(self).buffer@ + chunk@.subrange(0, k + 1));
            }
            k += 1;
        }
        proof {
            assert(self.buffer@ =~= b);
        }

        let mut cmds: Vec<Command> = Vec::new();

        let banner = banner_trigger_bytes();
        if find_substring(self.buffer.as_slice(), banner.as_slice()) {
            self.buffer.clear();
            cmds.push(Command::Sleep { ms: 250 });
            cmds.push(Command::Write { bytes: one_byte(97) });
            cmds.push(Command::Sleep { ms: 250 });
            cmds.push(Command::Write { bytes: one_byte(117) });
            self.state = ProtocolState::AutobootInterruptSent;
            proof {
                assert(cmds_view(cmds@) =~= banner_commands());
            }
        }
        proof {
            assert(self.buffer@ == buffer_after_banner(b));
            if !fires_banner(b) {
                assert(cmds_view(cmds@) =~= Seq::<Cmd>::empty());
            }
        }
        let ghost cmds1 = cmds_view(cmds@);

        let prompt = prompt_trigger_bytes();
        if find_substring(self.buffer.as_slice(), prompt.as_slice()) {
            self.buffer.clear();
            cmds.push(Command::Sleep { ms: 200 });
            cmds.push(Command::Write { bytes: copy_bytes(&self.payload) });
            cmds.push(Command::Sleep { ms: 1000 });
            self.state = ProtocolState::PayloadSent;
            proof {
                assert(cmds_view(cmds@) =~= cmds1 + prompt_commands(old(self).payload@));
            }
        }
        proof {
            assert(self.buffer@ == buffer_after_prompt(b));
            if !fires_prompt(b) {
                assert(cmds_view(cmds@) =~= cmds1 + Seq::<Cmd>::empty());
            }
        }
        let ghost cmds2 = cmds_view(cmds@);

        let ack = ack_trigger_bytes();
        if find_substring(self.buffer.as_slice(), ack.as_slice()) {
            self.buffer.clear();
            cmds.push(Command::Sleep { ms: 200 });
            cmds.push(Command::Write { bytes: one_byte(101) });
            self.state = ProtocolState::Completed;
            proof {
                assert(cmds_view(cmds@) =~= cmds2 + ack_commands());
            }
        }
        proof {
            assert(self.buffer@ == buffer_after_step(b));
            if !fires_ack(b) {
                assert(cmds_view(cmds@) =~= cmds2 + Seq::<Cmd>::empty());
            }
            assert(cmds_view(cmds@) =~= step_commands(b, old(self).payload@));
        }
        cmds
    }

    /// Record that a transport read failed or timed out. The attempt is
    /// over; the caller must release the transport and stop reading.
    pub fn read_failed(&mut self)
        requires
            !old(self).done(),
        ensures
            final(self).state == (ProtocolState::Failed { reason: FailureReason::ReadError }),
            final(self).buffer@ == old(self).buffer@,
            final(self).payload@ == old(self).payload@,
            final(self).done(),
    {
        self.state = ProtocolState::Failed { reason: FailureReason::ReadError };
    }

    /// Record that a transport write failed. Any write failure aborts the
    /// attempt, even one after the acknowledgement: the execute byte never
    /// reached the device, so the attempt did not succeed.
    pub fn write_failed(&mut self)
        ensures
            final(self).state == (ProtocolState::Failed { reason: FailureReason::WriteError }),
            final(self).buffer@ == old(self).buffer@,
            final(self).payload@ == old(self).payload@,
            final(self).done(),
    {
        self.state = ProtocolState::Failed { reason: FailureReason::WriteError };
    }

    /// Record that the transport could not be opened. No read or write ever
    /// happened.
    pub fn open_failed(&mut self)
        requires
            !old(self).done(),
        ensures
            final(self).state == (ProtocolState::Failed {
                reason: FailureReason::TransportOpenError,
            }),
            final(self).buffer@ == old(self).buffer@,
            final(self).payload@ == old(self).payload@,
            final(self).done(),
    {
        self.state = ProtocolState::Failed { reason: FailureReason::TransportOpenError };
    }

    /// The session has reached a terminal state; the caller's loop stops
    /// (and the transport is released) exactly when this returns true.
    pub fn is_done(&self) -> (r: bool)
        ensures
            r == self.done(),
    {
        match self.state {
            ProtocolState::Completed => true,
            ProtocolState::Failed { .. } => true,
            _ => false,
        }
    }

    /// The terminal outcome of the attempt.
    pub fn result(&self) -> (r: SessionResult)
        requires
            self.done(),
        ensures
            self.state is Completed ==> r == SessionResult::Completed,
            forall|reason: FailureReason|
                self.state == (ProtocolState::Failed { reason }) ==> r == (SessionResult::Failed {
                    reason,
                }),
    {
        match self.state {
            ProtocolState::Failed { reason } => SessionResult::Failed { reason },
            _ => SessionResult::Completed,
        }
    }
}

/// A vector holding the single byte `b`.
fn one_byte(b: u8) -> (r: Vec<u8>)
    ensures
        r@ == seq![b],
{
    let mut v: Vec<u8> = Vec::new();
    v.push(b);
    proof {
        assert(v@ =~= seq![b]);
    }
    v
}

} // verus!
