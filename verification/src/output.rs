//! Playback requests: the error type and the play session state machine.
//!
//! A play request spawns a fresh sink on the output stream, enqueues a
//! source a number of times at the caller's volume, then detaches the sink
//! so playback continues on its own. The device calls themselves are made by
//! an unverified shell; this module decides, step by step, what the shell
//! should do next and what the request's outcome is, and is verified for
//! every answer the backend can give.

use vstd::prelude::*;
use crate::source::DecoderError;

verus! {

/// Device or stream failure reported by the playback backend: the output
/// device is missing, unavailable, or was lost.
#[derive(Clone, Copy, Debug, PartialEq, Eq, Structural)]
pub struct PlayError;

/// Audio playback error.
#[derive(Clone, Copy, Debug, PartialEq, Eq, Structural)]
pub enum OutputError {
    /// A problem with decoding a source: its bytes could not be interpreted
    /// as audio.
    DecoderError(DecoderError),
    /// The backend failed to spawn a sink, or the output device was lost.
    PlayError(PlayError),
}

impl OutputError {
    /// A short, fixed description of the error, for display purposes.
    pub fn describe(&self) -> (s: &'static str)
        ensures
            s@ == "OutputError"@,
    {
        "OutputError"
    }
}

/// What the backend is asked to do next to carry a play request forward.
#[derive(Clone, Copy, Debug, PartialEq, Eq, Structural)]
pub enum PlayCommand {
    /// Spawn a fresh sink on the output stream.
    SpawnSink,
    /// Decode the source once and enqueue it on the sink.
    Enqueue,
    /// Conclude the request and report the outcome: on success the sink is
    /// detached so playback continues on its own; on failure it is released,
    /// which aborts whatever was already enqueued.
    Finish,
}

/// What the backend reports back after carrying out a command.
#[derive(Clone, Copy, Debug, PartialEq, Eq, Structural)]
pub enum PlayEvent {
    /// The sink was spawned.
    SinkSpawned,
    /// The sink could not be spawned: the output device is missing or lost.
    SinkFailed,
    /// The source was decoded and enqueued once.
    Enqueued,
    /// The source's bytes could not be decoded.
    DecodeFailed,
}

/// The phase a play request is in.
#[derive(Clone, Copy, Debug)]
pub enum PlayPhase {
    /// Waiting for the backend to spawn a sink; `repeats` enqueues follow.
    SpawningSink {
        /// How many times the source is to be enqueued.
        repeats: u16,
    },
    /// Waiting for the backend to enqueue the source `left` more times.
    Enqueuing {
        /// How many enqueues are still owed; always at least one.
        left: u16,
    },
    /// The request is decided.
    Finished {
        /// The request's outcome, as the result-returning play APIs report
        /// it.
        outcome: Result<(), OutputError>,
    },
}

/// A phase is well formed when an enqueuing phase still owes at least one
/// enqueue.
pub open spec fn phase_wf(p: PlayPhase) -> bool {
    p matches PlayPhase::Enqueuing { left } ==> left >= 1
}

/// The phase a fresh request for `n` repeats starts in.
pub open spec fn initial_phase(n: u16) -> PlayPhase {
    PlayPhase::SpawningSink { repeats: n }
}

/// The command the backend should carry out in phase `p`.
pub open spec fn command_of(p: PlayPhase) -> PlayCommand {
    match p {
        PlayPhase::SpawningSink { .. } => PlayCommand::SpawnSink,
        PlayPhase::Enqueuing { .. } => PlayCommand::Enqueue,
        PlayPhase::Finished { .. } => PlayCommand::Finish,
    }
}

/// Whether event `ev` is an answer the backend can give to the command of
/// phase `p`. A decided request takes no further events.
pub open spec fn event_fits(p: PlayPhase, ev: PlayEvent) -> bool {
    match p {
        PlayPhase::SpawningSink { .. } => {
            ev is SinkSpawned || ev is SinkFailed
        },
        PlayPhase::Enqueuing { .. } => {
            ev is Enqueued || ev is DecodeFailed
        },
        PlayPhase::Finished { .. } => false,
    }
}

/// The phase that follows `p` when the backend answers `ev`.
///
/// A failure to spawn the sink decides the request with the play error; a
/// decode failure decides it with the decoder error, and the remaining
/// repeats are abandoned. When the sink is spawned for zero repeats, or the
/// last owed enqueue succeeds, the request is decided with success. An event
/// that does not fit the phase leaves it unchanged.
pub open spec fn step_phase(p: PlayPhase, ev: PlayEvent) -> PlayPhase {
    match p {
        PlayPhase::SpawningSink { repeats } => {
            match ev {
                PlayEvent::SinkSpawned => {
                    if repeats == 0 {
                        PlayPhase::Finished { outcome: Ok(()) }
                    } else {
                        PlayPhase::Enqueuing { left: repeats }
                    }
                },
                PlayEvent::SinkFailed => {
                    PlayPhase::Finished { outcome: Err(OutputError::PlayError(PlayError)) }
                },
                _ => p,
            }
        },
        PlayPhase::Enqueuing { left } => {
            match ev {
                PlayEvent::Enqueued => {
                    if left <= 1 {
                        PlayPhase::Finished { outcome: Ok(()) }
                    } else {
                        PlayPhase::Enqueuing { left: (left - 1) as u16 }
                    }
                },
                PlayEvent::DecodeFailed => {
                    PlayPhase::Finished {
                        outcome: Err(OutputError::DecoderError(DecoderError)),
                    }
                },
                _ => p,
            }
        },
        PlayPhase::Finished { .. } => p,
    }
}

/// The phase reached from `p` after the backend answers with the events of
/// `evs`, in order.
pub open spec fn run_phase(p: PlayPhase, evs: Seq<PlayEvent>) -> PlayPhase
    decreases evs.len(),
{
    if evs.len() == 0 {
        p
    } else {
        run_phase(step_phase(p, evs[0]), evs.drop_first())
    }
}

/// A fire-and-forget playback request: spawn a sink, enqueue a source a
/// given number of times, detach. The unverified shell repeatedly asks
/// [`PlaySession::command`] what to do, performs the device call, and feeds
/// the answer back through [`PlaySession::step`].
pub struct PlaySession {
    phase: PlayPhase,
}

impl PlaySession {
    /// The phase this session is in.
    pub closed spec fn phase(self) -> PlayPhase {
        self.phase
    }

    /// A session is well formed when its phase is.
    pub open spec fn wf(self) -> bool {
        phase_wf(self.phase())
    }

    /// Begins a play request that enqueues the source `n` times.
    pub fn begin(n: u16) -> (s: PlaySession)
        ensures
            s.phase() == initial_phase(n),
            s.wf(),
    {
        PlaySession { phase: PlayPhase::SpawningSink { repeats: n } }
    }

    /// The command the backend should carry out next.
    pub fn command(&self) -> (c: PlayCommand)
        ensures
            c == command_of(self.phase()),
    {
        match self.phase {
            PlayPhase::SpawningSink { .. } => PlayCommand::SpawnSink,
            PlayPhase::Enqueuing { .. } => PlayCommand::Enqueue,
            PlayPhase::Finished { .. } => PlayCommand::Finish,
        }
    }

    /// Feeds the backend's answer to the pending command into the session.
    pub fn step(&mut self, ev: PlayEvent)
        requires
            old(self).wf(),
            event_fits(old(self).phase(), ev),
        ensures
            final(self).phase() == step_phase(old(self).phase(), ev),
            final(self).wf(),
    {
        let next: PlayPhase = match (self.phase, ev) {
            (PlayPhase::SpawningSink { repeats }, PlayEvent::SinkSpawned) => {
                if repeats == 0 {
                    PlayPhase::Finished { outcome: Ok(()) }
                } else {
                    PlayPhase::Enqueuing { left: repeats }
                }
            },
            (PlayPhase::SpawningSink { .. }, PlayEvent::SinkFailed) => {
                PlayPhase::Finished { outcome: Err(OutputError::PlayError(PlayError)) }
            },
            (PlayPhase::Enqueuing { left }, PlayEvent::Enqueued) => {
                if left <= 1 {
                    PlayPhase::Finished { outcome: Ok(()) }
                } else {
                    PlayPhase::Enqueuing { left: left - 1 }
                }
            },
            (PlayPhase::Enqueuing { .. }, PlayEvent::DecodeFailed) => {
                PlayPhase::Finished { outcome: Err(OutputError::DecoderError(DecoderError)) }
            },
            (p, _) => p,
        };
        self.phase = next;
    }

    /// The outcome, once the request is decided; `None` while the backend
    /// still owes an answer.
    pub fn outcome(&self) -> (r: Option<Result<(), OutputError>>)
        ensures
            match self.phase() {
                PlayPhase::Finished { outcome } => r == Some(outcome),
                _ => r is None,
            },
    {
        match self.phase {
            PlayPhase::Finished { outcome } => Some(outcome),
            _ => None,
        }
    }
}

/// Once the backend owes `left` enqueues and answers each one with success,
/// the request is decided with `Ok`.
proof fn lemma_enqueue_run_ok(left: u16)
    requires
        left >= 1,
    ensures
        run_phase(
            PlayPhase::Enqueuing { left },
            Seq::new(left as nat, |i: int| PlayEvent::Enqueued),
        ) == (PlayPhase::Finished { outcome: Ok::<(), OutputError>(()) }),
    decreases left,
{
    let evs = Seq::new(left as nat, |i: int| PlayEvent::Enqueued);
    let p = PlayPhase::Enqueuing { left };
    assert(evs[0] == PlayEvent::Enqueued);
    assert(run_phase(p, evs) == run_phase(step_phase(p, evs[0]), evs.drop_first()));
    if left == 1 {
        assert(step_phase(p, evs[0]) == (PlayPhase::Finished { outcome: Ok::<(), OutputError>(()) }));
        assert(evs.drop_first().len() == 0);
        assert(run_phase(step_phase(p, evs[0]), evs.drop_first()) == step_phase(p, evs[0]));
    } else {
        assert(step_phase(p, evs[0]) == (PlayPhase::Enqueuing { left: (left - 1) as u16 }));
        assert(evs.drop_first() =~= Seq::new((left - 1) as nat, |i: int| PlayEvent::Enqueued));
        lemma_enqueue_run_ok((left - 1) as u16);
    }
}

/// Law: a well-formed source plays to success: when the backend spawns the
/// sink and every one of the `n` enqueues succeeds, the request is decided
/// with `Ok`.
pub proof fn lemma_well_formed_source_plays(n: u16)
    ensures
        run_phase(
            initial_phase(n),
            seq![PlayEvent::SinkSpawned] + Seq::new(n as nat, |i: int| PlayEvent::Enqueued),
        ) == (PlayPhase::Finished { outcome: Ok::<(), OutputError>(()) }),
{
    let evs = seq![PlayEvent::SinkSpawned] + Seq::new(n as nat, |i: int| PlayEvent::Enqueued);
    let p = initial_phase(n);
    assert(evs[0] == PlayEvent::SinkSpawned);
    assert(run_phase(p, evs) == run_phase(step_phase(p, evs[0]), evs.drop_first()));
    assert(evs.drop_first() =~= Seq::new(n as nat, |i: int| PlayEvent::Enqueued));
    if n == 0 {
        assert(step_phase(p, evs[0]) == (PlayPhase::Finished { outcome: Ok::<(), OutputError>(()) }));
        assert(evs.drop_first().len() == 0);
        assert(run_phase(step_phase(p, evs[0]), evs.drop_first()) == step_phase(p, evs[0]));
    } else {
        assert(step_phase(p, evs[0]) == (PlayPhase::Enqueuing { left: n }));
        lemma_enqueue_run_ok(n);
    }
}

/// Law: a source whose bytes do not decode yields the decoder error: once
/// the backend spawns the sink for a request with at least one repeat, the
/// decode failure on the first enqueue decides the request with the decoder
/// error, and the remaining repeats are abandoned.
pub proof fn lemma_malformed_source_yields_decoder_error(n: u16)
    requires
        n >= 1,
    ensures
        run_phase(initial_phase(n), seq![PlayEvent::SinkSpawned, PlayEvent::DecodeFailed])
            == (PlayPhase::Finished {
                outcome: Err::<(), OutputError>(OutputError::DecoderError(DecoderError)),
            }),
{
    let evs = seq![PlayEvent::SinkSpawned, PlayEvent::DecodeFailed];
    let p = initial_phase(n);
    let p1 = step_phase(p, evs[0]);
    assert(evs[0] == PlayEvent::SinkSpawned);
    assert(p1 == (PlayPhase::Enqueuing { left: n }));
    assert(evs.drop_first() =~= seq![PlayEvent::DecodeFailed]);
    assert(run_phase(p, evs) == run_phase(p1, evs.drop_first()));
    let p2 = step_phase(p1, evs.drop_first()[0]);
    assert(p2 == (PlayPhase::Finished {
        outcome: Err::<(), OutputError>(OutputError::DecoderError(DecoderError)),
    }));
    assert(evs.drop_first().drop_first().len() == 0);
    assert(run_phase(p1, evs.drop_first()) == run_phase(p2, evs.drop_first().drop_first()));
    assert(run_phase(p2, evs.drop_first().drop_first()) == p2);
}

/// Law: a missing or lost output device yields the play error: when the
/// backend cannot spawn the sink, the request is decided with the play
/// error, whatever the repeat count.
pub proof fn lemma_sink_failure_yields_play_error(n: u16)
    ensures
        step_phase(initial_phase(n), PlayEvent::SinkFailed) == (PlayPhase::Finished {
            outcome: Err::<(), OutputError>(OutputError::PlayError(PlayError)),
        }),
{
}

/// Law: a request for zero repeats enqueues no playback and still succeeds
/// once the backend spawns the sink: the request is decided with `Ok` at
/// once, and no phase of its run ever commands an enqueue.
pub proof fn lemma_zero_repeats_succeeds()
    ensures
        step_phase(initial_phase(0), PlayEvent::SinkSpawned) == (PlayPhase::Finished {
            outcome: Ok::<(), OutputError>(()),
        }),
        command_of(initial_phase(0)) == PlayCommand::SpawnSink,
        command_of(step_phase(initial_phase(0), PlayEvent::SinkSpawned)) == PlayCommand::Finish,
{
}

/// The display name an output binds to its device: the name the backend
/// reported, or a fixed fallback when the name query failed.
pub fn device_label(queried: Option<String>) -> (r: String)
    ensures
        match queried {
            Some(name) => r == name,
            None => r@ == "Unknown device"@,
        },
{
    match queried {
        Some(name) => name,
        None => "Unknown device".to_owned(),
    }
}

/// The decision of the silent play APIs: an error is logged rather than
/// returned, so the shell asks whether the outcome is worth a log line.
pub fn should_log(r: &Result<(), OutputError>) -> (b: bool)
    ensures
        b <==> r is Err,
{
    r.is_err()
}

} // verus!
