//! The interactive loop's state machine.
//!
//! The controller owns no I/O. It is stepped with the current reading of
//! the cancellation flag and with the event that answers its last
//! directive, and it returns the next directive for the shell — poll the
//! readiness set, read one line, perform one round trip, or stop — along
//! with the lines to show the user. The shell performs exactly what the
//! directive says and hands the outcome back; requests and responses are
//! therefore strictly sequential, a second round trip never starting
//! before the first one's reply has been stepped through the controller.

use vstd::prelude::*;
use crate::codec::TransportError;
use crate::poller::PollOutcome;

verus! {

/// How the session ends.
#[derive(Clone, Copy, Debug, PartialEq, Eq, Structural)]
pub enum SessionEnd {
    /// Shutdown on cancellation or end of input: the process exits
    /// successfully.
    Clean,
    /// The peer was not listening when the session began: the session
    /// fails at once, before anything is shown.
    ConnectFailed,
    /// A round trip failed: the session ends with a diagnostic and a
    /// failure status.
    Transport(TransportError),
}

/// What the shell must do next.
#[derive(Debug, PartialEq, Eq)]
pub enum Directive {
    /// Run one bounded readiness poll over the watch set.
    Poll,
    /// Read one line from standard input, up to end of stream.
    ReadLine,
    /// Perform one blocking round trip with exactly this text.
    Send(String),
    /// The session is over; release the connection and exit as stated.
    Stop(SessionEnd),
}

/// The answer to the controller's last directive.
#[derive(Debug)]
pub enum LoopEvent {
    /// The poll's classified outcome.
    Polled(PollOutcome),
    /// The line read, with its trailing separator; `None` at end of
    /// stream.
    Line(Option<String>),
    /// What the round trip produced.
    Reply(Result<String, TransportError>),
}

/// One line of user-visible output, in the order emitted.
#[derive(Debug, PartialEq, Eq)]
pub enum Emit {
    /// The one-time banner telling the user how to quit.
    Banner,
    /// The prompt, shown once at the start and once per completed
    /// request/response cycle — never on an idle timeout.
    Prompt,
    /// Echo of the request about to be sent.
    Sending(String),
    /// The response received from the peer.
    Received(String),
    /// The farewell shown on clean shutdown.
    Farewell,
}

/// Where the loop stands: what its last directive was, hence which event
/// it awaits.
#[derive(Clone, Copy, Debug, PartialEq, Eq, Structural)]
pub enum Phase {
    /// A poll outcome is awaited.
    AwaitPoll,
    /// Standard input is ready; a line is awaited.
    AwaitLine,
    /// A request is on the wire; the reply is awaited.
    AwaitReply,
    /// The session is over; nothing more is awaited.
    Finished,
}

/// True when the event is of the kind that answers the given phase.
pub open spec fn event_answers(phase: Phase, ev: LoopEvent) -> bool {
    match (phase, ev) {
        (Phase::AwaitPoll, LoopEvent::Polled(_)) => true,
        (Phase::AwaitLine, LoopEvent::Line(_)) => true,
        (Phase::AwaitReply, LoopEvent::Reply(_)) => true,
        _ => false,
    }
}

/// The loop's whole transition relation: from the phase before the step,
/// the flag reading and the event, it fixes the phase after the step, the
/// directive and the emitted output.
///
/// A timeout, a spurious event, or an interruption from an unrelated
/// signal (the flag still reads running) loops straight back to polling,
/// emitting nothing — in particular no prompt. An interruption with the
/// flag stopped, a timeout with the flag stopped, or end of input shuts
/// down cleanly with the farewell. A ready descriptor leads to reading a
/// line; a line is echoed and sent; a successful reply is shown and the
/// prompt reappears exactly once before polling resumes; a failed round
/// trip ends the session with that error.
pub open spec fn step_post(
    pre: Phase,
    running: bool,
    ev: LoopEvent,
    post: Phase,
    dir: Directive,
    emits: Seq<Emit>,
) -> bool {
    match (pre, ev) {
        (Phase::AwaitPoll, LoopEvent::Polled(outcome)) => match outcome {
            PollOutcome::Ready => {
                &&& post == Phase::AwaitLine
                &&& dir == Directive::ReadLine
                &&& emits =~= Seq::<Emit>::empty()
            },
            _ => {
                if running {
                    &&& post == Phase::AwaitPoll
                    &&& dir == Directive::Poll
                    &&& emits =~= Seq::<Emit>::empty()
                } else {
                    &&& post == Phase::Finished
                    &&& dir == Directive::Stop(SessionEnd::Clean)
                    &&& emits =~= seq![Emit::Farewell]
                }
            },
        },
        (Phase::AwaitLine, LoopEvent::Line(line)) => match line {
            Some(text) => {
                &&& post == Phase::AwaitReply
                &&& (dir matches Directive::Send(m) && m@ == text@)
                &&& emits.len() == 1
                &&& (emits[0] matches Emit::Sending(t) && t@ == text@)
            },
            None => {
                &&& post == Phase::Finished
                &&& dir == Directive::Stop(SessionEnd::Clean)
                &&& emits =~= seq![Emit::Farewell]
            },
        },
        (Phase::AwaitReply, LoopEvent::Reply(reply)) => match reply {
            Ok(text) => {
                if running {
                    &&& post == Phase::AwaitPoll
                    &&& dir == Directive::Poll
                    &&& emits.len() == 2
                    &&& (emits[0] matches Emit::Received(t) && t@ == text@)
                    &&& emits[1] == Emit::Prompt
                } else {
                    &&& post == Phase::Finished
                    &&& dir == Directive::Stop(SessionEnd::Clean)
                    &&& emits.len() == 3
                    &&& (emits[0] matches Emit::Received(t) && t@ == text@)
                    &&& emits[1] == Emit::Prompt
                    &&& emits[2] == Emit::Farewell
                }
            },
            Err(e) => {
                &&& post == Phase::Finished
                &&& dir == Directive::Stop(SessionEnd::Transport(e))
                &&& emits =~= Seq::<Emit>::empty()
            },
        },
        _ => false,
    }
}

/// Requests are strictly sequential: a send directive arises only from
/// the line just read, while a reply is awaited no step asks for another
/// line or another send, and what is sent is the read line verbatim. The
/// loop therefore never has a second request on the wire before the
/// first round trip completes.
pub proof fn lemma_sends_are_serialized(
    pre: Phase,
    running: bool,
    ev: LoopEvent,
    post: Phase,
    dir: Directive,
    emits: Seq<Emit>,
)
    requires
        step_post(pre, running, ev, post, dir, emits),
        dir is Send,
    ensures
        pre == Phase::AwaitLine,
        post == Phase::AwaitReply,
        ev matches LoopEvent::Line(line) && line matches Some(text) && dir->Send_0@ == text@,
{
}

/// The interactive loop's controller: it carries the phase and nothing
/// else — the watch set is rebuilt fresh for every poll, so no
/// registration state lives across iterations.
pub struct Controller {
    phase: Phase,
}

impl Controller {
    pub closed spec fn phase_spec(&self) -> Phase {
        self.phase
    }

    /// The start of a session, given whether the connection to the peer
    /// was established and the flag's current reading.
    ///
    /// Without a connection the session fails at once: nothing is
    /// emitted — no banner, no prompt — and the directive is to stop with
    /// a connection error. With a connection, the banner and the first
    /// prompt appear and polling begins, unless cancellation was already
    /// observed, in which case the session shuts down cleanly right away.
    pub fn start(connected: bool, running: bool) -> (r: (Controller, Directive, Vec<Emit>))
        ensures
            !connected ==> {
                &&& r.0.phase_spec() == Phase::Finished
                &&& r.1 == Directive::Stop(SessionEnd::ConnectFailed)
                &&& r.2@ =~= Seq::<Emit>::empty()
            },
            connected && running ==> {
                &&& r.0.phase_spec() == Phase::AwaitPoll
                &&& r.1 == Directive::Poll
                &&& r.2@ =~= seq![Emit::Banner, Emit::Prompt]
            },
            connected && !running ==> {
                &&& r.0.phase_spec() == Phase::Finished
                &&& r.1 == Directive::Stop(SessionEnd::Clean)
                &&& r.2@ =~= seq![Emit::Banner, Emit::Prompt, Emit::Farewell]
            },
    {
        if !connected {
            (
                Controller { phase: Phase::Finished },
                Directive::Stop(SessionEnd::ConnectFailed),
                Vec::new(),
            )
        } else {
            let mut emits: Vec<Emit> = Vec::new();
            emits.push(Emit::Banner);
            emits.push(Emit::Prompt);
            if running {
                (Controller { phase: Phase::AwaitPoll }, Directive::Poll, emits)
            } else {
                emits.push(Emit::Farewell);
                (Controller { phase: Phase::Finished }, Directive::Stop(SessionEnd::Clean), emits)
            }
        }
    }

    /// One step of the loop: consumes the event that answers the last
    /// directive, together with the flag's current reading, and returns
    /// the next directive and the output to show.
    pub fn step(&mut self, running: bool, ev: LoopEvent) -> (r: (Directive, Vec<Emit>))
        requires
            old(self).phase_spec() != Phase::Finished,
            event_answers(old(self).phase_spec(), ev),
        ensures
            step_post(old(self).phase_spec(), running, ev, final(self).phase_spec(), r.0, r.1@),
    {
        match ev {
            LoopEvent::Polled(outcome) => match outcome {
                PollOutcome::Ready => {
                    self.phase = Phase::AwaitLine;
                    (Directive::ReadLine, Vec::new())
                },
                _ => {
                    if running {
                        self.phase = Phase::AwaitPoll;
                        (Directive::Poll, Vec::new())
                    } else {
                        self.phase = Phase::Finished;
                        let mut emits: Vec<Emit> = Vec::new();
                        emits.push(Emit::Farewell);
                        (Directive::Stop(SessionEnd::Clean), emits)
                    }
                },
            },
            LoopEvent::Line(line) => match line {
                Some(text) => {
                    self.phase = Phase::AwaitReply;
                    let echoed = text.clone();
                    let mut emits: Vec<Emit> = Vec::new();
                    emits.push(Emit::Sending(echoed));
                    (Directive::Send(text), emits)
                },
                None => {
                    self.phase = Phase::Finished;
                    let mut emits: Vec<Emit> = Vec::new();
                    emits.push(Emit::Farewell);
                    (Directive::Stop(SessionEnd::Clean), emits)
                },
            },
            LoopEvent::Reply(reply) => match reply {
                Ok(text) => {
                    let mut emits: Vec<Emit> = Vec::new();
                    emits.push(Emit::Received(text));
                    emits.push(Emit::Prompt);
                    if running {
                        self.phase = Phase::AwaitPoll;
                        (Directive::Poll, emits)
                    } else {
                        self.phase = Phase::Finished;
                        emits.push(Emit::Farewell);
                        (Directive::Stop(SessionEnd::Clean), emits)
                    }
                },
                Err(e) => {
                    self.phase = Phase::Finished;
                    (Directive::Stop(SessionEnd::Transport(e)), Vec::new())
                },
            },
        }
    }
}

} // verus!
