//! The configuration exchange of the single-point radar as a state machine:
//! enable configuration, send the command, read its response, disable
//! configuration. The caller performs each action on the port and reports
//! the outcome back; configuration mode, once entered, is always left.

use vstd::prelude::*;
use crate::catalog::{Ld2410CCommand, Ld2410CFrame};
use crate::frame::{append_bytes, frame_bytes, MAX_BODY_LEN};

verus! {

/// Where an exchange stands.
#[derive(Debug, Clone, Copy, PartialEq, Eq, Structural)]
pub enum Phase {
    SendEnable,
    AwaitEnableAck,
    SendCommand,
    AwaitResponse,
    SendDisable,
    AwaitDisableAck,
    Finished,
}

/// What the port did with the last action.
pub enum Event {
    /// The frame was written.
    Written,
    /// Bytes were read.
    Received(Vec<u8>),
    /// The write or read failed, or timed out.
    Failed,
}

/// What the caller must do next.
pub enum Action {
    /// Write these bytes to the port.
    Write(Vec<u8>),
    /// Read one response from the port.
    Read,
    /// The exchange is over: the command's response, or the failure.
    Done(Result<Vec<u8>, ExchangeError>),
}

#[derive(Debug, Clone, Copy, PartialEq, Eq, Structural)]
pub enum ExchangeError {
    /// A write or read of the exchange failed.
    Io,
}

/// Configuration mode may be held: the enable frame was written and the
/// disable frame not yet.
pub open spec fn holds_configuration(p: Phase) -> bool {
    p == Phase::AwaitEnableAck || p == Phase::SendCommand || p == Phase::AwaitResponse
}

/// The phase after an event that reports success (`ok`) or failure.
pub open spec fn next_phase(p: Phase, ok: bool) -> Phase {
    if !ok {
        if holds_configuration(p) {
            Phase::SendDisable
        } else {
            Phase::Finished
        }
    } else {
        match p {
            Phase::SendEnable => Phase::AwaitEnableAck,
            Phase::AwaitEnableAck => Phase::SendCommand,
            Phase::SendCommand => Phase::AwaitResponse,
            Phase::AwaitResponse => Phase::SendDisable,
            Phase::SendDisable => Phase::AwaitDisableAck,
            Phase::AwaitDisableAck => Phase::Finished,
            Phase::Finished => Phase::Finished,
        }
    }
}

/// Phases that expect a write, and those that expect a read.
pub open spec fn expects_write(p: Phase) -> bool {
    p == Phase::SendEnable || p == Phase::SendCommand || p == Phase::SendDisable
}

pub open spec fn expects_read(p: Phase) -> bool {
    p == Phase::AwaitEnableAck || p == Phase::AwaitResponse || p == Phase::AwaitDisableAck
}

/// Whether `e` is the outcome that phase `p` waits for.
pub open spec fn event_fits(p: Phase, e: Event) -> bool {
    match e {
        Event::Written => expects_write(p),
        Event::Received(_) => expects_read(p),
        Event::Failed => p != Phase::Finished,
    }
}

pub open spec fn enable_frame() -> Seq<u8> {
    frame_bytes(seq![0xFFu8, 0x00u8, 0x01u8, 0x00u8])
}

pub open spec fn disable_frame() -> Seq<u8> {
    frame_bytes(seq![0xFEu8, 0x00u8])
}

/// One configuration command in flight.
pub struct ConfigExchange {
    command: Vec<u8>,
    phase: Phase,
    response: Vec<u8>,
    failed: bool,
}

impl ConfigExchange {
    pub closed spec fn phase(&self) -> Phase {
        self.phase
    }

    pub closed spec fn command_frame(&self) -> Seq<u8> {
        self.command@
    }

    pub closed spec fn response(&self) -> Seq<u8> {
        self.response@
    }

    pub closed spec fn failed(&self) -> bool {
        self.failed
    }

    /// Starts the exchange that carries `command`.
    pub fn new(command: Ld2410CCommand) -> (r: ConfigExchange)
        requires
            command.body().len() <= MAX_BODY_LEN,
        ensures
            r.phase() == Phase::SendEnable,
            r.command_frame() == frame_bytes(command.body()),
            !r.failed(),
            r.response() == Seq::<u8>::empty(),
    {
        ConfigExchange {
            command: Ld2410CFrame::new(command).to_u8(),
            phase: Phase::SendEnable,
            response: Vec::new(),
            failed: false,
        }
    }

    /// The action that the current phase calls for.
    pub fn next_action(&self) -> (r: Action)
        ensures
            match (self.phase(), r) {
                (Phase::SendEnable, Action::Write(b)) => b@ == enable_frame(),
                (Phase::SendCommand, Action::Write(b)) => b@ == self.command_frame(),
                (Phase::SendDisable, Action::Write(b)) => b@ == disable_frame(),
                (Phase::AwaitEnableAck, Action::Read) => true,
                (Phase::AwaitResponse, Action::Read) => true,
                (Phase::AwaitDisableAck, Action::Read) => true,
                (Phase::Finished, Action::Done(Ok(b))) => !self.failed() && b@ == self.response(),
                (Phase::Finished, Action::Done(Err(e))) => self.failed() && e == ExchangeError::Io,
                _ => false,
            },
    {
        match self.phase {
            Phase::SendEnable => {
                let c = Ld2410CCommand::enable_configuration();
                assert(c.body() =~= seq![0xFFu8, 0x00u8, 0x01u8, 0x00u8]);
                Action::Write(Ld2410CFrame::new(c).to_u8())
            },
            Phase::SendCommand => {
                let mut b: Vec<u8> = Vec::new();
                append_bytes(&mut b, self.command.as_slice());
                Action::Write(b)
            },
            Phase::SendDisable => {
                let c = Ld2410CCommand::end_configuration();
                assert(c.body() =~= seq![0xFEu8, 0x00u8]);
                Action::Write(Ld2410CFrame::new(c).to_u8())
            },
            Phase::AwaitEnableAck | Phase::AwaitResponse | Phase::AwaitDisableAck => Action::Read,
            Phase::Finished => {
                if self.failed {
                    Action::Done(Err(ExchangeError::Io))
                } else {
                    let mut b: Vec<u8> = Vec::new();
                    append_bytes(&mut b, self.response.as_slice());
                    Action::Done(Ok(b))
                }
            },
        }
    }

    /// Moves on after the outcome of the last action. An outcome that the
    /// phase does not wait for changes nothing.
    pub fn on_event(&mut self, event: Event)
        ensures
            final(self).command_frame() == old(self).command_frame(),
            if event_fits(old(self).phase(), event) {
                &&& final(self).phase() == next_phase(old(self).phase(), !(event is Failed))
                &&& final(self).failed() == (old(self).failed() || event is Failed)
                &&& final(self).response() == match event {
                    Event::Received(b) => if old(self).phase() == Phase::AwaitResponse {
                        b@
                    } else {
                        old(self).response()
                    },
                    _ => old(self).response(),
                }
            } else {
                &&& final(self).phase() == old(self).phase()
                &&& final(self).failed() == old(self).failed()
                &&& final(self).response() == old(self).response()
            },
    {
        let p = self.phase;
        match event {
            Event::Failed => {
                if p != Phase::Finished {
                    self.failed = true;
                    self.phase =
                        if p == Phase::AwaitEnableAck || p == Phase::SendCommand || p
                            == Phase::AwaitResponse {
                            Phase::SendDisable
                        } else {
                            Phase::Finished
                        };
                }
            },
            Event::Written => {
                self.phase =
                    match p {
                        Phase::SendEnable => Phase::AwaitEnableAck,
                        Phase::SendCommand => Phase::AwaitResponse,
                        Phase::SendDisable => Phase::AwaitDisableAck,
                        other => other,
                    };
            },
            Event::Received(bytes) => {
                match p {
                    Phase::AwaitEnableAck => {
                        self.phase = Phase::SendCommand;
                    },
                    Phase::AwaitResponse => {
                        self.response = bytes;
                        self.phase = Phase::SendDisable;
                    },
                    Phase::AwaitDisableAck => {
                        self.phase = Phase::Finished;
                    },
                    _ => {},
                }
            },
        }
    }

    /// Whether the exchange is over.
    pub fn is_finished(&self) -> (r: bool)
        ensures
            r == (self.phase() == Phase::Finished),
    {
        self.phase == Phase::Finished
    }
}

/// While configuration mode may be held, no outcome ends the exchange: a
/// failure leads to the disable frame, and so does every success.
pub proof fn lemma_configuration_released(p: Phase, ok: bool)
    requires
        holds_configuration(p),
    ensures
        next_phase(p, ok) != Phase::Finished,
        !ok ==> next_phase(p, ok) == Phase::SendDisable,
        holds_configuration(next_phase(p, ok)) || next_phase(p, ok) == Phase::SendDisable,
{
}

} // verus!
