//! Per-connection one-shot protocol handler.
//!
//! Each pending exchange is an explicit state machine that drives one
//! outbound or one inbound message transfer to completion and translates it
//! into an event for the owning behaviour. The connection layer performs the
//! byte transfer and reports back; several independent exchanges may be
//! queued per connection, each its own instance, so a failure of one leaves
//! every other exchange untouched.

use vstd::prelude::*;
use vstd::utf8::encode_utf8;

use crate::simple::frame_encoding;
use crate::simple::spec_decode_frame;
use crate::simple::SimpleProtocolError;
use crate::simple::SimpleProtocolEvent;
use crate::simple::SimpleProtocolMessage;
use crate::simple::MAX_MESSAGE_SIZE;

verus! {

/// Which side of the exchange this instance drives.
#[derive(Clone, Copy, Debug, PartialEq, Eq, Structural)]
pub enum ExchangeDirection {
    Outbound,
    Inbound,
}

/// How a completed exchange ended.
#[derive(Clone, Copy, Debug, PartialEq, Eq, Structural)]
pub enum ExchangeOutcome {
    /// The outbound message was written to completion.
    Sent,
    /// One inbound message was read and decoded.
    Received,
}

/// The states of one exchange. `Upgrading` lasts while the connection layer
/// transfers the frame; `Completed` and `Failed` are terminal.
#[derive(Clone, Copy, Debug, PartialEq, Eq, Structural)]
pub enum ExchangeState {
    Idle,
    Upgrading { direction: ExchangeDirection },
    Completed { outcome: ExchangeOutcome },
    Failed { error: SimpleProtocolError },
}

/// One pending exchange: a state machine from `Idle` through `Upgrading` to
/// `Completed` or `Failed`, never retried — retry policy belongs to the
/// owning behaviour.
pub struct OneShotExchange {
    state: ExchangeState,
}

impl View for OneShotExchange {
    type V = ExchangeState;

    closed spec fn view(&self) -> ExchangeState {
        self.state
    }
}

impl OneShotExchange {
    /// A fresh exchange, ready to drive one transfer in either direction.
    pub fn new() -> (r: Self)
        ensures
            r@ is Idle,
    {
        OneShotExchange { state: ExchangeState::Idle }
    }

    /// The current state.
    pub fn state(&self) -> (r: ExchangeState)
        ensures
            r == self@,
    {
        self.state
    }

    /// Starts the outbound upgrade for `message`: encodes the frame for the
    /// connection layer to write. An oversized message fails the exchange
    /// with `FrameTooLarge` at once and nothing is written.
    pub fn begin_outbound(&mut self, message: &SimpleProtocolMessage) -> (r: Result<
        Vec<u8>,
        SimpleProtocolError,
    >)
        requires
            old(self)@ is Idle,
        ensures
            encode_utf8(message@).len() < MAX_MESSAGE_SIZE ==> {
                &&& r is Ok
                &&& r->Ok_0@ == frame_encoding(encode_utf8(message@))
                &&& final(self)@ == (ExchangeState::Upgrading {
                    direction: ExchangeDirection::Outbound,
                })
            },
            encode_utf8(message@).len() >= MAX_MESSAGE_SIZE ==> {
                &&& r is Err
                &&& r->Err_0 == SimpleProtocolError::FrameTooLarge
                &&& final(self)@ == (ExchangeState::Failed {
                    error: SimpleProtocolError::FrameTooLarge,
                })
            },
    {
        match message.upgrade_outbound() {
            Ok(frame) => {
                self.state = ExchangeState::Upgrading { direction: ExchangeDirection::Outbound };
                Ok(frame)
            },
            Err(error) => {
                self.state = ExchangeState::Failed { error };
                Err(error)
            },
        }
    }

    /// Ends the outbound upgrade once the connection layer reports whether
    /// the frame was written to completion. Success surfaces `Sent`; an I/O
    /// failure surfaces `WriteError`, not retried here.
    pub fn complete_outbound(&mut self, delivered: bool) -> (r: Result<
        SimpleProtocolEvent,
        SimpleProtocolError,
    >)
        requires
            old(self)@ == (ExchangeState::Upgrading {
                direction: ExchangeDirection::Outbound,
            }),
        ensures
            delivered ==> {
                &&& r is Ok
                &&& r->Ok_0 is Sent
                &&& final(self)@ == (ExchangeState::Completed {
                    outcome: ExchangeOutcome::Sent,
                })
            },
            !delivered ==> {
                &&& r is Err
                &&& r->Err_0 == SimpleProtocolError::WriteError
                &&& final(self)@ == (ExchangeState::Failed {
                    error: SimpleProtocolError::WriteError,
                })
            },
    {
        if delivered {
            self.state = ExchangeState::Completed { outcome: ExchangeOutcome::Sent };
            Ok(SimpleProtocolEvent::Sent)
        } else {
            self.state = ExchangeState::Failed { error: SimpleProtocolError::WriteError };
            Err(SimpleProtocolError::WriteError)
        }
    }

    /// Starts the inbound upgrade requested by the connection layer.
    pub fn begin_inbound(&mut self)
        requires
            old(self)@ is Idle,
        ensures
            final(self)@ == (ExchangeState::Upgrading {
                direction: ExchangeDirection::Inbound,
            }),
    {
        self.state = ExchangeState::Upgrading { direction: ExchangeDirection::Inbound };
    }

    /// Ends the inbound upgrade with what the connection layer read:
    /// `None` when the stream failed, `Some(frame)` with everything it
    /// carried. Decoding follows `spec_decode_frame`: success surfaces the
    /// received message, failure the decode or read error.
    pub fn complete_inbound(&mut self, data: Option<&[u8]>) -> (r: Result<
        SimpleProtocolEvent,
        SimpleProtocolError,
    >)
        requires
            old(self)@ == (ExchangeState::Upgrading {
                direction: ExchangeDirection::Inbound,
            }),
        ensures
            data is None ==> {
                &&& r is Err
                &&& r->Err_0 == SimpleProtocolError::TransportReadError
                &&& final(self)@ == (ExchangeState::Failed {
                    error: SimpleProtocolError::TransportReadError,
                })
            },
            data matches Some(frame) ==> match spec_decode_frame(frame@) {
                Ok(message) => {
                    &&& r is Ok
                    &&& r->Ok_0 matches SimpleProtocolEvent::Received(m) && m@ == message
                    &&& final(self)@ == (ExchangeState::Completed {
                        outcome: ExchangeOutcome::Received,
                    })
                },
                Err(error) => {
                    &&& r is Err
                    &&& r->Err_0 == error
                    &&& final(self)@ == (ExchangeState::Failed { error })
                },
            },
    {
        match data {
            None => {
                self.state = ExchangeState::Failed {
                    error: SimpleProtocolError::TransportReadError,
                };
                Err(SimpleProtocolError::TransportReadError)
            },
            Some(frame) => {
                match crate::simple::decode_frame(frame) {
                    Ok(message) => {
                        self.state = ExchangeState::Completed {
                            outcome: ExchangeOutcome::Received,
                        };
                        Ok(SimpleProtocolEvent::Received(message))
                    },
                    Err(error) => {
                        self.state = ExchangeState::Failed { error };
                        Err(error)
                    },
                }
            },
        }
    }
}

} // verus!
