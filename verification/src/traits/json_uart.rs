//! The handler of JSON messages, and the byte handler built from it.

use crate::framing::{at_rest, next_state, outcome, overfull, FramerState, Outcome, OPEN};
use crate::json_parser::{FrameResult, JsonParser};
use crate::traits::uart::Uart;
use crate::strings::{error_line, error_line_of};
use crate::uart_tx::{reported, UartTX};
use serde_json::Value;
use vstd::prelude::*;

verus! {

/// What the `err` that every handler has from the start does: the handler
/// stays as it is, one line with the text goes to the diagnostic output, and
/// nothing is queued for sending.
pub open spec fn error_reported<T: ?Sized>(
    handler: &T,
    transmitter: UartTX,
    text: Seq<char>,
    after: &T,
    left: UartTX,
) -> bool {
    after == handler && reported(transmitter, error_line(text), left)
}

/// A handler that is told of every message a device receives.
///
/// What a handler does with a message is its own business. The two
/// relations below are the handler's own account of it: they say which
/// handler and which transmit handle one call can leave behind. The byte
/// handler built on top states its effect through them, and so says nothing
/// of a handler that does not keep to the account it gives.
pub trait UartJson: 'static {
    /// The handler's account of `rx`: true when one call with `json`, on
    /// this handler and the transmit handle `transmitter`, can leave the
    /// handler `after` and the transmit handle `left`. A handler that gives
    /// no account admits any outcome.
    open spec fn on_message(
        &self,
        transmitter: UartTX,
        json: Value,
        after: &Self,
        left: UartTX,
    ) -> bool {
        true
    }

    /// The handler's account of `err`, in the same way, for the text of a
    /// frame that did not decode. A handler without an `err` of its own
    /// does what `error_reported` says.
    open spec fn on_error(
        &self,
        transmitter: UartTX,
        text: Seq<char>,
        after: &Self,
        left: UartTX,
    ) -> bool {
        error_reported(self, transmitter, text, after, left)
    }

    /// Runs once for each frame that decoded.
    fn rx(&mut self, transmitter: &mut UartTX, json: Value)
        ensures
            old(self).on_message(*old(transmitter), json, final(self), *final(transmitter)),
    ;

    /// Runs once for each frame that did not decode, with its text. Unless
    /// a handler has an `err` of its own, one line with the text goes to the
    /// diagnostic output.
    ///
    /// The body below is held to this clause for every handler, also for
    /// one that gives an account of its own, so the clause admits what the
    /// body does beside the account.
    fn err(&mut self, transmitter: &mut UartTX, string: String)
        ensures
            old(self).on_error(*old(transmitter), string@, final(self), *final(transmitter))
                || error_reported(
                old(self),
                *old(transmitter),
                string@,
                final(self),
                *final(transmitter),
            ),
    {
        transmitter.report(error_line_of(string.as_str()));
    }
}

/// What handing a report to a message handler can make of the handler and
/// of the transmit handle: nothing for `Pending`, what the handler's `rx`
/// makes of them for a message, what its `err` makes of them for a text that
/// did not decode: the handler's account, or the line on the diagnostic
/// output.
pub open spec fn delivered<T: UartJson>(
    handler: T,
    transmitter: UartTX,
    report: Outcome,
    after: T,
    left: UartTX,
) -> bool {
    match report {
        Outcome::Pending => after == handler && left == transmitter,
        Outcome::Message(json) => handler.on_message(transmitter, json, &after, left),
        Outcome::Error(text) => handler.on_error(transmitter, text, &after, left)
            || error_reported(&handler, transmitter, text, &after, left),
    }
}

/// A byte handler made of a message handler and the framer that feeds it.
pub struct UartJsonInner<T: UartJson> {
    /// The message handler.
    inner: T,
    /// The framer, which lives as long as the handler.
    framer: JsonParser,
}

impl<T: UartJson> UartJsonInner<T> {
    /// The message handler.
    pub closed spec fn handler(&self) -> T {
        self.inner
    }

    /// The state of the framer.
    pub closed spec fn framing(&self) -> FramerState {
        self.framer@
    }

    /// Wraps a message handler, with a framer at rest.
    pub fn new(uart: T) -> (wrapped: Self)
        ensures
            wrapped.handler() == uart,
            wrapped.framing() == at_rest(),
    {
        Self { inner: uart, framer: JsonParser::new() }
    }

    /// Hands the framer's report to the message handler: a message to `rx`,
    /// an undecodable text to `err`, and `Pending` to nobody. The framer is
    /// left as it is; the handler and the transmit handle are left as that
    /// one call leaves them.
    pub fn deliver(&mut self, transmitter: &mut UartTX, report: FrameResult)
        ensures
            final(self).framing() == old(self).framing(),
            delivered(
                old(self).handler(),
                *old(transmitter),
                report@,
                final(self).handler(),
                *final(transmitter),
            ),
    {
        match report {
            FrameResult::Pending => {},
            FrameResult::Message(json) => self.inner.rx(transmitter, json),
            FrameResult::Error(raw) => self.inner.err(transmitter, raw),
        }
    }
}

impl<T: UartJson> Uart for UartJsonInner<T> {
    /// What one byte makes of the byte handler: the framer takes its step,
    /// and the framer's report is handed to the message handler. With
    /// `i32::MAX` braces open the framer cannot count one more: a `{` is
    /// then dropped.
    open spec fn on_byte(&self, transmitter: UartTX, byte: u8, after: &Self, left: UartTX) -> bool {
        if overfull(self.framing(), byte == OPEN) {
            &&& after.framing() == self.framing()
            &&& after.handler() == self.handler()
            &&& left == transmitter
        } else {
            &&& after.framing() == next_state(self.framing(), byte)
            &&& delivered(
                self.handler(),
                transmitter,
                outcome(self.framing(), byte),
                after.handler(),
                left,
            )
        }
    }

    /// Feeds the byte to the framer and hands the report to the message
    /// handler.
    fn rx(&mut self, transmitter: &mut UartTX, byte: u8) {
        if byte == OPEN && self.framer.depth() == i32::MAX {
            return ;
        }
        let report = self.framer.parse_byte(byte);
        self.deliver(transmitter, report);
    }
}

} // verus!
