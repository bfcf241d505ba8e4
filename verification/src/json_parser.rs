//! The streaming message framer.
//!
//! Bytes arrive one at a time. The framer counts braces, collects the bytes
//! of the frame in progress, and once the braces balance reads the bytes as
//! UTF-8 text and decodes the text.

use crate::framing::{
    advanced, announced, at_rest, lemma_step_settles, next_state, next_state_char, outcome,
    outcome_char, overfull, resolved, settled, FramerState, Outcome, CLOSE, OPEN,
};
use crate::json::from_str;
use crate::strings::from_utf8_lossy;
use crate::uart::Uart;
use serde_json::{Error, Value};
use vstd::prelude::*;

verus! {

/// What one call of the framer reports.
#[derive(Debug, PartialEq)]
pub enum FrameResult {
    /// No frame ended here.
    Pending,
    /// A frame ended and decoded to this value.
    Message(Value),
    /// A frame ended with balanced braces, but its text did not decode.
    Error(String),
}

impl View for FrameResult {
    type V = Outcome;

    open spec fn view(&self) -> Outcome {
        match self {
            FrameResult::Pending => Outcome::Pending,
            FrameResult::Message(value) => Outcome::Message(*value),
            FrameResult::Error(raw) => Outcome::Error(raw@),
        }
    }
}

/// Turns the decoder's verdict on a balanced frame into the framer's report.
pub fn resolve(decoded: Result<Value, Error>, raw: String) -> (r: FrameResult)
    ensures
        r@ == resolved(decoded, raw@),
{
    match decoded {
        Ok(value) => FrameResult::Message(value),
        Err(_) => FrameResult::Error(raw),
    }
}

/// Reassembles JSON messages from a stream of bytes.
pub struct JsonParser {
    json: Vec<u8>,
    num_curly_braces: i32,
}

impl View for JsonParser {
    type V = FramerState;

    closed spec fn view(&self) -> FramerState {
        FramerState { bytes: self.json@, depth: self.num_curly_braces as int }
    }
}

impl JsonParser {
    /// A framer at rest.
    pub fn new() -> (p: JsonParser)
        ensures
            p@ == at_rest(),
    {
        JsonParser { json: Vec::new(), num_curly_braces: 0 }
    }

    /// The number of braces that are open.
    pub fn depth(&self) -> (d: i32)
        ensures
            d == self@.depth,
    {
        self.num_curly_braces
    }

    /// One step: takes the bytes `added`, which are a `{`, a `}` or neither.
    fn advance(&mut self, opens: bool, closes: bool, added: Vec<u8>) -> (r: FrameResult)
        requires
            !overfull(old(self)@, opens),
        ensures
            final(self)@ == advanced(old(self)@, opens, closes, added@),
            r@ == announced(old(self)@, opens, closes, added@),
            settled(final(self)@),
    {
        proof {
            lemma_step_settles(old(self)@, opens, closes, added@);
        }
        if self.num_curly_braces < 0 {
            self.json.clear();
            self.num_curly_braces = 0;
            return FrameResult::Pending;
        }
        if self.num_curly_braces == 0 && !opens {
            if !self.json.is_empty() {
                self.json.clear();
            }
            assert(self.json@ =~= Seq::<u8>::empty());
            return FrameResult::Pending;
        }
        if opens {
            self.num_curly_braces += 1;
        } else if closes {
            self.num_curly_braces -= 1;
        }
        let mut added = added;
        self.json.append(&mut added);
        if self.num_curly_braces == 0 {
            let text = from_utf8_lossy(&self.json);
            let decoded = from_str(text.as_str());
            self.json.clear();
            return resolve(decoded, text);
        }
        FrameResult::Pending
    }

    /// Takes the next byte of the stream.
    ///
    /// The depth counter is an `i32`: with `i32::MAX` braces open, one more
    /// `{` cannot be counted, and the call is not defined for it.
    pub fn parse_byte(&mut self, byte: u8) -> (r: FrameResult)
        requires
            !overfull(old(self)@, byte == OPEN),
        ensures
            final(self)@ == next_state(old(self)@, byte),
            r@ == outcome(old(self)@, byte),
            settled(final(self)@),
    {
        let mut added: Vec<u8> = Vec::new();
        added.push(byte);
        assert(added@ =~= seq![byte]);
        self.advance(byte == OPEN, byte == CLOSE, added)
    }

    /// Takes the next character of a stream of text; it is collected as its
    /// UTF-8 bytes.
    ///
    /// The depth counter is an `i32`: with `i32::MAX` braces open, one more
    /// `{` cannot be counted, and the call is not defined for it.
    pub fn parse(&mut self, c: char) -> (r: FrameResult)
        requires
            !overfull(old(self)@, c == '{'),
        ensures
            final(self)@ == next_state_char(old(self)@, c),
            r@ == outcome_char(old(self)@, c),
            settled(final(self)@),
    {
        let mut one = String::new();
        one.push(c);
        assert(one@ =~= seq![c]);
        let added = one.as_str().as_bytes_vec();
        self.advance(c == '{', c == '}', added)
    }

    /// Takes the next byte from the device's receive queue, if the device
    /// says that one waits, and reports as `parse_byte` does; reports
    /// `Pending` and changes nothing otherwise.
    pub fn parse_uart(&mut self, uart: &mut Uart) -> (r: FrameResult)
        requires
            old(uart).received().len() > 0 ==> !overfull(
                old(self)@,
                old(uart).received()[0] == OPEN,
            ),
        ensures
            old(uart).received().len() as u32 == 0 ==> {
                &&& r@ == Outcome::Pending
                &&& final(self)@ == old(self)@
                &&& final(uart).received() == old(uart).received()
            },
            old(uart).received().len() as u32 != 0 ==> {
                &&& old(uart).received().len() > 0
                &&& r@ == outcome(old(self)@, old(uart).received()[0])
                &&& final(self)@ == next_state(old(self)@, old(uart).received()[0])
                &&& final(uart).received() == old(uart).received().skip(1)
            },
            final(uart).queued() == old(uart).queued(),
            final(uart).id() == old(uart).id(),
    {
        if uart.available() > 0 {
            match uart.read() {
                Some(byte) => {
                    return self.parse_byte(byte);
                },
                None => {},
            }
        }
        FrameResult::Pending
    }
}

} // verus!
