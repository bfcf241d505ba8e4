//! A serial device that queues in both directions.
//!
//! Received bytes wait in a queue until the owner reads them; bytes to send
//! wait in the transmit queue until the transport has taken them.

use crate::strings::as_chars;
use crate::uart_tx::{after_answer, offer, UartTX};
use crate::utils::UartID;
use std::collections::VecDeque;
use vstd::prelude::*;

verus! {

/// The number of bytes that a read of at most `length` bytes takes from a
/// queue of `available` bytes.
pub open spec fn taken(available: nat, length: u32) -> int {
    if length <= available {
        length as int
    } else {
        available as int
    }
}

/// One opened serial device with its receive queue and its transmit queue.
pub struct Uart {
    /// The bytes received and not yet read, oldest first.
    in_buffer: VecDeque<u8>,
    /// The transmit queue and the device's identifier.
    tx: UartTX,
}

impl Uart {
    /// The bytes received and not yet read, oldest first.
    pub closed spec fn received(&self) -> Seq<u8> {
        self.in_buffer@
    }

    /// The bytes that wait to be sent, oldest first.
    pub closed spec fn queued(&self) -> Seq<u8> {
        self.tx@
    }

    /// The device's identifier.
    pub closed spec fn id(&self) -> UartID {
        self.tx.id()
    }

    /// A device with both queues empty and no identifier yet.
    pub fn new() -> (uart: Uart)
        ensures
            uart.received() == Seq::<u8>::empty(),
            uart.queued() == Seq::<u8>::empty(),
            uart.id() == crate::utils::UNASSIGNED,
    {
        Uart { in_buffer: VecDeque::new(), tx: UartTX::new() }
    }

    /// Sets the identifier that the transport gave the device.
    pub fn update_id(&mut self, device_id: UartID)
        ensures
            final(self).id() == device_id,
            final(self).received() == old(self).received(),
            final(self).queued() == old(self).queued(),
    {
        self.tx.update_id(device_id);
    }

    /// The device's identifier.
    pub fn device_id(&self) -> (id: UartID)
        ensures
            id == self.id(),
    {
        self.tx.device_id()
    }

    /// Takes a byte that the transport has received: it goes to the end of
    /// the receive queue.
    pub fn on_uart_rx_data(&mut self, byte: u8)
        ensures
            final(self).received() == old(self).received().push(byte),
            final(self).queued() == old(self).queued(),
            final(self).id() == old(self).id(),
    {
        self.in_buffer.push_back(byte);
    }

    /// Makes a flush attempt: returns what is to be offered to the transport
    /// now, if anything.
    pub fn update_out_buffer(&self) -> (data: Option<Vec<u8>>)
        ensures
            match data {
                Some(bytes) => offer(self.queued()) == Some(bytes@),
                None => offer(self.queued()) is None,
            },
    {
        self.tx.try_write()
    }

    /// Takes the transport's answer to the offer that `update_out_buffer`
    /// returned.
    pub fn write_result(&mut self, did_write: bool)
        ensures
            final(self).queued() == after_answer(old(self).queued(), did_write),
            final(self).received() == old(self).received(),
            final(self).id() == old(self).id(),
    {
        self.tx.write_result(did_write);
    }

    /// The number of bytes that wait to be read, as far as a `u32` holds it.
    pub fn available(&self) -> (n: u32)
        ensures
            n == self.received().len() as u32,
            self.received().len() <= u32::MAX ==> n == self.received().len(),
    {
        #[verifier::truncate]
        (self.in_buffer.len() as u32)
    }

    /// Takes the oldest byte of the receive queue, if there is one.
    pub fn read(&mut self) -> (byte: Option<u8>)
        ensures
            old(self).received().len() == 0 ==> byte is None
                && final(self).received() == old(self).received(),
            old(self).received().len() > 0 ==> byte == Some(old(self).received()[0])
                && final(self).received() == old(self).received().skip(1),
            final(self).queued() == old(self).queued(),
            final(self).id() == old(self).id(),
    {
        let byte = self.in_buffer.pop_front();
        proof {
            if byte is Some {
                let before = old(self).received();
                assert(before.subrange(1, before.len() as int) =~= before.skip(1));
            }
        }
        byte
    }

    /// Takes the oldest bytes of the receive queue: `length` of them, or all
    /// of them where fewer wait.
    pub fn read_bytes(&mut self, length: u32) -> (bytes: Vec<u8>)
        ensures
            bytes@ == old(self).received().take(taken(old(self).received().len(), length)),
            final(self).received() == old(self).received().skip(
                taken(old(self).received().len(), length),
            ),
            final(self).queued() == old(self).queued(),
            final(self).id() == old(self).id(),
    {
        let mut result: Vec<u8> = Vec::new();
        let mut count: u32 = 0;
        while count < length && self.in_buffer.len() > 0
            invariant
                count <= length,
                count <= old(self).received().len(),
                result@ == old(self).received().take(count as int),
                self.received() == old(self).received().skip(count as int),
                self.queued() == old(self).queued(),
                self.id() == old(self).id(),
            decreases length - count,
        {
            let byte = self.in_buffer.pop_front();
            proof {
                let before = old(self).received();
                let rest = before.skip(count as int);
                assert(rest.subrange(1, rest.len() as int) =~= before.skip(count + 1));
                assert(before.take(count as int).push(rest[0]) =~= before.take(count + 1));
            }
            match byte {
                Some(b) => result.push(b),
                None => {},
            }
            count = count + 1;
        }
        result
    }

    /// Queues one byte for sending. Nothing reaches the transport here: the
    /// owner of the device makes the flush attempt, `update_out_buffer`, as
    /// soon as the handler that queued has returned.
    pub fn write(&mut self, data: u8)
        ensures
            final(self).queued() == old(self).queued().push(data),
            final(self).received() == old(self).received(),
            final(self).id() == old(self).id(),
    {
        self.tx.write_byte(data);
    }

    /// Queues bytes for sending, in order. Nothing reaches the transport
    /// here: the owner of the device makes the flush attempt,
    /// `update_out_buffer`, as soon as the handler that queued has returned.
    pub fn write_bytes(&mut self, data: Vec<u8>)
        ensures
            final(self).queued() == old(self).queued() + data@,
            final(self).received() == old(self).received(),
            final(self).id() == old(self).id(),
    {
        self.tx.write_bytes(data);
    }

    /// Takes the oldest byte of the receive queue as the character with that
    /// code point.
    pub fn read_char(&mut self) -> (c: Option<char>)
        ensures
            old(self).received().len() == 0 ==> c is None
                && final(self).received() == old(self).received(),
            old(self).received().len() > 0 ==> c == Some(old(self).received()[0] as char)
                && final(self).received() == old(self).received().skip(1),
            final(self).queued() == old(self).queued(),
            final(self).id() == old(self).id(),
    {
        match self.read() {
            Some(byte) => Some(byte as char),
            None => None,
        }
    }

    /// Takes the oldest bytes of the receive queue as text, one character
    /// for each byte: `length` of them, or all of them where fewer wait.
    pub fn read_string(&mut self, length: u32) -> (text: String)
        ensures
            text@ == as_chars(
                old(self).received().take(taken(old(self).received().len(), length)),
            ),
            final(self).received() == old(self).received().skip(
                taken(old(self).received().len(), length),
            ),
            final(self).queued() == old(self).queued(),
            final(self).id() == old(self).id(),
    {
        let bytes = self.read_bytes(length);
        let mut text = String::new();
        let mut i: usize = 0;
        while i < bytes.len()
            invariant
                i <= bytes.len(),
                text@ == as_chars(bytes@.take(i as int)),
            decreases bytes.len() - i,
        {
            text.push(bytes[i] as char);
            proof {
                assert(bytes@.take(i as int).push(bytes@[i as int]) =~= bytes@.take(i + 1));
                assert(as_chars(bytes@.take(i + 1)) =~= as_chars(bytes@.take(i as int)).push(
                    bytes@[i as int] as char,
                ));
            }
            i = i + 1;
        }
        assert(bytes@.take(bytes.len() as int) =~= bytes@);
        text
    }

    /// Queues the low eight bits of the character's code point for sending;
    /// the flush attempt follows as for `write`.
    pub fn write_char(&mut self, data: char)
        ensures
            final(self).queued() == old(self).queued().push(data as u8),
            final(self).received() == old(self).received(),
            final(self).id() == old(self).id(),
    {
        self.write(
            #[verifier::truncate]
            (data as u8),
        );
    }

    /// Queues the UTF-8 bytes of the text for sending; the flush attempt
    /// follows as for `write`.
    pub fn write_string(&mut self, data: String)
        ensures
            final(self).queued() == old(self).queued() + vstd::utf8::encode_utf8(data@),
            final(self).received() == old(self).received(),
            final(self).id() == old(self).id(),
    {
        self.write_bytes(data.as_str().as_bytes_vec());
    }
}

} // verus!
