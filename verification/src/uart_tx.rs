//! The transmit side of one serial device.
//!
//! Bytes wait in a queue. A flush attempt offers the whole queue to the
//! transport at once; the transport takes all of it or none of it, and its
//! answer decides whether the queue is emptied or kept for the next attempt.
//!
//! Queueing does not reach the transport by itself. The owner of the device
//! makes a flush attempt as soon as the handler that queued has returned,
//! and again on each notification that a write has finished.
//!
//! Beside the bytes, the handle collects lines for the diagnostic output,
//! which the owner of the device prints after each notification.

use crate::utils::{UartID, UNASSIGNED};
use vstd::prelude::*;

verus! {

/// What a flush attempt offers to the transport: nothing when nothing
/// waits, else everything that waits.
pub open spec fn offer(queue: Seq<u8>) -> Option<Seq<u8>> {
    if queue.len() == 0 {
        None
    } else {
        Some(queue)
    }
}

/// The queue after the transport has answered an offer of all of it.
pub open spec fn after_answer(queue: Seq<u8>, did_write: bool) -> Seq<u8> {
    if did_write {
        Seq::empty()
    } else {
        queue
    }
}

/// The handle through which a device's owner sends bytes.
pub struct UartTX {
    /// The device to send on; `UNASSIGNED` until `update_id` is called.
    device_id: UartID,
    /// The bytes that wait to be sent, oldest first.
    out_buffer: Vec<u8>,
    /// The lines that wait to be printed, oldest first.
    reports: Vec<String>,
}

impl View for UartTX {
    type V = Seq<u8>;

    /// The bytes that wait to be sent, oldest first.
    closed spec fn view(&self) -> Seq<u8> {
        self.out_buffer@
    }
}

/// True when `after` is `before` with one more line to print and nothing
/// else changed.
pub open spec fn reported(before: UartTX, line: Seq<char>, after: UartTX) -> bool {
    &&& after@ == before@
    &&& after.id() == before.id()
    &&& after.reports() == before.reports().push(line)
}

impl UartTX {
    /// The device that the handle sends on.
    pub closed spec fn id(&self) -> UartID {
        self.device_id
    }

    /// The lines that wait to be printed, oldest first.
    pub closed spec fn reports(&self) -> Seq<Seq<char>> {
        self.reports.deep_view()
    }

    /// A handle with nothing queued, nothing to print and no device yet.
    pub fn new() -> (tx: UartTX)
        ensures
            tx@ == Seq::<u8>::empty(),
            tx.reports() == Seq::<Seq<char>>::empty(),
            tx.id() == UNASSIGNED,
    {
        let tx = UartTX { device_id: UNASSIGNED, out_buffer: Vec::new(), reports: Vec::new() };
        assert(tx.reports() =~= Seq::<Seq<char>>::empty());
        tx
    }

    /// Sets the device that the handle sends on. This is for the owner of
    /// the device, not for a handler.
    pub(crate) fn update_id(&mut self, device_id: UartID)
        ensures
            final(self).id() == device_id,
            final(self)@ == old(self)@,
            final(self).reports() == old(self).reports(),
    {
        self.device_id = device_id
    }

    /// The device that the handle sends on.
    pub fn device_id(&self) -> (id: UartID)
        ensures
            id == self.id(),
    {
        self.device_id
    }

    /// Makes a flush attempt: returns what is to be offered to the transport
    /// now, if anything. The queue itself waits for the transport's answer.
    pub fn try_write(&self) -> (data: Option<Vec<u8>>)
        ensures
            match data {
                Some(bytes) => offer(self@) == Some(bytes@),
                None => offer(self@) is None,
            },
    {
        if self.out_buffer.is_empty() {
            return None;
        }
        Some(self.out_buffer.clone())
    }

    /// Takes the transport's answer to the offer that `try_write` returned:
    /// an accepted offer empties the queue, a declined one leaves it whole.
    /// This is for the owner of the device, not for a handler.
    pub(crate) fn write_result(&mut self, did_write: bool)
        ensures
            final(self)@ == after_answer(old(self)@, did_write),
            final(self).id() == old(self).id(),
            final(self).reports() == old(self).reports(),
    {
        if did_write {
            self.out_buffer.clear();
        }
    }

    /// Queues one byte behind what already waits. The flush attempt follows
    /// when the handler that queued has returned.
    pub fn write_byte(&mut self, byte: u8)
        ensures
            final(self)@ == old(self)@.push(byte),
            final(self).id() == old(self).id(),
            final(self).reports() == old(self).reports(),
    {
        self.out_buffer.push(byte);
    }

    /// Queues bytes, in order, behind what already waits. The flush attempt
    /// follows when the handler that queued has returned.
    pub fn write_bytes(&mut self, bytes: Vec<u8>)
        ensures
            final(self)@ == old(self)@ + bytes@,
            final(self).id() == old(self).id(),
            final(self).reports() == old(self).reports(),
    {
        let mut bytes = bytes;
        self.out_buffer.append(&mut bytes);
    }

    /// Hands a line to the diagnostic output: it waits behind the lines
    /// that wait already, and nothing is queued for sending.
    pub fn report(&mut self, line: String)
        ensures
            reported(*old(self), line@, *final(self)),
    {
        self.reports.push(line);
        assert(self.reports() =~= old(self).reports().push(line@));
    }

    /// Takes the lines that wait to be printed, oldest first, and leaves
    /// none. This is for the owner of the device, not for a handler.
    pub(crate) fn take_reports(&mut self) -> (lines: Vec<String>)
        ensures
            lines.deep_view() == old(self).reports(),
            final(self).reports() == Seq::<Seq<char>>::empty(),
            final(self)@ == old(self)@,
            final(self).id() == old(self).id(),
    {
        let mut lines: Vec<String> = Vec::new();
        core::mem::swap(&mut self.reports, &mut lines);
        assert(self.reports() =~= Seq::<Seq<char>>::empty());
        lines
    }
}

/// A declined offer costs nothing: the queue is as it was after the bytes
/// were queued, and the next flush attempt offers exactly the same bytes.
pub proof fn lemma_declined_offer_is_repeated(queue: Seq<u8>, bytes: Seq<u8>)
    ensures
        after_answer(queue + bytes, false) == queue + bytes,
        offer(after_answer(queue + bytes, false)) == offer(queue + bytes),
        (queue + bytes).len() > 0 ==> offer(after_answer(queue + bytes, false)) == Some(
            queue + bytes,
        ),
{
}

/// An accepted offer leaves nothing behind: the next flush attempt offers
/// nothing until more is queued.
pub proof fn lemma_accepted_offer_is_final(queue: Seq<u8>)
    ensures
        offer(after_answer(queue, true)) is None,
{
}

} // verus!
