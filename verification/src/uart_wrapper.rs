//! The record of one opened device: its handler and its transmit handle.
//!
//! The transport's notifications enter here. Each one ends in a flush
//! attempt, whose offer goes back to the caller to be put to the transport.

use crate::traits::uart::Uart;
use crate::uart_tx::{after_answer, offer, UartTX};
use crate::utils::{UartID, UNASSIGNED};
use vstd::prelude::*;

verus! {

/// A byte handler together with the transmit handle it sends through.
pub struct UartWrapper<T: Uart> {
    /// The handler, as the application gave it.
    inner: T,
    /// The transmit handle.
    tx: UartTX,
}

impl<T: Uart> UartWrapper<T> {
    /// The handler.
    pub closed spec fn handler(&self) -> T {
        self.inner
    }

    /// The transmit handle.
    pub closed spec fn transmitter(&self) -> UartTX {
        self.tx
    }

    /// The bytes that wait to be sent, oldest first.
    pub open spec fn queued(&self) -> Seq<u8> {
        self.transmitter()@
    }

    /// The lines that wait to be printed, oldest first.
    pub open spec fn reports(&self) -> Seq<Seq<char>> {
        self.transmitter().reports()
    }

    /// The device's identifier.
    pub open spec fn id(&self) -> UartID {
        self.transmitter().id()
    }

    /// Wraps a handler, with nothing queued and no identifier yet.
    pub fn from_uart(uart: T) -> (wrapper: Self)
        ensures
            wrapper.handler() == uart,
            wrapper.queued() == Seq::<u8>::empty(),
            wrapper.reports() == Seq::<Seq<char>>::empty(),
            wrapper.id() == UNASSIGNED,
    {
        Self { inner: uart, tx: UartTX::new() }
    }

    /// Sets the identifier that the transport gave the device.
    pub fn update_id(&mut self, device_id: UartID)
        ensures
            final(self).id() == device_id,
            final(self).queued() == old(self).queued(),
            final(self).reports() == old(self).reports(),
            final(self).handler() == old(self).handler(),
    {
        self.tx.update_id(device_id);
    }

    /// The device's identifier.
    pub fn device_id(&self) -> (id: UartID)
        ensures
            id == self.id(),
    {
        self.tx.device_id()
    }

    /// A byte was received: the handler runs on it, once, with the record's
    /// own transmit handle, and a flush attempt follows for whatever then
    /// waits to be sent.
    pub fn on_uart_rx_data(&mut self, byte: u8) -> (data: Option<Vec<u8>>)
        ensures
            old(self).handler().on_byte(
                old(self).transmitter(),
                byte,
                &final(self).handler(),
                final(self).transmitter(),
            ),
            match data {
                Some(bytes) => offer(final(self).queued()) == Some(bytes@),
                None => offer(final(self).queued()) is None,
            },
    {
        self.inner.rx(&mut self.tx, byte);
        self.tx.try_write()
    }

    /// The transport has finished a write: a flush attempt follows for
    /// whatever has been queued since.
    pub fn on_uart_write_done(&self) -> (data: Option<Vec<u8>>)
        ensures
            match data {
                Some(bytes) => offer(self.queued()) == Some(bytes@),
                None => offer(self.queued()) is None,
            },
    {
        self.tx.try_write()
    }

    /// Takes the transport's answer to the offer of the last flush attempt.
    pub fn write_result(&mut self, did_write: bool)
        ensures
            final(self).queued() == after_answer(old(self).queued(), did_write),
            final(self).id() == old(self).id(),
            final(self).reports() == old(self).reports(),
            final(self).handler() == old(self).handler(),
    {
        self.tx.write_result(did_write);
    }

    /// Takes the lines that the handler has handed to the diagnostic
    /// output, oldest first, and leaves none.
    pub fn take_reports(&mut self) -> (lines: Vec<String>)
        ensures
            lines.deep_view() == old(self).reports(),
            final(self).reports() == Seq::<Seq<char>>::empty(),
            final(self).queued() == old(self).queued(),
            final(self).id() == old(self).id(),
            final(self).handler() == old(self).handler(),
    {
        self.tx.take_reports()
    }
}

} // verus!
