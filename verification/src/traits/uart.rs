//! The handler of raw bytes.

use crate::uart_tx::UartTX;
use vstd::prelude::*;

verus! {

/// A handler that is told of every byte a device receives. It keeps its own
/// state between bytes and may queue bytes to send.
///
/// What a handler does with a byte is its own business. The relation
/// `on_byte` is the handler's own account of it; a handler that gives no
/// account admits any outcome. The record of a device states its effect
/// through that account, and so says nothing of a handler that does not
/// keep to the account it gives.
pub trait Uart: 'static {
    /// The handler's account of `rx`: true when one call with `byte`, on
    /// this handler and the transmit handle `transmitter`, can leave the
    /// handler `after` and the transmit handle `left`.
    open spec fn on_byte(&self, transmitter: UartTX, byte: u8, after: &Self, left: UartTX) -> bool {
        true
    }

    /// Runs once for each received byte.
    fn rx(&mut self, transmitter: &mut UartTX, byte: u8)
        ensures
            old(self).on_byte(*old(transmitter), byte, final(self), *final(transmitter)),
    ;
}

} // verus!
