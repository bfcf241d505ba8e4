//! Framing of brace-delimited JSON messages on a byte-oriented serial link,
//! with the transmit queue and the device registry that go with it.

pub mod framing;
pub mod json;
pub mod json_parser;
pub mod registry;
pub mod strings;
pub mod traits;
pub mod uart;
pub mod uart_pins;
pub mod uart_tx;
pub mod uart_wrapper;
pub mod utils;
