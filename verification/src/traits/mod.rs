//! What an application implements to be told of received data.

pub mod json_uart;
pub mod uart;

pub use json_uart::{UartJson, UartJsonInner};
pub use uart::Uart;
