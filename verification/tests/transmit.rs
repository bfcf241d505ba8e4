use wokwi_uart::traits::Uart;
use wokwi_uart::uart_tx::UartTX;
use wokwi_uart::uart_wrapper::UartWrapper;

/// Queues every received byte twice.
struct Doubler;

impl Uart for Doubler {
    fn rx(&mut self, transmitter: &mut UartTX, byte: u8) {
        transmitter.write_bytes(vec![byte, byte]);
    }
}

#[test]
fn new_handle_has_nothing_to_offer() {
    let tx = UartTX::new();
    assert_eq!(tx.device_id(), u32::MAX);
    assert_eq!(tx.try_write(), None);
}

#[test]
fn bytes_are_offered_in_the_order_queued() {
    let mut tx = UartTX::new();
    tx.write_byte(1);
    tx.write_bytes(vec![2, 3]);
    tx.write_bytes(Vec::new());
    tx.write_byte(4);
    assert_eq!(tx.try_write(), Some(vec![1, 2, 3, 4]));
    // An attempt alone takes nothing from the queue.
    assert_eq!(tx.try_write(), Some(vec![1, 2, 3, 4]));
}

#[test]
fn accepted_offer_empties_the_queue() {
    let mut wrapper = UartWrapper::from_uart(Doubler);
    assert_eq!(wrapper.on_uart_rx_data(10), Some(vec![10, 10]));
    wrapper.write_result(true);
    assert_eq!(wrapper.on_uart_write_done(), None);
    assert_eq!(wrapper.on_uart_rx_data(30), Some(vec![30, 30]));
}

#[test]
fn declined_offer_is_repeated_unchanged() {
    let mut wrapper = UartWrapper::from_uart(Doubler);
    let first = wrapper.on_uart_rx_data(b'h');
    assert_eq!(first, Some(vec![b'h', b'h']));
    wrapper.write_result(false);
    // The write-done notification leads to one more attempt.
    let second = wrapper.on_uart_write_done();
    assert_eq!(second, first);
    wrapper.write_result(true);
    assert_eq!(wrapper.on_uart_write_done(), None);
}

#[test]
fn bytes_queued_while_declined_join_the_next_offer() {
    let mut wrapper = UartWrapper::from_uart(Doubler);
    assert_eq!(wrapper.on_uart_rx_data(1), Some(vec![1, 1]));
    wrapper.write_result(false);
    assert_eq!(wrapper.on_uart_rx_data(3), Some(vec![1, 1, 3, 3]));
}

#[test]
fn answer_without_anything_queued_changes_nothing() {
    let mut wrapper = UartWrapper::from_uart(Doubler);
    wrapper.write_result(true);
    assert_eq!(wrapper.on_uart_write_done(), None);
    wrapper.write_result(false);
    assert_eq!(wrapper.on_uart_write_done(), None);
}

#[test]
fn identifier_reaches_the_handle() {
    let mut wrapper = UartWrapper::from_uart(Doubler);
    wrapper.on_uart_rx_data(7);
    wrapper.update_id(3);
    assert_eq!(wrapper.device_id(), 3);
    assert_eq!(wrapper.on_uart_write_done(), Some(vec![7, 7]));
}
