use nextnode::events::{next_pending, EventFlags, EventPriority};
use nextnode::prcm::PrcmRegisters;
use nextnode::returncode::ReturnCode;
use nextnode::uart::{Error, Parity, StopBits, TransmitOutcome, UARTParameters, UART};

fn port() -> (UART, PrcmRegisters) {
    let mut regs = PrcmRegisters::new();
    let mut uart = UART::new(EventPriority::Uart0);
    uart.initialize(&mut regs, vec![0; 4]);
    (uart, regs)
}

#[test]
fn zero_length_transmit_rejected_synchronously_with_buffer() {
    let (mut uart, _regs) = port();
    match uart.transmit(vec![0xAA, 0xBB], 0, 16) {
        TransmitOutcome::Rejected(buffer, error) => {
            assert_eq!(buffer, vec![0xAA, 0xBB]);
            assert_eq!(error, Error::TxLenZero);
        }
        TransmitOutcome::Started(_) => panic!("zero-length request must not start"),
    }
}

#[test]
fn oversized_transmit_rejected_synchronously_with_buffer() {
    let (mut uart, _regs) = port();
    match uart.transmit(vec![0xAA, 0xBB], 3, 16) {
        TransmitOutcome::Rejected(buffer, error) => {
            assert_eq!(buffer, vec![0xAA, 0xBB]);
            assert_eq!(error, Error::TxLenLargerThanBuffer);
        }
        TransmitOutcome::Started(_) => panic!("oversized request must not start"),
    }
}

#[test]
fn transmit_writes_what_the_fifo_accepts() {
    let (mut uart, _regs) = port();
    let mut flags = EventFlags::new();
    // The FIFO accepts two bytes now; the other three follow interrupts.
    match uart.transmit(vec![1, 2, 3, 4, 5], 5, 2) {
        TransmitOutcome::Started(first) => assert_eq!(first, vec![1, 2]),
        TransmitOutcome::Rejected(_, _) => panic!("valid request rejected"),
    }
    // No completion yet: progress is 2 of 5.
    let (_rx, tx) = uart.handle_event(&mut flags);
    assert!(tx.is_none());
    let second = uart.handle_tx_interrupt(&mut flags, 2);
    assert_eq!(second, vec![3, 4]);
    let third = uart.handle_tx_interrupt(&mut flags, 8);
    assert_eq!(third, vec![5]);
    // Progress reached the requested length: the run loop completes it.
    let (_rx, tx) = uart.handle_event(&mut flags);
    let done = tx.expect("completion owed once index reaches length");
    assert_eq!(done.buffer, vec![1, 2, 3, 4, 5]);
    assert_eq!(done.error, Error::CommandComplete);
    // Exactly once: draining again delivers nothing.
    let (_rx, tx) = uart.handle_event(&mut flags);
    assert!(tx.is_none());
}

#[test]
fn completion_fires_after_single_shot_transmit() {
    let (mut uart, _regs) = port();
    let mut flags = EventFlags::new();
    match uart.transmit(vec![9, 8, 7], 3, 16) {
        TransmitOutcome::Started(first) => assert_eq!(first, vec![9, 8, 7]),
        TransmitOutcome::Rejected(_, _) => panic!("valid request rejected"),
    }
    let (_rx, tx) = uart.handle_event(&mut flags);
    let done = tx.expect("whole request fit the queue");
    assert_eq!(done.buffer, vec![9, 8, 7]);
    assert_eq!(done.error, Error::CommandComplete);
}

#[test]
fn receive_three_bytes_one_interrupt_each() {
    let (mut uart, _regs) = port();
    let mut flags = EventFlags::new();
    uart.receive(vec![0; 4]).unwrap();
    uart.handle_rx_interrupt(&mut flags, &vec![0x41]);
    uart.handle_rx_interrupt(&mut flags, &vec![0x42]);
    uart.handle_rx_interrupt(&mut flags, &vec![0x43]);
    // The interrupts only staged; the drain delivers exactly one
    // completion with all three bytes, after the third interrupt.
    let (rx, _tx) = uart.handle_event(&mut flags);
    let done = rx.expect("one receive completion owed");
    assert_eq!(done.byte_count, 3);
    assert_eq!(&done.buffer[0..3], &[0x41, 0x42, 0x43]);
    assert_eq!(done.error, Error::CommandComplete);
    // And never a second one for the same bytes.
    let (rx, _tx) = uart.handle_event(&mut flags);
    assert!(rx.is_none());
}

#[test]
fn rx_interrupt_sets_flag_and_drain_clears_it() {
    let (mut uart, _regs) = port();
    let mut flags = EventFlags::new();
    uart.receive(vec![0; 4]).unwrap();
    uart.handle_rx_interrupt(&mut flags, &vec![0x55]);
    assert_eq!(next_pending(&flags), Some(EventPriority::Uart0));
    let (rx, _tx) = uart.handle_event(&mut flags);
    assert!(rx.is_some());
    assert_eq!(next_pending(&flags), None);
}

#[test]
fn staging_capacity_bounds_a_burst() {
    let (mut uart, _regs) = port();
    let mut flags = EventFlags::new();
    uart.receive(vec![0; 4]).unwrap();
    // Six bytes arrive but the staging buffer holds four.
    uart.handle_rx_interrupt(&mut flags, &vec![1, 2, 3, 4, 5, 6]);
    let (rx, _tx) = uart.handle_event(&mut flags);
    let done = rx.expect("staged bytes owed");
    assert_eq!(done.byte_count, 4);
    assert_eq!(&done.buffer[0..4], &[1, 2, 3, 4]);
}

#[test]
fn staged_bytes_without_receive_buffer_are_dropped() {
    let (mut uart, _regs) = port();
    let mut flags = EventFlags::new();
    uart.handle_rx_interrupt(&mut flags, &vec![0x11, 0x22]);
    let (rx, _tx) = uart.handle_event(&mut flags);
    assert!(rx.is_none());
    // The staged bytes are gone; a later buffer sees only new data.
    uart.receive(vec![0; 4]).unwrap();
    uart.handle_rx_interrupt(&mut flags, &vec![0x33]);
    let (rx, _tx) = uart.handle_event(&mut flags);
    let done = rx.expect("new byte owed");
    assert_eq!(done.byte_count, 1);
    assert_eq!(done.buffer[0], 0x33);
}

#[test]
fn second_receive_buffer_is_rejected() {
    let (mut uart, _regs) = port();
    uart.receive(vec![0; 4]).unwrap();
    assert_eq!(uart.receive(vec![1; 4]), Err(vec![1; 4]));
}

#[test]
fn configure_computes_divisors_for_115200() {
    let (mut uart, _regs) = port();
    let code = uart.configure(UARTParameters {
        baud_rate: 115200,
        stop_bits: StopBits::One,
        parity: Parity::NoParity,
        hw_flow_control: false,
    });
    assert_eq!(code, ReturnCode::SUCCESS);
    // div = ((48 MHz * 8 / 115200) + 1) / 2 = 1667; 1667 / 64 and 1667 % 64.
    assert_eq!(uart.baud_divisors(), (26, 3));
}

#[test]
fn configure_rejects_unsupported_framing() {
    let (mut uart, _regs) = port();
    let two_stop = UARTParameters {
        baud_rate: 115200,
        stop_bits: StopBits::Two,
        parity: Parity::NoParity,
        hw_flow_control: false,
    };
    assert_eq!(uart.configure(two_stop), ReturnCode::ENOSUPPORT);
    let parity = UARTParameters {
        baud_rate: 115200,
        stop_bits: StopBits::One,
        parity: Parity::Even,
        hw_flow_control: false,
    };
    assert_eq!(uart.configure(parity), ReturnCode::ENOSUPPORT);
    let flow = UARTParameters {
        baud_rate: 115200,
        stop_bits: StopBits::One,
        parity: Parity::NoParity,
        hw_flow_control: true,
    };
    assert_eq!(uart.configure(flow), ReturnCode::ENOSUPPORT);
}

#[test]
fn initialize_powers_serial_domain_and_uart_clocks() {
    let (_uart, regs) = port();
    // Serial domain requested and reported on.
    assert_eq!(regs.pd_ctl0 & 0x2, 0x2);
    assert_eq!(regs.pd_stat0_serial & 0x1, 0x1);
    // Both UART clock gates open in every mode, settings committed.
    assert_eq!(regs.uart_clk_gate_run & 0x3, 0x3);
    assert_eq!(regs.uart_clk_gate_sleep & 0x3, 0x3);
    assert_eq!(regs.uart_clk_gate_deep_sleep & 0x3, 0x3);
    assert_eq!(regs.clk_load_ctl, 0x3);
}
