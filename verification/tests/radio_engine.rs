use nextnode::commands::{CmdNop, DirectCommand};
use nextnode::radio::{Fault, PowerAction, Radio, RadioCommands, RfcOperationStatus, State,
    RFC_STACK_DEPTH};
use nextnode::returncode::ReturnCode;

fn nop_command() -> RadioCommands {
    RadioCommands::Common(CmdNop::new())
}

#[test]
fn new_engine_is_at_baseline() {
    let mut radio = Radio::new();
    assert_eq!(radio.cmd_stack_depth(), 0);
    assert_eq!(radio.state_stack_depth(), 1);
    assert_eq!(radio.engine_state(), State::Start);
    assert_eq!(radio.current_command(), None);
}

#[test]
fn status_decoding_maps_raw_values() {
    assert_eq!(RfcOperationStatus::from(0), RfcOperationStatus::Idle);
    assert_eq!(RfcOperationStatus::from(4), RfcOperationStatus::SendDone);
    assert_eq!(RfcOperationStatus::from(5), RfcOperationStatus::TxDone);
    assert_eq!(RfcOperationStatus::from(6), RfcOperationStatus::CommandDone);
    assert_eq!(RfcOperationStatus::from(9), RfcOperationStatus::TxDone);
    // An unrecognized raw value decodes to Invalid, never to success.
    assert_eq!(RfcOperationStatus::from(10), RfcOperationStatus::Invalid);
    assert_eq!(RfcOperationStatus::from(usize::MAX), RfcOperationStatus::Invalid);
}

#[test]
fn default_command_is_a_nop() {
    assert_eq!(RadioCommands::default(), RadioCommands::Common(CmdNop::new()));
}

#[test]
fn busy_busy_success_retries_same_command_twice() {
    let mut radio = Radio::new();
    let cmd = nop_command();
    radio.submit(cmd).unwrap();

    // First poll: hardware busy. The same command stays staged.
    assert_eq!(
        radio.command(RfcOperationStatus::SendDone, ReturnCode::EBUSY),
        Ok(ReturnCode::EBUSY)
    );
    assert_eq!(radio.cmd_stack_depth(), 1);
    assert_eq!(radio.current_command(), Some(cmd));

    // Second poll: busy again. Still the same command, stacks unchanged.
    assert_eq!(
        radio.command(RfcOperationStatus::SendDone, ReturnCode::EBUSY),
        Ok(ReturnCode::EBUSY)
    );
    assert_eq!(radio.cmd_stack_depth(), 1);
    assert_eq!(radio.state_stack_depth(), 1);
    assert_eq!(radio.current_command(), Some(cmd));

    // Third poll: acknowledged. Success is reported and the command is
    // now executing, still staged for its completion.
    assert_eq!(
        radio.command(RfcOperationStatus::SendDone, ReturnCode::SUCCESS),
        Ok(ReturnCode::SUCCESS)
    );
    assert_eq!(radio.current_command(), Some(cmd));
    assert_eq!(
        radio.engine_state(),
        State::CommandStatus(RfcOperationStatus::SendDone)
    );
}

#[test]
fn success_ack_then_cancelled_completion_restores_baseline() {
    let mut radio = Radio::new();
    radio.submit(nop_command()).unwrap();
    assert_eq!(
        radio.command(RfcOperationStatus::SendDone, ReturnCode::SUCCESS),
        Ok(ReturnCode::SUCCESS)
    );
    // Hardware reports the command cancelled on completion: the exact
    // outcome is propagated and both stacks return to depth-0 baseline.
    assert_eq!(
        radio.command(RfcOperationStatus::CommandDone, ReturnCode::ECANCEL),
        Ok(ReturnCode::ECANCEL)
    );
    assert_eq!(radio.cmd_stack_depth(), 0);
    assert_eq!(radio.state_stack_depth(), 1);
    assert_eq!(radio.engine_state(), State::Done);
}

#[test]
fn completion_propagates_failure_verbatim() {
    let mut radio = Radio::new();
    radio.submit(nop_command()).unwrap();
    radio
        .command(RfcOperationStatus::SendDone, ReturnCode::SUCCESS)
        .unwrap();
    assert_eq!(
        radio.command(RfcOperationStatus::CommandDone, ReturnCode::FAIL),
        Ok(ReturnCode::FAIL)
    );
    assert_eq!(radio.cmd_stack_depth(), 0);
    assert_eq!(radio.state_stack_depth(), 1);
}

#[test]
fn invalid_ack_abandons_the_command() {
    let mut radio = Radio::new();
    radio.submit(nop_command()).unwrap();
    assert_eq!(
        radio.command(RfcOperationStatus::SendDone, ReturnCode::EINVAL),
        Ok(ReturnCode::EINVAL)
    );
    assert_eq!(radio.cmd_stack_depth(), 0);
    assert_eq!(radio.state_stack_depth(), 1);
}

#[test]
fn unknown_ack_answer_reports_unsupported() {
    let mut radio = Radio::new();
    radio.submit(nop_command()).unwrap();
    assert_eq!(
        radio.command(RfcOperationStatus::SendDone, ReturnCode::ECANCEL),
        Ok(ReturnCode::ENOSUPPORT)
    );
    assert_eq!(radio.cmd_stack_depth(), 0);
}

#[test]
fn poll_without_command_is_a_reported_underflow() {
    let mut radio = Radio::new();
    assert_eq!(
        radio.command(RfcOperationStatus::SendDone, ReturnCode::SUCCESS),
        Err(Fault::StackUnderflow)
    );
    // The fault is not fatal: the engine is unchanged and usable.
    assert_eq!(radio.state_stack_depth(), 1);
    radio.submit(nop_command()).unwrap();
    assert_eq!(
        radio.command(RfcOperationStatus::SendDone, ReturnCode::SUCCESS),
        Ok(ReturnCode::SUCCESS)
    );
}

#[test]
fn unexpected_status_is_a_reported_fault() {
    let mut radio = Radio::new();
    radio.submit(nop_command()).unwrap();
    assert_eq!(
        radio.command(RfcOperationStatus::Invalid, ReturnCode::SUCCESS),
        Err(Fault::UnexpectedStatus)
    );
    assert_eq!(radio.engine_state(), State::Invalid);
    assert_eq!(radio.cmd_stack_depth(), 1);
}

#[test]
fn submitting_past_the_stack_depth_is_a_reported_overflow() {
    let mut radio = Radio::new();
    for _ in 0..RFC_STACK_DEPTH {
        radio.submit(nop_command()).unwrap();
    }
    assert_eq!(radio.cmd_stack_depth(), RFC_STACK_DEPTH);
    assert_eq!(radio.submit(nop_command()), Err(Fault::StackOverflow));
    assert_eq!(radio.cmd_stack_depth(), RFC_STACK_DEPTH);
}

#[test]
fn submit_stages_the_given_command() {
    let mut radio = Radio::new();
    let direct = RadioCommands::Direct(DirectCommand::new(0x0406, 0));
    radio.submit(direct).unwrap();
    assert_eq!(radio.current_command(), Some(direct));
    assert_eq!(radio.engine_state(), State::Pending);
}

#[test]
fn power_up_sequence_is_ordered() {
    let mut radio = Radio::new();
    let actions = radio.power_up();
    assert_eq!(
        actions,
        vec![
            PowerAction::SetRfMode,
            PowerAction::RequestHfXosc,
            PowerAction::EnableRfCore,
            PowerAction::StartRadioTimer,
            PowerAction::SwitchToHfXosc,
            PowerAction::ApplyRegOverrides,
        ]
    );
}

#[test]
fn transmit_powers_up_once_and_stages_buffer() {
    let mut radio = Radio::new();
    let start = radio.transmit(vec![1, 2, 3], 3);
    assert_eq!(start.code, ReturnCode::SUCCESS);
    assert!(start.returned_buffer.is_none());
    assert_eq!(start.actions.len(), 6);
    // The buffer comes back through the transmit-done event.
    let done = radio.tx_done().unwrap();
    assert_eq!(done.buffer, vec![1, 2, 3]);
    assert_eq!(done.code, ReturnCode::SUCCESS);
    assert!(done.actions.is_empty());
    // A second transmit finds the core already powered.
    let start = radio.transmit(vec![4], 1);
    assert_eq!(start.code, ReturnCode::SUCCESS);
    assert!(start.actions.is_empty());
}

#[test]
fn malformed_transmit_hands_buffer_straight_back() {
    let mut radio = Radio::new();
    let start = radio.transmit(vec![1, 2], 0);
    assert_eq!(start.code, ReturnCode::EINVAL);
    assert_eq!(start.returned_buffer, Some(vec![1, 2]));
    assert!(start.actions.is_empty());
    let start = radio.transmit(vec![1, 2], 3);
    assert_eq!(start.code, ReturnCode::ESIZE);
    assert_eq!(start.returned_buffer, Some(vec![1, 2]));
    assert!(start.actions.is_empty());
}

#[test]
fn transmit_while_staged_is_busy() {
    let mut radio = Radio::new();
    assert_eq!(radio.transmit(vec![1], 1).code, ReturnCode::SUCCESS);
    let second = radio.transmit(vec![2], 1);
    assert_eq!(second.code, ReturnCode::EBUSY);
    assert_eq!(second.returned_buffer, Some(vec![2]));
}

#[test]
fn tx_done_without_staged_buffer_is_a_reported_fault() {
    let mut radio = Radio::new();
    assert!(matches!(radio.tx_done(), Err(Fault::NoStagedBuffer)));
}

#[test]
fn scheduled_powerdown_runs_on_tx_done() {
    let mut radio = Radio::new();
    radio.transmit(vec![5], 1);
    radio.schedule_powerdown(true);
    let done = radio.tx_done().unwrap();
    assert_eq!(
        done.actions,
        vec![PowerAction::DisableRfCore, PowerAction::SwitchToHfRcosc]
    );
    // The schedule is consumed: the next transmit-done powers nothing down.
    radio.transmit(vec![6], 1);
    let done = radio.tx_done().unwrap();
    assert!(done.actions.is_empty());
}

#[test]
fn power_down_disables_the_core() {
    let mut radio = Radio::new();
    radio.power_up();
    let actions = radio.power_down();
    assert_eq!(actions, vec![PowerAction::DisableRfCore]);
}
