//! Radio command engine.
//!
//! The engine sequences typed binary commands against the RF coprocessor
//! through a two-phase hardware acknowledgment protocol: a submitted
//! command is first acknowledged by the command register (the ack phase,
//! polled with `RfcOperationStatus::SendDone`), then runs to completion
//! (the completion phase, polled with `RfcOperationStatus::CommandDone`).
//! A busy answer in either phase re-stages the same command and asks the
//! caller to re-issue the same poll; the engine is then exactly as it was
//! before the poll, so retries never grow the stacks.
//!
//! Hardware stays outside: the run loop reads the acknowledgment or
//! completion register and hands the decoded answer to `command`, performs
//! the `PowerAction`s the power sequencing returns, in order, and delivers
//! the buffers `tx_done` hands back. Protocol violations — an unrecognized
//! status, a push on a full stack, a pop from an empty one, a completion
//! with no staged buffer — are reported as a distinct `Fault`, never
//! silently swallowed and never conflated with a hardware answer.

use vstd::prelude::*;

use crate::commands::{CmdFSPowerup, CmdFsPowerdown, CmdNop, CmdRadioSetup, CmdSyncStartRat,
    CmdSyncStopRat, DirectCommand, RfcCondition};
use crate::returncode::ReturnCode;
use crate::slot::BufferSlot;
use crate::stack;
use fixedvec::FixedVec;

verus! {

/// Depth of the command and state stacks: the deepest nesting the
/// coprocessor protocol requires.
pub const RFC_STACK_DEPTH: usize = 6;

/// Hardware-reported operation status, decoded from a raw status value.
/// An unrecognized value decodes to `Invalid` and is never treated as
/// success.
#[derive(Debug, Clone, Copy, PartialEq, Eq, Structural)]
pub enum RfcOperationStatus {
    Idle,
    Pending,
    Active,
    Skipped,
    SendDone,
    TxDone,
    CommandDone,
    LastCommandDone,
    RxOk,
    Invalid,
}

impl RfcOperationStatus {
    /// Raw values 0 through 9 decode in declaration order, except that 9,
    /// like 5, names a finished transmission; anything else is `Invalid`.
    pub open spec fn spec_from_usize(val: usize) -> RfcOperationStatus {
        if val == 0 {
            RfcOperationStatus::Idle
        } else if val == 1 {
            RfcOperationStatus::Pending
        } else if val == 2 {
            RfcOperationStatus::Active
        } else if val == 3 {
            RfcOperationStatus::Skipped
        } else if val == 4 {
            RfcOperationStatus::SendDone
        } else if val == 5 {
            RfcOperationStatus::TxDone
        } else if val == 6 {
            RfcOperationStatus::CommandDone
        } else if val == 7 {
            RfcOperationStatus::LastCommandDone
        } else if val == 8 {
            RfcOperationStatus::RxOk
        } else if val == 9 {
            RfcOperationStatus::TxDone
        } else {
            RfcOperationStatus::Invalid
        }
    }
}

impl From<usize> for RfcOperationStatus {
    fn from(val: usize) -> (r: RfcOperationStatus) {
        match val {
            0 => RfcOperationStatus::Idle,
            1 => RfcOperationStatus::Pending,
            2 => RfcOperationStatus::Active,
            3 => RfcOperationStatus::Skipped,
            4 => RfcOperationStatus::SendDone,
            5 => RfcOperationStatus::TxDone,
            6 => RfcOperationStatus::CommandDone,
            7 => RfcOperationStatus::LastCommandDone,
            8 => RfcOperationStatus::RxOk,
            9 => RfcOperationStatus::TxDone,
            _ => RfcOperationStatus::Invalid,
        }
    }
}

impl vstd::std_specs::convert::FromSpecImpl<usize> for RfcOperationStatus {
    open spec fn obeys_from_spec() -> bool {
        true
    }

    open spec fn from_spec(val: usize) -> RfcOperationStatus {
        RfcOperationStatus::spec_from_usize(val)
    }
}

/// What the engine is currently waiting for.
#[derive(Debug, Clone, Copy, PartialEq, Eq, Structural)]
pub enum State {
    Start,
    Pending,
    CommandStatus(RfcOperationStatus),
    Command(RadioCommands),
    Done,
    Invalid,
}

/// A command the engine can sequence, tagged over the binary command
/// records.
#[derive(Debug, Clone, Copy, PartialEq, Eq, Structural)]
pub enum RadioCommands {
    Direct(DirectCommand),
    RadioSetup(CmdRadioSetup),
    Common(CmdNop),
    FSPowerup(CmdFSPowerup),
    FSPowerdown(CmdFsPowerdown),
    StartRat(CmdSyncStartRat),
    StopRat(CmdSyncStopRat),
    NotSupported,
}

impl Default for RadioCommands {
    fn default() -> (r: RadioCommands)
        ensures
            r == RadioCommands::Common(
                CmdNop {
                    command_no: 0x0801u16,
                    status: 0u16,
                    p_next_op: 0u32,
                    start_time: 0u32,
                    start_trigger: 0u8,
                    condition: RfcCondition(1),
                },
            ),
    {
        RadioCommands::Common(CmdNop::new())
    }
}

/// A protocol violation, reported as its own category: distinct from a
/// caller error and from any hardware-reported answer, and never fatal to
/// the rest of the device.
#[derive(Debug, Clone, Copy, PartialEq, Eq, Structural)]
pub enum Fault {
    /// A push was attempted on a full command or state stack.
    StackOverflow,
    /// A pop was attempted on an empty command or state stack.
    StackUnderflow,
    /// A status poll carried a status the engine does not handle.
    UnexpectedStatus,
    /// A transmit-done event fired with no staged transmit buffer.
    NoStagedBuffer,
}

/// One step of the power-up or power-down sequence, performed by the board
/// layer in exactly the order handed out.
#[derive(Debug, Clone, Copy, PartialEq, Eq, Structural)]
pub enum PowerAction {
    /// Select the coprocessor operating mode.
    SetRfMode,
    /// Request the switch of the system clock to the high-frequency
    /// crystal oscillator; asynchronous, does not block.
    RequestHfXosc,
    /// Enable the RF core power domain and clock.
    EnableRfCore,
    /// Start the radio's internal timer.
    StartRadioTimer,
    /// Wait for the oscillator switch to complete, then commit it.
    SwitchToHfXosc,
    /// Apply the chip-specific register-override patch table through the
    /// coprocessor's setup command.
    ApplyRegOverrides,
    /// Disable the RF core power domain.
    DisableRfCore,
    /// Switch the system clock back to the low-power RC oscillator.
    SwitchToHfRcosc,
}

/// The system clock's oscillator source, as the engine has sequenced it.
#[derive(Debug, Clone, Copy, PartialEq, Eq, Structural)]
pub enum OscSource {
    /// The low-power RC oscillator.
    LowPowerRc,
    /// The high-frequency crystal oscillator.
    HighFreqXosc,
}

/// The power-up sequence. The order is load-bearing: the coprocessor's
/// clock-domain assumptions break if it is reordered.
pub open spec fn spec_power_up_actions() -> Seq<PowerAction> {
    seq![
        PowerAction::SetRfMode,
        PowerAction::RequestHfXosc,
        PowerAction::EnableRfCore,
        PowerAction::StartRadioTimer,
        PowerAction::SwitchToHfXosc,
        PowerAction::ApplyRegOverrides,
    ]
}

/// The power-down sequence run from a transmit-done event.
pub open spec fn spec_power_down_actions() -> Seq<PowerAction> {
    seq![PowerAction::DisableRfCore, PowerAction::SwitchToHfRcosc]
}

/// What a transmit request does immediately.
pub struct TransmitStart {
    /// `SUCCESS` when the buffer was staged; a caller error or `EBUSY`
    /// otherwise.
    pub code: ReturnCode,
    /// The caller's buffer, handed straight back unless it was staged.
    pub returned_buffer: Option<Vec<u8>>,
    /// Power-up steps for the board layer to perform, in order.
    pub actions: Vec<PowerAction>,
}

/// What a transmit-done hardware event yields.
pub struct TxDoneOutcome {
    /// The staged buffer, returned to the client exactly once.
    pub buffer: Vec<u8>,
    /// The code delivered with the client callback.
    pub code: ReturnCode,
    /// Power-down steps for the board layer to perform, in order.
    pub actions: Vec<PowerAction>,
}

/// The radio engine.
pub struct Radio {
    state: State,
    schedule_powerdown: bool,
    tx_buf: BufferSlot<Vec<u8>>,
    cmd_stack: FixedVec<'static, RadioCommands>,
    state_stack: FixedVec<'static, State>,
    rf_core_on: bool,
    osc: OscSource,
}

impl Radio {
    /// What the engine is currently waiting for.
    pub closed spec fn spec_engine_state(&self) -> State {
        self.state
    }

    /// Whether a power-down is scheduled for the next transmit-done event.
    pub closed spec fn spec_powerdown_scheduled(&self) -> bool {
        self.schedule_powerdown
    }

    /// The staged transmit buffer, if any.
    pub closed spec fn spec_tx_buffer(&self) -> Option<Vec<u8>> {
        self.tx_buf@
    }

    /// The in-flight commands, bottom first.
    pub closed spec fn spec_cmds(&self) -> Seq<RadioCommands> {
        stack::spec_cmd_stack(self.cmd_stack)
    }

    /// The waiting-on states, bottom first.
    pub closed spec fn spec_states(&self) -> Seq<State> {
        stack::spec_state_stack(self.state_stack)
    }

    /// The command stack's capacity.
    pub closed spec fn spec_cmd_capacity(&self) -> nat {
        stack::spec_cmd_stack_capacity(self.cmd_stack)
    }

    /// The state stack's capacity.
    pub closed spec fn spec_state_capacity(&self) -> nat {
        stack::spec_state_stack_capacity(self.state_stack)
    }

    /// Whether the RF core is powered.
    pub closed spec fn spec_rf_core_on(&self) -> bool {
        self.rf_core_on
    }

    /// The oscillator source the engine has sequenced.
    pub closed spec fn spec_osc(&self) -> OscSource {
        self.osc
    }

    /// Engine invariant: both stacks carry the protocol depth as their
    /// capacity and never hold more.
    pub open spec fn wf(&self) -> bool {
        &&& self.spec_cmd_capacity() == RFC_STACK_DEPTH
        &&& self.spec_state_capacity() == RFC_STACK_DEPTH
        &&& self.spec_cmds().len() <= self.spec_cmd_capacity()
        &&& self.spec_states().len() <= self.spec_state_capacity()
    }

    /// The baseline both stacks return to between transactions: no
    /// command in flight, and only the initial state staged.
    pub open spec fn spec_at_baseline(&self) -> bool {
        &&& self.spec_cmds() == Seq::<RadioCommands>::empty()
        &&& self.spec_states() == seq![State::Start]
    }

    /// Whether two engines agree on everything but the stacks and the
    /// waiting-on state.
    pub open spec fn spec_same_power(a: Radio, b: Radio) -> bool {
        &&& a.spec_tx_buffer() == b.spec_tx_buffer()
        &&& a.spec_powerdown_scheduled() == b.spec_powerdown_scheduled()
        &&& a.spec_rf_core_on() == b.spec_rf_core_on()
        &&& a.spec_osc() == b.spec_osc()
    }

    /// Whether two engines agree on the stacks and the waiting-on state.
    pub open spec fn spec_same_engine(a: Radio, b: Radio) -> bool {
        &&& a.spec_cmds() == b.spec_cmds()
        &&& a.spec_states() == b.spec_states()
        &&& a.spec_engine_state() == b.spec_engine_state()
    }

    /// A fresh engine: stacks at the protocol depth, the initial state
    /// staged, no buffer, RF core off, low-power oscillator.
    pub fn new() -> (r: Radio)
        ensures
            r.wf(),
            r.spec_at_baseline(),
            r.spec_engine_state() == State::Start,
            !r.spec_powerdown_scheduled(),
            r.spec_tx_buffer() is None,
            !r.spec_rf_core_on(),
            r.spec_osc() == OscSource::LowPowerRc,
    {
        let mut state_stack = stack::new_state_stack(State::Start, RFC_STACK_DEPTH);
        let pushed = stack::state_stack_push(&mut state_stack, State::Start);
        proof {
            assert(pushed is Ok);
            assert(stack::spec_state_stack(state_stack) =~= seq![State::Start]);
        }
        Radio {
            state: State::Start,
            schedule_powerdown: false,
            tx_buf: BufferSlot::empty(),
            cmd_stack: stack::new_cmd_stack(RadioCommands::NotSupported, RFC_STACK_DEPTH),
            state_stack,
            rf_core_on: false,
            osc: OscSource::LowPowerRc,
        }
    }

    /// How many commands are in flight.
    pub fn cmd_stack_depth(&self) -> (r: usize)
        ensures
            r as nat == self.spec_cmds().len(),
    {
        stack::cmd_stack_len(&self.cmd_stack)
    }

    /// How many waiting-on states are staged.
    pub fn state_stack_depth(&self) -> (r: usize)
        ensures
            r as nat == self.spec_states().len(),
    {
        stack::state_stack_len(&self.state_stack)
    }

    /// What the engine is currently waiting for.
    pub fn engine_state(&self) -> (r: State)
        ensures
            r == self.spec_engine_state(),
    {
        self.state
    }

    /// The command currently staged on top of the stack, if any.
    pub fn current_command(&mut self) -> (r: Option<RadioCommands>)
        requires
            old(self).wf(),
        ensures
            final(self).wf(),
            Radio::spec_same_engine(*final(self), *old(self)),
            Radio::spec_same_power(*final(self), *old(self)),
            final(self).spec_cmd_capacity() == old(self).spec_cmd_capacity(),
            final(self).spec_state_capacity() == old(self).spec_state_capacity(),
            old(self).spec_cmds().len() > 0 ==> r == Some(old(self).spec_cmds().last()),
            old(self).spec_cmds().len() == 0 ==> r is None,
    {
        match stack::cmd_stack_pop(&mut self.cmd_stack) {
            Some(c) => {
                let pushed = stack::cmd_stack_push(&mut self.cmd_stack, c);
                proof {
                    assert(pushed is Ok);
                    assert(stack::spec_cmd_stack(self.cmd_stack) =~= stack::spec_cmd_stack(
                        old(self).cmd_stack,
                    ));
                }
                Some(c)
            },
            None => None,
        }
    }

    /// Stage a command for submission to the hardware command register.
    /// A full stack is a protocol violation and is reported, leaving the
    /// engine unchanged.
    pub fn submit(&mut self, cmd: RadioCommands) -> (r: Result<(), Fault>)
        requires
            old(self).wf(),
        ensures
            final(self).wf(),
            Radio::spec_same_power(*final(self), *old(self)),
            old(self).spec_cmds().len() < RFC_STACK_DEPTH ==> {
                &&& r == Ok::<(), Fault>(())
                &&& final(self).spec_cmds() == old(self).spec_cmds().push(cmd)
                &&& final(self).spec_states() == old(self).spec_states()
                &&& final(self).spec_engine_state() == State::Pending
            },
            old(self).spec_cmds().len() >= RFC_STACK_DEPTH ==> r == Err::<(), Fault>(
                Fault::StackOverflow,
            ) && Radio::spec_same_engine(*final(self), *old(self)),
    {
        match stack::cmd_stack_push(&mut self.cmd_stack, cmd) {
            Ok(()) => {
                self.state = State::Pending;
                Ok(())
            },
            Err(()) => Err(Fault::StackOverflow),
        }
    }

    /// Run the power-up sequence and return its steps, in the order the
    /// board layer must perform them. Afterwards the RF core is powered
    /// and the system clock runs from the crystal oscillator.
    pub fn power_up(&mut self) -> (r: Vec<PowerAction>)
        ensures
            r@ == spec_power_up_actions(),
            final(self).spec_rf_core_on(),
            final(self).spec_osc() == OscSource::HighFreqXosc,
            Radio::spec_same_engine(*final(self), *old(self)),
            final(self).spec_tx_buffer() == old(self).spec_tx_buffer(),
            final(self).spec_powerdown_scheduled() == old(self).spec_powerdown_scheduled(),
            final(self).spec_cmd_capacity() == old(self).spec_cmd_capacity(),
            final(self).spec_state_capacity() == old(self).spec_state_capacity(),
    {
        let mut actions: Vec<PowerAction> = Vec::new();
        actions.push(PowerAction::SetRfMode);
        actions.push(PowerAction::RequestHfXosc);
        actions.push(PowerAction::EnableRfCore);
        actions.push(PowerAction::StartRadioTimer);
        actions.push(PowerAction::SwitchToHfXosc);
        actions.push(PowerAction::ApplyRegOverrides);
        self.rf_core_on = true;
        self.osc = OscSource::HighFreqXosc;
        proof {
            assert(actions@ =~= spec_power_up_actions());
        }
        actions
    }

    /// Power the RF core down.
    pub fn power_down(&mut self) -> (r: Vec<PowerAction>)
        ensures
            r@ == seq![PowerAction::DisableRfCore],
            !final(self).spec_rf_core_on(),
            final(self).spec_osc() == old(self).spec_osc(),
            Radio::spec_same_engine(*final(self), *old(self)),
            final(self).spec_tx_buffer() == old(self).spec_tx_buffer(),
            final(self).spec_powerdown_scheduled() == old(self).spec_powerdown_scheduled(),
            final(self).spec_cmd_capacity() == old(self).spec_cmd_capacity(),
            final(self).spec_state_capacity() == old(self).spec_state_capacity(),
    {
        let mut actions: Vec<PowerAction> = Vec::new();
        actions.push(PowerAction::DisableRfCore);
        self.rf_core_on = false;
        proof {
            assert(actions@ =~= seq![PowerAction::DisableRfCore]);
        }
        actions
    }

    /// Schedule or cancel a power-down for the next transmit-done event.
    pub fn schedule_powerdown(&mut self, schedule: bool)
        ensures
            final(self).spec_powerdown_scheduled() == schedule,
            Radio::spec_same_engine(*final(self), *old(self)),
            final(self).spec_tx_buffer() == old(self).spec_tx_buffer(),
            final(self).spec_rf_core_on() == old(self).spec_rf_core_on(),
            final(self).spec_osc() == old(self).spec_osc(),
            final(self).spec_cmd_capacity() == old(self).spec_cmd_capacity(),
            final(self).spec_state_capacity() == old(self).spec_state_capacity(),
    {
        self.schedule_powerdown = schedule;
    }

    /// Request a transmit of the first `len` bytes of `buf`. A malformed
    /// request — zero length, or a length beyond the buffer — is a caller
    /// error, rejected with the buffer handed straight back and no
    /// hardware interaction. A request while a buffer is already staged is
    /// busy. Otherwise the buffer is staged, and if the RF core is off the
    /// power-up steps are returned for the board layer to perform first.
    pub fn transmit(&mut self, buf: Vec<u8>, len: usize) -> (r: TransmitStart)
        requires
            old(self).wf(),
        ensures
            final(self).wf(),
            Radio::spec_same_engine(*final(self), *old(self)),
            final(self).spec_cmd_capacity() == old(self).spec_cmd_capacity(),
            final(self).spec_state_capacity() == old(self).spec_state_capacity(),
            len == 0 ==> {
                &&& r.code == ReturnCode::EINVAL
                &&& r.returned_buffer == Some(buf)
                &&& r.actions@ == Seq::<PowerAction>::empty()
                &&& Radio::spec_same_power(*final(self), *old(self))
            },
            len >= 1 && len > buf@.len() ==> {
                &&& r.code == ReturnCode::ESIZE
                &&& r.returned_buffer == Some(buf)
                &&& r.actions@ == Seq::<PowerAction>::empty()
                &&& Radio::spec_same_power(*final(self), *old(self))
            },
            1 <= len <= buf@.len() && old(self).spec_tx_buffer() is Some ==> {
                &&& r.code == ReturnCode::EBUSY
                &&& r.returned_buffer == Some(buf)
                &&& r.actions@ == Seq::<PowerAction>::empty()
                &&& Radio::spec_same_power(*final(self), *old(self))
            },
            1 <= len <= buf@.len() && old(self).spec_tx_buffer() is None ==> {
                &&& r.code == ReturnCode::SUCCESS
                &&& r.returned_buffer is None
                &&& final(self).spec_tx_buffer() == Some(buf)
                &&& r.actions@ == if old(self).spec_rf_core_on() {
                    Seq::<PowerAction>::empty()
                } else {
                    spec_power_up_actions()
                }
                &&& final(self).spec_rf_core_on()
                &&& final(self).spec_powerdown_scheduled() == old(self).spec_powerdown_scheduled()
            },
    {
        if len == 0 {
            return TransmitStart {
                code: ReturnCode::EINVAL,
                returned_buffer: Some(buf),
                actions: Vec::new(),
            };
        }
        if len > buf.len() {
            return TransmitStart {
                code: ReturnCode::ESIZE,
                returned_buffer: Some(buf),
                actions: Vec::new(),
            };
        }
        if self.tx_buf.is_occupied() {
            return TransmitStart {
                code: ReturnCode::EBUSY,
                returned_buffer: Some(buf),
                actions: Vec::new(),
            };
        }
        let actions: Vec<PowerAction> = if !self.rf_core_on {
            self.power_up()
        } else {
            Vec::new()
        };
        let staged = self.tx_buf.put(buf);
        proof {
            assert(staged is Ok);
        }
        TransmitStart { code: ReturnCode::SUCCESS, returned_buffer: None, actions }
    }

    /// Handle the transmit-done hardware event: run the power-down
    /// sequence if one was scheduled, then hand the staged buffer back for
    /// the client's completion callback. Firing with no staged buffer is a
    /// protocol violation and is reported, with the engine unchanged.
    pub fn tx_done(&mut self) -> (r: Result<TxDoneOutcome, Fault>)
        requires
            old(self).wf(),
        ensures
            final(self).wf(),
            Radio::spec_same_engine(*final(self), *old(self)),
            final(self).spec_cmd_capacity() == old(self).spec_cmd_capacity(),
            final(self).spec_state_capacity() == old(self).spec_state_capacity(),
            old(self).spec_tx_buffer() is None ==> r == Err::<TxDoneOutcome, Fault>(
                Fault::NoStagedBuffer,
            ) && Radio::spec_same_power(*final(self), *old(self)),
            old(self).spec_tx_buffer() is Some ==> {
                &&& r matches Ok(out)
                &&& Some(out.buffer) == old(self).spec_tx_buffer()
                &&& out.code == ReturnCode::SUCCESS
                &&& final(self).spec_tx_buffer() is None
                &&& !final(self).spec_powerdown_scheduled()
                &&& out.actions@ == if old(self).spec_powerdown_scheduled() {
                    spec_power_down_actions()
                } else {
                    Seq::<PowerAction>::empty()
                }
                &&& final(self).spec_rf_core_on() == (old(self).spec_rf_core_on() && !old(
                    self,
                ).spec_powerdown_scheduled())
                &&& final(self).spec_osc() == if old(self).spec_powerdown_scheduled() {
                    OscSource::LowPowerRc
                } else {
                    old(self).spec_osc()
                }
            },
    {
        if !self.tx_buf.is_occupied() {
            return Err(Fault::NoStagedBuffer);
        }
        let mut actions: Vec<PowerAction> = Vec::new();
        if self.schedule_powerdown {
            actions.push(PowerAction::DisableRfCore);
            actions.push(PowerAction::SwitchToHfRcosc);
            self.rf_core_on = false;
            self.osc = OscSource::LowPowerRc;
            self.schedule_powerdown = false;
            proof {
                assert(actions@ =~= spec_power_down_actions());
            }
        }
        let buf = self.tx_buf.take();
        match buf {
            Some(buffer) => Ok(TxDoneOutcome { buffer, code: ReturnCode::SUCCESS, actions }),
            None => Err(Fault::NoStagedBuffer),
        }
    }
}

/// The state stack after a finished transaction's markers are removed:
/// the completion poll's own marker is already off, and the ack phase's
/// marker comes off with it when it is on top.
pub open spec fn spec_pop_ack_marker(states: Seq<State>) -> Seq<State> {
    if states.len() > 0 && states.last() == State::CommandStatus(RfcOperationStatus::SendDone) {
        states.drop_last()
    } else {
        states
    }
}

/// The exact transition `Radio::command` makes: from the engine `pre`,
/// polled with `status` while the hardware answered `hw`, to the engine
/// `post` with result `r`.
pub open spec fn spec_command_transition(
    pre: Radio,
    status: RfcOperationStatus,
    hw: ReturnCode,
    post: Radio,
    r: Result<ReturnCode, Fault>,
) -> bool {
    &&& Radio::spec_same_power(pre, post)
    &&& post.spec_cmd_capacity() == pre.spec_cmd_capacity()
    &&& post.spec_state_capacity() == pre.spec_state_capacity()
    &&& if status != RfcOperationStatus::SendDone && status != RfcOperationStatus::CommandDone {
        // Unrecognized or garbled status: fatal for this transaction.
        &&& r == Err::<ReturnCode, Fault>(Fault::UnexpectedStatus)
        &&& post.spec_cmds() == pre.spec_cmds()
        &&& post.spec_states() == pre.spec_states()
        &&& post.spec_engine_state() == State::Invalid
    } else if pre.spec_cmds().len() == 0 {
        // Pop on an empty command stack: reported, engine unchanged.
        &&& r == Err::<ReturnCode, Fault>(Fault::StackUnderflow)
        &&& Radio::spec_same_engine(pre, post)
    } else if pre.spec_states().len() >= pre.spec_state_capacity() {
        // Push on a full state stack: reported, engine unchanged.
        &&& r == Err::<ReturnCode, Fault>(Fault::StackOverflow)
        &&& Radio::spec_same_engine(pre, post)
    } else if status == RfcOperationStatus::SendDone {
        // Acknowledgment phase.
        if hw == ReturnCode::SUCCESS {
            // Command acknowledged and now executing: keep it staged and
            // record that the engine waits on its completion.
            &&& r == Ok::<ReturnCode, Fault>(ReturnCode::SUCCESS)
            &&& post.spec_cmds() == pre.spec_cmds()
            &&& post.spec_states() == pre.spec_states().push(
                State::CommandStatus(RfcOperationStatus::SendDone),
            )
            &&& post.spec_engine_state() == State::CommandStatus(RfcOperationStatus::SendDone)
        } else if hw == ReturnCode::EBUSY {
            // Busy: re-stage the same command; the caller re-issues the
            // same poll against an unchanged engine.
            &&& r == Ok::<ReturnCode, Fault>(ReturnCode::EBUSY)
            &&& Radio::spec_same_engine(pre, post)
        } else if hw == ReturnCode::EINVAL {
            // Invalid parameter: abandon the command.
            &&& r == Ok::<ReturnCode, Fault>(ReturnCode::EINVAL)
            &&& post.spec_cmds() == pre.spec_cmds().drop_last()
            &&& post.spec_states() == pre.spec_states()
            &&& post.spec_engine_state() == State::Done
        } else {
            // Any other answer: abandon the command, report unsupported.
            &&& r == Ok::<ReturnCode, Fault>(ReturnCode::ENOSUPPORT)
            &&& post.spec_cmds() == pre.spec_cmds().drop_last()
            &&& post.spec_states() == pre.spec_states()
            &&& post.spec_engine_state() == State::Done
        }
    } else {
        // Completion phase.
        if hw == ReturnCode::EBUSY {
            // Busy: re-stage the same command; the caller re-issues the
            // same poll against an unchanged engine.
            &&& r == Ok::<ReturnCode, Fault>(ReturnCode::EBUSY)
            &&& Radio::spec_same_engine(pre, post)
        } else {
            // The transaction finishes: success, cancellation and failure
            // propagate verbatim, anything else reports unsupported; the
            // command is consumed and the transaction's markers come off
            // the state stack.
            &&& r == Ok::<ReturnCode, Fault>(
                if hw == ReturnCode::SUCCESS {
                    ReturnCode::SUCCESS
                } else if hw == ReturnCode::ECANCEL {
                    ReturnCode::ECANCEL
                } else if hw == ReturnCode::FAIL {
                    ReturnCode::FAIL
                } else {
                    ReturnCode::ENOSUPPORT
                },
            )
            &&& post.spec_cmds() == pre.spec_cmds().drop_last()
            &&& post.spec_states() == spec_pop_ack_marker(pre.spec_states())
            &&& post.spec_engine_state() == State::Done
        }
    }
}

impl Radio {
    /// Poll the engine with a hardware answer. `command_status` names the
    /// phase being polled — `SendDone` for the acknowledgment register,
    /// `CommandDone` for the completion register — and `hw_response` is
    /// the decoded answer the board layer read from it. The transition is
    /// exactly `spec_command_transition`.
    pub fn command(&mut self, command_status: RfcOperationStatus, hw_response: ReturnCode) -> (r:
        Result<ReturnCode, Fault>)
        requires
            old(self).wf(),
        ensures
            final(self).wf(),
            spec_command_transition(*old(self), command_status, hw_response, *final(self), r),
    {
        let is_send_done = matches!(command_status, RfcOperationStatus::SendDone);
        let is_command_done = matches!(command_status, RfcOperationStatus::CommandDone);
        if !is_send_done && !is_command_done {
            self.state = State::Invalid;
            return Err(Fault::UnexpectedStatus);
        }
        let current_command = match stack::cmd_stack_pop(&mut self.cmd_stack) {
            Some(c) => c,
            None => {
                return Err(Fault::StackUnderflow);
            },
        };
        let marker = if is_send_done {
            State::CommandStatus(RfcOperationStatus::SendDone)
        } else {
            State::CommandStatus(RfcOperationStatus::CommandDone)
        };
        match stack::state_stack_push(&mut self.state_stack, marker) {
            Ok(()) => {},
            Err(()) => {
                let restored = stack::cmd_stack_push(&mut self.cmd_stack, current_command);
                proof {
                    assert(restored is Ok);
                    assert(self.spec_cmds() =~= old(self).spec_cmds());
                }
                return Err(Fault::StackOverflow);
            },
        }
        if is_send_done {
            match hw_response {
                ReturnCode::SUCCESS => {
                    let restaged = stack::cmd_stack_push(&mut self.cmd_stack, current_command);
                    proof {
                        assert(restaged is Ok);
                        assert(self.spec_cmds() =~= old(self).spec_cmds());
                    }
                    self.state = State::CommandStatus(RfcOperationStatus::SendDone);
                    Ok(ReturnCode::SUCCESS)
                },
                ReturnCode::EBUSY => {
                    let restaged = stack::cmd_stack_push(&mut self.cmd_stack, current_command);
                    let unmarked = stack::state_stack_pop(&mut self.state_stack);
                    proof {
                        assert(restaged is Ok);
                        assert(unmarked is Some);
                        assert(self.spec_cmds() =~= old(self).spec_cmds());
                        assert(self.spec_states() =~= old(self).spec_states());
                    }
                    Ok(ReturnCode::EBUSY)
                },
                ReturnCode::EINVAL => {
                    let unmarked = stack::state_stack_pop(&mut self.state_stack);
                    proof {
                        assert(unmarked is Some);
                        assert(self.spec_states() =~= old(self).spec_states());
                    }
                    self.state = State::Done;
                    Ok(ReturnCode::EINVAL)
                },
                _ => {
                    let unmarked = stack::state_stack_pop(&mut self.state_stack);
                    proof {
                        assert(unmarked is Some);
                        assert(self.spec_states() =~= old(self).spec_states());
                    }
                    self.state = State::Done;
                    Ok(ReturnCode::ENOSUPPORT)
                },
            }
        } else {
            match hw_response {
                ReturnCode::EBUSY => {
                    let restaged = stack::cmd_stack_push(&mut self.cmd_stack, current_command);
                    let unmarked = stack::state_stack_pop(&mut self.state_stack);
                    proof {
                        assert(restaged is Ok);
                        assert(unmarked is Some);
                        assert(self.spec_cmds() =~= old(self).spec_cmds());
                        assert(self.spec_states() =~= old(self).spec_states());
                    }
                    Ok(ReturnCode::EBUSY)
                },
                other => {
                    let unmarked = stack::state_stack_pop(&mut self.state_stack);
                    proof {
                        assert(unmarked is Some);
                        assert(self.spec_states() =~= old(self).spec_states());
                    }
                    match stack::state_stack_pop(&mut self.state_stack) {
                        Some(s) => {
                            if !matches!(
                                s,
                                State::CommandStatus(RfcOperationStatus::SendDone),
                            ) {
                                let repushed = stack::state_stack_push(&mut self.state_stack, s);
                                proof {
                                    assert(repushed is Ok);
                                    assert(self.spec_states() =~= spec_pop_ack_marker(
                                        old(self).spec_states(),
                                    ));
                                }
                            }
                        },
                        None => {},
                    }
                    self.state = State::Done;
                    match other {
                        ReturnCode::SUCCESS => Ok(ReturnCode::SUCCESS),
                        ReturnCode::ECANCEL => Ok(ReturnCode::ECANCEL),
                        ReturnCode::FAIL => Ok(ReturnCode::FAIL),
                        _ => Ok(ReturnCode::ENOSUPPORT),
                    }
                },
            }
        }
    }
}

/// Law: a busy answer to either poll leaves the engine exactly as it was
/// before the poll, so the same command can be retried any number of times
/// without growing the stacks, and the same poll re-issued verbatim.
pub proof fn lemma_busy_poll_preserves_engine(
    pre: Radio,
    status: RfcOperationStatus,
    post: Radio,
    r: Result<ReturnCode, Fault>,
)
    requires
        pre.wf(),
        pre.spec_cmds().len() > 0,
        pre.spec_states().len() < pre.spec_state_capacity(),
        status == RfcOperationStatus::SendDone || status == RfcOperationStatus::CommandDone,
        spec_command_transition(pre, status, ReturnCode::EBUSY, post, r),
    ensures
        r == Ok::<ReturnCode, Fault>(ReturnCode::EBUSY),
        Radio::spec_same_engine(pre, post),
        Radio::spec_same_power(pre, post),
{
}

/// Law: a transaction polled to a final completion answer returns both
/// stacks to their baseline. From the baseline with one command staged, a
/// successful acknowledgment followed by any finishing completion answer —
/// cancellation included — reports that answer and leaves no command in
/// flight and only the initial state staged.
pub proof fn lemma_completion_restores_baseline(
    pre: Radio,
    mid: Radio,
    post: Radio,
    hw: ReturnCode,
    r1: Result<ReturnCode, Fault>,
    r2: Result<ReturnCode, Fault>,
)
    requires
        pre.wf(),
        pre.spec_cmds().len() == 1,
        pre.spec_states() == seq![State::Start],
        hw != ReturnCode::EBUSY,
        spec_command_transition(pre, RfcOperationStatus::SendDone, ReturnCode::SUCCESS, mid, r1),
        spec_command_transition(mid, RfcOperationStatus::CommandDone, hw, post, r2),
    ensures
        r1 == Ok::<ReturnCode, Fault>(ReturnCode::SUCCESS),
        r2 == Ok::<ReturnCode, Fault>(
            if hw == ReturnCode::SUCCESS {
                ReturnCode::SUCCESS
            } else if hw == ReturnCode::ECANCEL {
                ReturnCode::ECANCEL
            } else if hw == ReturnCode::FAIL {
                ReturnCode::FAIL
            } else {
                ReturnCode::ENOSUPPORT
            },
        ),
        post.spec_at_baseline(),
{
    assert(mid.spec_states() == seq![State::Start].push(
        State::CommandStatus(RfcOperationStatus::SendDone),
    ));
    assert(mid.spec_states().len() == 2);
    assert(mid.spec_states().last() == State::CommandStatus(RfcOperationStatus::SendDone));
    assert(post.spec_cmds() =~= Seq::<RadioCommands>::empty());
    assert(spec_pop_ack_marker(mid.spec_states()) =~= seq![State::Start]);
}

} // verus!
