//! Binary command ABI of the radio coprocessor.
//!
//! Each radio operation is a fixed-layout record the coprocessor reads from
//! memory: command number, status, next-command pointer, start time, start
//! trigger, condition byte, then command-specific fields, all little
//! endian. `spec_bytes` pins each record's exact byte layout, including the
//! reserved bytes the coprocessor structure carries for alignment, and
//! `to_bytes` is proved to produce it; the layout must never be reordered
//! or repacked. `CommandCommon::from_bytes` decodes the shared fourteen-byte
//! header of any record, and `lemma_header_round_trip` proves the decode
//! inverts the encode for every command.

use vstd::prelude::*;

verus! {

// Immediate command numbers of the RF core.
pub const RFC_CMD0: u16 = 0x801;

pub const RFC_PING: u16 = 0x406;

pub const RFC_BUS_REQUEST: u16 = 0x40E;

pub const RFC_START_RAT_TIMER: u16 = 0x0405;

pub const RFC_STOP_RAT_TIMER: u16 = 0x0809;

pub const RFC_SETUP: u16 = 0x0802;

pub const RFC_STOP: u16 = 0x0402;

pub const RFC_FS_POWERDOWN: u16 = 0x080D;

/// The two little-endian bytes of `x`.
pub open spec fn spec_u16_le(x: u16) -> Seq<u8> {
    seq![(x & 0xff) as u8, ((x >> 8) & 0xff) as u8]
}

/// The four little-endian bytes of `x`.
pub open spec fn spec_u32_le(x: u32) -> Seq<u8> {
    seq![
        (x & 0xff) as u8,
        ((x >> 8) & 0xff) as u8,
        ((x >> 16) & 0xff) as u8,
        ((x >> 24) & 0xff) as u8,
    ]
}

/// The word two little-endian bytes spell.
pub open spec fn spec_u16_from_le(b0: u8, b1: u8) -> u16 {
    (b0 as u16) | ((b1 as u16) << 8)
}

/// The word four little-endian bytes spell.
pub open spec fn spec_u32_from_le(b0: u8, b1: u8, b2: u8, b3: u8) -> u32 {
    (b0 as u32) | ((b1 as u32) << 8) | ((b2 as u32) << 16) | ((b3 as u32) << 24)
}

/// Decoding inverts the two-byte encoding.
pub proof fn lemma_u16_le_round_trip(x: u16)
    ensures
        spec_u16_from_le(spec_u16_le(x)[0], spec_u16_le(x)[1]) == x,
{
    assert((((x & 0xff) as u8) as u16) | (((((x >> 8) & 0xff) as u8) as u16) << 8) == x)
        by (bit_vector);
}

/// Decoding inverts the four-byte encoding.
pub proof fn lemma_u32_le_round_trip(x: u32)
    ensures
        spec_u32_from_le(
            spec_u32_le(x)[0],
            spec_u32_le(x)[1],
            spec_u32_le(x)[2],
            spec_u32_le(x)[3],
        ) == x,
{
    assert((((x & 0xff) as u8) as u32) | (((((x >> 8) & 0xff) as u8) as u32) << 8) | (((((x >> 16)
        & 0xff) as u8) as u32) << 16) | (((((x >> 24) & 0xff) as u8) as u32) << 24) == x)
        by (bit_vector);
}

/// Append the two little-endian bytes of `x`.
fn push_u16_le(out: &mut Vec<u8>, x: u16)
    ensures
        final(out)@ == old(out)@ + spec_u16_le(x),
{
    out.push((x & 0xff) as u8);
    out.push(((x >> 8) & 0xff) as u8);
    proof {
        assert(final(out)@ =~= old(out)@ + spec_u16_le(x));
    }
}

/// Append the four little-endian bytes of `x`.
fn push_u32_le(out: &mut Vec<u8>, x: u32)
    ensures
        final(out)@ == old(out)@ + spec_u32_le(x),
{
    out.push((x & 0xff) as u8);
    out.push(((x >> 8) & 0xff) as u8);
    out.push(((x >> 16) & 0xff) as u8);
    out.push(((x >> 24) & 0xff) as u8);
    proof {
        assert(final(out)@ =~= old(out)@ + spec_u32_le(x));
    }
}

/// Condition byte of a radio operation: rule in bits 3..0, skip count in
/// bits 7..4.
#[derive(Debug, Clone, Copy, PartialEq, Eq, Structural)]
pub struct RfcCondition(pub u8);

impl RfcCondition {
    /// The condition rule, bits 3..0.
    pub fn rule(&self) -> (r: u8)
        ensures
            r == self.0 & 0x0f,
    {
        self.0 & 0x0f
    }

    /// Set the condition rule, leaving the skip count untouched.
    pub fn set_rule(&mut self, rule: u8)
        ensures
            final(self).0 == (old(self).0 & 0xf0) | (rule & 0x0f),
    {
        self.0 = (self.0 & 0xf0) | (rule & 0x0f);
    }

    /// The skip count, bits 7..4.
    pub fn skip(&self) -> (r: u8)
        ensures
            r == (self.0 >> 4) & 0x0f,
    {
        (self.0 >> 4) & 0x0f
    }

    /// Set the skip count, leaving the rule untouched.
    pub fn set_skip(&mut self, skip: u8)
        ensures
            final(self).0 == (old(self).0 & 0x0f) | ((skip & 0x0f) << 4),
    {
        self.0 = (self.0 & 0x0f) | ((skip & 0x0f) << 4);
    }
}

/// Trigger byte of a radio operation: trigger type in bits 3..0, command
/// enable in bit 4, trigger number in bits 6..5, past-trigger in bit 7.
#[derive(Debug, Clone, Copy, PartialEq, Eq, Structural)]
pub struct RfcTrigger(pub u8);

impl RfcTrigger {
    /// The trigger type, bits 3..0.
    pub fn trigger_type(&self) -> (r: u8)
        ensures
            r == self.0 & 0x0f,
    {
        self.0 & 0x0f
    }

    /// Set the trigger type.
    pub fn set_trigger_type(&mut self, t: u8)
        ensures
            final(self).0 == (old(self).0 & 0xf0) | (t & 0x0f),
    {
        self.0 = (self.0 & 0xf0) | (t & 0x0f);
    }

    /// Whether a command on the trigger is enabled, bit 4.
    pub fn enable_cmd(&self) -> (r: bool)
        ensures
            r == (self.0 & 0x10 != 0),
    {
        self.0 & 0x10 != 0
    }

    /// Set or clear the command-enable bit.
    pub fn set_enable_cmd(&mut self, on: bool)
        ensures
            final(self).0 == if on {
                old(self).0 | 0x10
            } else {
                old(self).0 & !0x10
            },
    {
        if on {
            self.0 = self.0 | 0x10;
        } else {
            self.0 = self.0 & !0x10;
        }
    }

    /// The trigger number, bits 6..5.
    pub fn trigger_no(&self) -> (r: u8)
        ensures
            r == (self.0 >> 5) & 0x03,
    {
        (self.0 >> 5) & 0x03
    }

    /// Set the trigger number.
    pub fn set_trigger_no(&mut self, n: u8)
        ensures
            final(self).0 == (old(self).0 & !0x60) | ((n & 0x03) << 5),
    {
        self.0 = (self.0 & !0x60) | ((n & 0x03) << 5);
    }

    /// Whether a past trigger fires at once, bit 7.
    pub fn past_trigger(&self) -> (r: bool)
        ensures
            r == (self.0 & 0x80 != 0),
    {
        self.0 & 0x80 != 0
    }

    /// Set or clear the past-trigger bit.
    pub fn set_past_trigger(&mut self, on: bool)
        ensures
            final(self).0 == if on {
                old(self).0 | 0x80
            } else {
                old(self).0 & !0x80
            },
    {
        if on {
            self.0 = self.0 | 0x80;
        } else {
            self.0 = self.0 & !0x80;
        }
    }
}

/// Setup configuration word of the radio setup command: front-end mode in
/// bits 2..0, bias mode in bit 3, analog configuration mode in bits 9..4,
/// skip-synth-power-up in bit 10.
#[derive(Debug, Clone, Copy, PartialEq, Eq, Structural)]
pub struct RfcSetupConfig(pub u16);

impl RfcSetupConfig {
    /// The front-end mode, bits 2..0.
    pub fn frontend_mode(&self) -> (r: u16)
        ensures
            r == self.0 & 0x07,
    {
        self.0 & 0x07
    }

    /// Set the front-end mode.
    pub fn set_frontend_mode(&mut self, m: u16)
        ensures
            final(self).0 == (old(self).0 & !0x07) | (m & 0x07),
    {
        self.0 = (self.0 & !0x07) | (m & 0x07);
    }

    /// Whether external bias is selected, bit 3.
    pub fn bias_mode(&self) -> (r: bool)
        ensures
            r == (self.0 & 0x08 != 0),
    {
        self.0 & 0x08 != 0
    }

    /// Set or clear the bias mode bit.
    pub fn set_bias_mode(&mut self, on: bool)
        ensures
            final(self).0 == if on {
                old(self).0 | 0x08
            } else {
                old(self).0 & !0x08
            },
    {
        if on {
            self.0 = self.0 | 0x08;
        } else {
            self.0 = self.0 & !0x08;
        }
    }

    /// The analog configuration mode, bits 9..4.
    pub fn analog_cfg_mode(&self) -> (r: u16)
        ensures
            r == (self.0 >> 4) & 0x3f,
    {
        (self.0 >> 4) & 0x3f
    }

    /// Set the analog configuration mode.
    pub fn set_analog_cfg_mode(&mut self, m: u16)
        ensures
            final(self).0 == (old(self).0 & !0x3f0) | ((m & 0x3f) << 4),
    {
        self.0 = (self.0 & !0x3f0) | ((m & 0x3f) << 4);
    }

    /// Whether the frequency synthesizer power-up is skipped, bit 10.
    pub fn no_fs_powerup(&self) -> (r: bool)
        ensures
            r == (self.0 & 0x400 != 0),
    {
        self.0 & 0x400 != 0
    }

    /// Set or clear the skip-synth-power-up bit.
    pub fn set_no_fs_powerup(&mut self, on: bool)
        ensures
            final(self).0 == if on {
                old(self).0 | 0x400
            } else {
                old(self).0 & !0x400
            },
    {
        if on {
            self.0 = self.0 | 0x400;
        } else {
            self.0 = self.0 & !0x400;
        }
    }
}

/// The shared fourteen-byte header every radio operation record starts
/// with.
pub open spec fn spec_common_header(
    command_no: u16,
    status: u16,
    p_next_op: u32,
    start_time: u32,
    start_trigger: u8,
    condition: u8,
) -> Seq<u8> {
    spec_u16_le(command_no) + spec_u16_le(status) + spec_u32_le(p_next_op) + spec_u32_le(start_time)
        + seq![start_trigger, condition]
}

/// An immediate command, written to the command register as a word rather
/// than read from memory.
#[derive(Debug, Clone, Copy, PartialEq, Eq, Structural)]
pub struct DirectCommand {
    pub command_id: u16,
    pub parameters: u16,
}

impl DirectCommand {
    pub fn new(command: u16, param: u16) -> (r: DirectCommand)
        ensures
            r == (DirectCommand { command_id: command, parameters: param }),
    {
        DirectCommand { command_id: command, parameters: param }
    }
}

/// The fields common to every command record; decoding these is enough to
/// identify and track any command the engine has submitted.
#[derive(Debug, Clone, Copy, PartialEq, Eq, Structural)]
pub struct CommandCommon {
    pub command_no: u16,
    pub status: u16,
    pub p_next_op: u32,
    pub start_time: u32,
    pub start_trigger: u8,
    pub condition: RfcCondition,
}

/// The header a byte sequence spells, or `None` when it is shorter than a
/// header.
pub open spec fn spec_parse_common(s: Seq<u8>) -> Option<CommandCommon> {
    if s.len() < 14 {
        None
    } else {
        Some(
            CommandCommon {
                command_no: spec_u16_from_le(s[0], s[1]),
                status: spec_u16_from_le(s[2], s[3]),
                p_next_op: spec_u32_from_le(s[4], s[5], s[6], s[7]),
                start_time: spec_u32_from_le(s[8], s[9], s[10], s[11]),
                start_trigger: s[12],
                condition: RfcCondition(s[13]),
            },
        )
    }
}

impl CommandCommon {
    /// Decode the common header from the start of any command record.
    pub fn from_bytes(bytes: &Vec<u8>) -> (r: Option<CommandCommon>)
        ensures
            r == spec_parse_common(bytes@),
    {
        if bytes.len() < 14 {
            None
        } else {
            Some(
                CommandCommon {
                    command_no: (bytes[0] as u16) | ((bytes[1] as u16) << 8),
                    status: (bytes[2] as u16) | ((bytes[3] as u16) << 8),
                    p_next_op: (bytes[4] as u32) | ((bytes[5] as u32) << 8) | ((bytes[6] as u32)
                        << 16) | ((bytes[7] as u32) << 24),
                    start_time: (bytes[8] as u32) | ((bytes[9] as u32) << 8) | ((bytes[10] as u32)
                        << 16) | ((bytes[11] as u32) << 24),
                    start_trigger: bytes[12],
                    condition: RfcCondition(bytes[13]),
                },
            )
        }
    }
}

/// Law: decoding the common header inverts its encoding, whatever
/// command-specific bytes follow it.
pub proof fn lemma_header_round_trip(
    command_no: u16,
    status: u16,
    p_next_op: u32,
    start_time: u32,
    start_trigger: u8,
    condition: u8,
    rest: Seq<u8>,
)
    ensures
        spec_parse_common(
            spec_common_header(command_no, status, p_next_op, start_time, start_trigger, condition)
                + rest,
        ) == Some(
            CommandCommon {
                command_no,
                status,
                p_next_op,
                start_time,
                start_trigger,
                condition: RfcCondition(condition),
            },
        ),
{
    let h = spec_common_header(
        command_no,
        status,
        p_next_op,
        start_time,
        start_trigger,
        condition,
    );
    let s = h + rest;
    assert(s[0] == (command_no & 0xff) as u8);
    assert(s[1] == ((command_no >> 8) & 0xff) as u8);
    assert(s[2] == (status & 0xff) as u8);
    assert(s[3] == ((status >> 8) & 0xff) as u8);
    assert(s[4] == (p_next_op & 0xff) as u8);
    assert(s[5] == ((p_next_op >> 8) & 0xff) as u8);
    assert(s[6] == ((p_next_op >> 16) & 0xff) as u8);
    assert(s[7] == ((p_next_op >> 24) & 0xff) as u8);
    assert(s[8] == (start_time & 0xff) as u8);
    assert(s[9] == ((start_time >> 8) & 0xff) as u8);
    assert(s[10] == ((start_time >> 16) & 0xff) as u8);
    assert(s[11] == ((start_time >> 24) & 0xff) as u8);
    assert(s[12] == start_trigger);
    assert(s[13] == condition);
    lemma_u16_le_round_trip(command_no);
    lemma_u16_le_round_trip(status);
    lemma_u32_le_round_trip(p_next_op);
    lemma_u32_le_round_trip(start_time);
}

/// No-operation command; completes with its condition rule.
#[derive(Debug, Clone, Copy, PartialEq, Eq, Structural)]
pub struct CmdNop {
    pub command_no: u16,
    pub status: u16,
    pub p_next_op: u32,
    pub start_time: u32,
    pub start_trigger: u8,
    pub condition: RfcCondition,
}

impl CmdNop {
    pub fn new() -> (r: CmdNop)
        ensures
            r == (CmdNop {
                command_no: 0x0801u16,
                status: 0u16,
                p_next_op: 0u32,
                start_time: 0u32,
                start_trigger: 0u8,
                condition: RfcCondition(1),
            }),
    {
        let mut cond = RfcCondition(0);
        cond.set_rule(0x01);
        proof {
            assert((0u8 & 0xf0) | (0x01u8 & 0x0f) == 1u8) by (bit_vector);
        }
        CmdNop {
            command_no: 0x0801,
            status: 0,
            p_next_op: 0,
            start_time: 0,
            start_trigger: 0,
            condition: cond,
        }
    }

    /// The record's exact byte layout.
    pub open spec fn spec_bytes(self) -> Seq<u8> {
        spec_common_header(
            self.command_no,
            self.status,
            self.p_next_op,
            self.start_time,
            self.start_trigger,
            self.condition.0,
        )
    }

    /// Serialize the record as the coprocessor reads it.
    pub fn to_bytes(&self) -> (r: Vec<u8>)
        ensures
            r@ == self.spec_bytes(),
    {
        let mut out: Vec<u8> = Vec::new();
        push_u16_le(&mut out, self.command_no);
        push_u16_le(&mut out, self.status);
        push_u32_le(&mut out, self.p_next_op);
        push_u32_le(&mut out, self.start_time);
        out.push(self.start_trigger);
        out.push(self.condition.0);
        proof {
            assert(out@ =~= self.spec_bytes());
        }
        out
    }
}

/// Radio setup command: selects mode, front-end configuration, transmit
/// power and the register-override patch table.
#[derive(Debug, Clone, Copy, PartialEq, Eq, Structural)]
pub struct CmdRadioSetup {
    pub command_no: u16,
    pub status: u16,
    pub p_next_op: u32,
    pub start_time: u32,
    pub start_trigger: u8,
    pub condition: RfcCondition,
    pub mode: u8,
    pub lo_divider: u8,
    pub config: RfcSetupConfig,
    pub tx_power: u16,
    pub reg_override: u32,
}

impl CmdRadioSetup {
    /// The record's exact byte layout.
    pub open spec fn spec_bytes(self) -> Seq<u8> {
        spec_common_header(
            self.command_no,
            self.status,
            self.p_next_op,
            self.start_time,
            self.start_trigger,
            self.condition.0,
        ) + seq![self.mode, self.lo_divider] + spec_u16_le(self.config.0) + spec_u16_le(
            self.tx_power,
        ) + spec_u32_le(self.reg_override)
    }

    /// Serialize the record as the coprocessor reads it.
    pub fn to_bytes(&self) -> (r: Vec<u8>)
        ensures
            r@ == self.spec_bytes(),
    {
        let mut out: Vec<u8> = Vec::new();
        push_u16_le(&mut out, self.command_no);
        push_u16_le(&mut out, self.status);
        push_u32_le(&mut out, self.p_next_op);
        push_u32_le(&mut out, self.start_time);
        out.push(self.start_trigger);
        out.push(self.condition.0);
        out.push(self.mode);
        out.push(self.lo_divider);
        push_u16_le(&mut out, self.config.0);
        push_u16_le(&mut out, self.tx_power);
        push_u32_le(&mut out, self.reg_override);
        proof {
            assert(out@ =~= self.spec_bytes());
        }
        out
    }
}

/// Synchronize and start the radio timer.
#[derive(Debug, Clone, Copy, PartialEq, Eq, Structural)]
pub struct CmdSyncStartRat {
    pub command_no: u16,
    pub status: u16,
    pub next_op: u32,
    pub start_time: u32,
    pub start_trigger: u8,
    pub condition: RfcCondition,
    pub rat0: u32,
}

impl CmdSyncStartRat {
    /// The record's exact byte layout. Two reserved bytes keep the timer
    /// value aligned, as in the coprocessor structure.
    pub open spec fn spec_bytes(self) -> Seq<u8> {
        spec_common_header(
            self.command_no,
            self.status,
            self.next_op,
            self.start_time,
            self.start_trigger,
            self.condition.0,
        ) + seq![0u8, 0u8] + spec_u32_le(self.rat0)
    }

    /// Serialize the record as the coprocessor reads it.
    pub fn to_bytes(&self) -> (r: Vec<u8>)
        ensures
            r@ == self.spec_bytes(),
    {
        let mut out: Vec<u8> = Vec::new();
        push_u16_le(&mut out, self.command_no);
        push_u16_le(&mut out, self.status);
        push_u32_le(&mut out, self.next_op);
        push_u32_le(&mut out, self.start_time);
        out.push(self.start_trigger);
        out.push(self.condition.0);
        out.push(0);
        out.push(0);
        push_u32_le(&mut out, self.rat0);
        proof {
            assert(out@ =~= self.spec_bytes());
        }
        out
    }
}

/// Synchronize and stop the radio timer.
#[derive(Debug, Clone, Copy, PartialEq, Eq, Structural)]
pub struct CmdSyncStopRat {
    pub command_no: u16,
    pub status: u16,
    pub next_op: u32,
    pub start_time: u32,
    pub start_trigger: u8,
    pub condition: RfcCondition,
    pub rat0: u32,
}

impl CmdSyncStopRat {
    /// The record's exact byte layout. Two reserved bytes keep the timer
    /// value aligned, as in the coprocessor structure.
    pub open spec fn spec_bytes(self) -> Seq<u8> {
        spec_common_header(
            self.command_no,
            self.status,
            self.next_op,
            self.start_time,
            self.start_trigger,
            self.condition.0,
        ) + seq![0u8, 0u8] + spec_u32_le(self.rat0)
    }

    /// Serialize the record as the coprocessor reads it.
    pub fn to_bytes(&self) -> (r: Vec<u8>)
        ensures
            r@ == self.spec_bytes(),
    {
        let mut out: Vec<u8> = Vec::new();
        push_u16_le(&mut out, self.command_no);
        push_u16_le(&mut out, self.status);
        push_u32_le(&mut out, self.next_op);
        push_u32_le(&mut out, self.start_time);
        out.push(self.start_trigger);
        out.push(self.condition.0);
        out.push(0);
        out.push(0);
        push_u32_le(&mut out, self.rat0);
        proof {
            assert(out@ =~= self.spec_bytes());
        }
        out
    }
}

/// Program the frequency synthesizer.
#[derive(Debug, Clone, Copy, PartialEq, Eq, Structural)]
pub struct CmdFS {
    pub command_no: u16,
    pub status: u16,
    pub p_next_op: u32,
    pub start_time: u32,
    pub start_trigger: u8,
    pub condition: RfcCondition,
    pub fract_freq: u16,
    pub synth_conf: u8,
}

impl CmdFS {
    /// The record's exact byte layout; the five trailing reserved bytes of
    /// the coprocessor structure serialize as zero.
    pub open spec fn spec_bytes(self) -> Seq<u8> {
        spec_common_header(
            self.command_no,
            self.status,
            self.p_next_op,
            self.start_time,
            self.start_trigger,
            self.condition.0,
        ) + spec_u16_le(self.fract_freq) + seq![self.synth_conf, 0u8, 0u8, 0u8, 0u8, 0u8]
    }

    /// Serialize the record as the coprocessor reads it.
    pub fn to_bytes(&self) -> (r: Vec<u8>)
        ensures
            r@ == self.spec_bytes(),
    {
        let mut out: Vec<u8> = Vec::new();
        push_u16_le(&mut out, self.command_no);
        push_u16_le(&mut out, self.status);
        push_u32_le(&mut out, self.p_next_op);
        push_u32_le(&mut out, self.start_time);
        out.push(self.start_trigger);
        out.push(self.condition.0);
        push_u16_le(&mut out, self.fract_freq);
        out.push(self.synth_conf);
        out.push(0);
        out.push(0);
        out.push(0);
        out.push(0);
        out.push(0);
        proof {
            assert(out@ =~= self.spec_bytes());
        }
        out
    }
}

/// Power up the frequency synthesizer.
#[derive(Debug, Clone, Copy, PartialEq, Eq, Structural)]
pub struct CmdFSPowerup {
    pub command_no: u16,
    pub status: u16,
    pub p_next_op: u32,
    pub start_time: u32,
    pub start_trigger: u8,
    pub condition: RfcCondition,
    pub reg_override: u32,
}

impl CmdFSPowerup {
    /// The record's exact byte layout. Two reserved bytes keep the
    /// register-override pointer aligned, as in the coprocessor structure.
    pub open spec fn spec_bytes(self) -> Seq<u8> {
        spec_common_header(
            self.command_no,
            self.status,
            self.p_next_op,
            self.start_time,
            self.start_trigger,
            self.condition.0,
        ) + seq![0u8, 0u8] + spec_u32_le(self.reg_override)
    }

    /// Serialize the record as the coprocessor reads it.
    pub fn to_bytes(&self) -> (r: Vec<u8>)
        ensures
            r@ == self.spec_bytes(),
    {
        let mut out: Vec<u8> = Vec::new();
        push_u16_le(&mut out, self.command_no);
        push_u16_le(&mut out, self.status);
        push_u32_le(&mut out, self.p_next_op);
        push_u32_le(&mut out, self.start_time);
        out.push(self.start_trigger);
        out.push(self.condition.0);
        out.push(0);
        out.push(0);
        push_u32_le(&mut out, self.reg_override);
        proof {
            assert(out@ =~= self.spec_bytes());
        }
        out
    }
}

/// Power down the frequency synthesizer.
#[derive(Debug, Clone, Copy, PartialEq, Eq, Structural)]
pub struct CmdFsPowerdown {
    pub command_no: u16,
    pub status: u16,
    pub p_nextop: u32,
    pub ratmr: u32,
    pub start_trigger: u8,
    pub condition: RfcCondition,
}

impl CmdFsPowerdown {
    /// The record's exact byte layout.
    pub open spec fn spec_bytes(self) -> Seq<u8> {
        spec_common_header(
            self.command_no,
            self.status,
            self.p_nextop,
            self.ratmr,
            self.start_trigger,
            self.condition.0,
        )
    }

    /// Serialize the record as the coprocessor reads it.
    pub fn to_bytes(&self) -> (r: Vec<u8>)
        ensures
            r@ == self.spec_bytes(),
    {
        let mut out: Vec<u8> = Vec::new();
        push_u16_le(&mut out, self.command_no);
        push_u16_le(&mut out, self.status);
        push_u32_le(&mut out, self.p_nextop);
        push_u32_le(&mut out, self.ratmr);
        out.push(self.start_trigger);
        out.push(self.condition.0);
        proof {
            assert(out@ =~= self.spec_bytes());
        }
        out
    }
}

/// Continuous transmit test command.
#[derive(Debug, Clone, Copy, PartialEq, Eq, Structural)]
pub struct CmdTxTest {
    pub command_no: u16,
    pub status: u16,
    pub p_next_op: u32,
    pub start_time: u32,
    pub start_trigger: u8,
    pub condition: RfcCondition,
    pub config: u8,
    pub tx_word: u16,
    pub end_trigger: RfcTrigger,
    pub sync_word: u32,
    pub end_time: u32,
}

impl CmdTxTest {
    /// The record's exact byte layout; the coprocessor structure's two
    /// reserved bytes serialize as zero.
    pub open spec fn spec_bytes(self) -> Seq<u8> {
        spec_common_header(
            self.command_no,
            self.status,
            self.p_next_op,
            self.start_time,
            self.start_trigger,
            self.condition.0,
        ) + seq![self.config, 0u8] + spec_u16_le(self.tx_word) + seq![0u8, self.end_trigger.0]
            + spec_u32_le(self.sync_word) + spec_u32_le(self.end_time)
    }

    /// Serialize the record as the coprocessor reads it.
    pub fn to_bytes(&self) -> (r: Vec<u8>)
        ensures
            r@ == self.spec_bytes(),
    {
        let mut out: Vec<u8> = Vec::new();
        push_u16_le(&mut out, self.command_no);
        push_u16_le(&mut out, self.status);
        push_u32_le(&mut out, self.p_next_op);
        push_u32_le(&mut out, self.start_time);
        out.push(self.start_trigger);
        out.push(self.condition.0);
        out.push(self.config);
        out.push(0);
        push_u16_le(&mut out, self.tx_word);
        out.push(0);
        out.push(self.end_trigger.0);
        push_u32_le(&mut out, self.sync_word);
        push_u32_le(&mut out, self.end_time);
        proof {
            assert(out@ =~= self.spec_bytes());
        }
        out
    }
}

/// Continuous receive test command.
#[derive(Debug, Clone, Copy, PartialEq, Eq, Structural)]
pub struct CmdRxTest {
    pub command_no: u16,
    pub status: u16,
    pub p_next_op: u32,
    pub start_time: u32,
    pub start_trigger: u8,
    pub condition: RfcCondition,
    pub config: u8,
    pub end_trigger: u8,
    pub sync_word: u32,
    pub end_time: u32,
}

impl CmdRxTest {
    /// The record's exact byte layout.
    pub open spec fn spec_bytes(self) -> Seq<u8> {
        spec_common_header(
            self.command_no,
            self.status,
            self.p_next_op,
            self.start_time,
            self.start_trigger,
            self.condition.0,
        ) + seq![self.config, self.end_trigger] + spec_u32_le(self.sync_word) + spec_u32_le(
            self.end_time,
        )
    }

    /// Serialize the record as the coprocessor reads it.
    pub fn to_bytes(&self) -> (r: Vec<u8>)
        ensures
            r@ == self.spec_bytes(),
    {
        let mut out: Vec<u8> = Vec::new();
        push_u16_le(&mut out, self.command_no);
        push_u16_le(&mut out, self.status);
        push_u32_le(&mut out, self.p_next_op);
        push_u32_le(&mut out, self.start_time);
        out.push(self.start_trigger);
        out.push(self.condition.0);
        out.push(self.config);
        out.push(self.end_trigger);
        push_u32_le(&mut out, self.sync_word);
        push_u32_le(&mut out, self.end_time);
        proof {
            assert(out@ =~= self.spec_bytes());
        }
        out
    }
}

} // verus!
