use nextnode::commands::{CmdFS, CmdFSPowerup, CmdFsPowerdown, CmdNop, CmdRadioSetup, CmdRxTest,
    CmdSyncStartRat, CmdSyncStopRat, CmdTxTest, CommandCommon, DirectCommand, RfcCondition,
    RfcSetupConfig, RfcTrigger, RFC_SETUP};

#[test]
fn direct_command_keeps_id_and_parameters() {
    let c = DirectCommand::new(0x0406, 0x1234);
    assert_eq!(c.command_id, 0x0406);
    assert_eq!(c.parameters, 0x1234);
}

#[test]
fn nop_record_layout_is_exact() {
    let nop = CmdNop::new();
    let bytes = nop.to_bytes();
    // Command number 0x0801 little endian, zeroed status/pointer/time,
    // zero trigger, condition rule 1.
    assert_eq!(
        bytes,
        vec![0x01, 0x08, 0, 0, 0, 0, 0, 0, 0, 0, 0, 0, 0, 0x01]
    );
}

#[test]
fn nop_round_trip_recovers_header() {
    let nop = CmdNop::new();
    let parsed = CommandCommon::from_bytes(&nop.to_bytes()).unwrap();
    assert_eq!(parsed.command_no, 0x0801);
    assert_eq!(parsed.status, 0);
    assert_eq!(parsed.p_next_op, 0);
    assert_eq!(parsed.start_time, 0);
    assert_eq!(parsed.start_trigger, 0);
    assert_eq!(parsed.condition, RfcCondition(1));
}

#[test]
fn radio_setup_round_trip_and_layout() {
    let cmd = CmdRadioSetup {
        command_no: RFC_SETUP,
        status: 0,
        p_next_op: 0xdeadbeef,
        start_time: 0x01020304,
        start_trigger: 0x05,
        condition: RfcCondition(0x31),
        mode: 0x02,
        lo_divider: 0,
        config: RfcSetupConfig(0x0008),
        tx_power: 0x9330,
        reg_override: 0xcafef00d,
    };
    let bytes = cmd.to_bytes();
    assert_eq!(bytes.len(), 24);
    assert_eq!(&bytes[0..2], &[0x02, 0x08]);
    assert_eq!(&bytes[4..8], &[0xef, 0xbe, 0xad, 0xde]);
    assert_eq!(&bytes[14..16], &[0x02, 0x00]);
    assert_eq!(&bytes[16..18], &[0x08, 0x00]);
    assert_eq!(&bytes[18..20], &[0x30, 0x93]);
    assert_eq!(&bytes[20..24], &[0x0d, 0xf0, 0xfe, 0xca]);
    let parsed = CommandCommon::from_bytes(&bytes).unwrap();
    assert_eq!(parsed.command_no, RFC_SETUP);
    assert_eq!(parsed.p_next_op, 0xdeadbeef);
    assert_eq!(parsed.start_time, 0x01020304);
    assert_eq!(parsed.start_trigger, 0x05);
    assert_eq!(parsed.condition, RfcCondition(0x31));
}

#[test]
fn sync_start_rat_reserves_two_bytes_before_timer() {
    let cmd = CmdSyncStartRat {
        command_no: 0x080A,
        status: 0,
        next_op: 0,
        start_time: 0,
        start_trigger: 0,
        condition: RfcCondition(1),
        rat0: 0x11223344,
    };
    let bytes = cmd.to_bytes();
    assert_eq!(bytes.len(), 20);
    assert_eq!(&bytes[14..16], &[0, 0]);
    assert_eq!(&bytes[16..20], &[0x44, 0x33, 0x22, 0x11]);
    let parsed = CommandCommon::from_bytes(&bytes).unwrap();
    assert_eq!(parsed.command_no, 0x080A);
}

#[test]
fn sync_stop_rat_round_trip() {
    let cmd = CmdSyncStopRat {
        command_no: 0x0809,
        status: 0,
        next_op: 0,
        start_time: 7,
        start_trigger: 0,
        condition: RfcCondition(1),
        rat0: 5,
    };
    let bytes = cmd.to_bytes();
    assert_eq!(bytes.len(), 20);
    let parsed = CommandCommon::from_bytes(&bytes).unwrap();
    assert_eq!(parsed.command_no, 0x0809);
    assert_eq!(parsed.start_time, 7);
}

#[test]
fn fs_record_pads_five_reserved_bytes() {
    let cmd = CmdFS {
        command_no: 0x0803,
        status: 0,
        p_next_op: 0,
        start_time: 0,
        start_trigger: 0,
        condition: RfcCondition(1),
        fract_freq: 0x8000,
        synth_conf: 0x03,
    };
    let bytes = cmd.to_bytes();
    assert_eq!(bytes.len(), 22);
    assert_eq!(&bytes[14..16], &[0x00, 0x80]);
    assert_eq!(bytes[16], 0x03);
    assert_eq!(&bytes[17..22], &[0, 0, 0, 0, 0]);
    let parsed = CommandCommon::from_bytes(&bytes).unwrap();
    assert_eq!(parsed.command_no, 0x0803);
}

#[test]
fn fs_powerup_aligns_override_pointer() {
    let cmd = CmdFSPowerup {
        command_no: 0x080C,
        status: 0,
        p_next_op: 0,
        start_time: 0,
        start_trigger: 0,
        condition: RfcCondition(1),
        reg_override: 0xAABBCCDD,
    };
    let bytes = cmd.to_bytes();
    assert_eq!(bytes.len(), 20);
    assert_eq!(&bytes[14..16], &[0, 0]);
    assert_eq!(&bytes[16..20], &[0xDD, 0xCC, 0xBB, 0xAA]);
    let parsed = CommandCommon::from_bytes(&bytes).unwrap();
    assert_eq!(parsed.command_no, 0x080C);
}

#[test]
fn fs_powerdown_is_bare_header() {
    let cmd = CmdFsPowerdown {
        command_no: 0x080D,
        status: 0,
        p_nextop: 0,
        ratmr: 0x00000042,
        start_trigger: 0,
        condition: RfcCondition(1),
    };
    let bytes = cmd.to_bytes();
    assert_eq!(bytes.len(), 14);
    let parsed = CommandCommon::from_bytes(&bytes).unwrap();
    assert_eq!(parsed.command_no, 0x080D);
    assert_eq!(parsed.start_time, 0x42);
}

#[test]
fn tx_test_layout_and_round_trip() {
    let cmd = CmdTxTest {
        command_no: 0x0808,
        status: 0,
        p_next_op: 0,
        start_time: 0,
        start_trigger: 0,
        condition: RfcCondition(1),
        config: 0x02,
        tx_word: 0xABCD,
        end_trigger: RfcTrigger(0x04),
        sync_word: 0x930B51DE,
        end_time: 0,
    };
    let bytes = cmd.to_bytes();
    assert_eq!(bytes.len(), 28);
    assert_eq!(bytes[14], 0x02);
    assert_eq!(bytes[15], 0);
    assert_eq!(&bytes[16..18], &[0xCD, 0xAB]);
    assert_eq!(bytes[18], 0);
    assert_eq!(bytes[19], 0x04);
    assert_eq!(&bytes[20..24], &[0xDE, 0x51, 0x0B, 0x93]);
    let parsed = CommandCommon::from_bytes(&bytes).unwrap();
    assert_eq!(parsed.command_no, 0x0808);
}

#[test]
fn rx_test_layout_and_round_trip() {
    let cmd = CmdRxTest {
        command_no: 0x0807,
        status: 0,
        p_next_op: 0,
        start_time: 0,
        start_trigger: 0,
        condition: RfcCondition(1),
        config: 0x01,
        end_trigger: 0x04,
        sync_word: 0x930B51DE,
        end_time: 9,
    };
    let bytes = cmd.to_bytes();
    assert_eq!(bytes.len(), 24);
    assert_eq!(bytes[14], 0x01);
    assert_eq!(bytes[15], 0x04);
    assert_eq!(&bytes[20..24], &[9, 0, 0, 0]);
    let parsed = CommandCommon::from_bytes(&bytes).unwrap();
    assert_eq!(parsed.command_no, 0x0807);
}

#[test]
fn short_input_does_not_parse() {
    assert!(CommandCommon::from_bytes(&vec![0x01, 0x08, 0, 0]).is_none());
    assert!(CommandCommon::from_bytes(&Vec::new()).is_none());
}

#[test]
fn condition_byte_fields() {
    let mut cond = RfcCondition(0);
    cond.set_rule(0x05);
    cond.set_skip(0x0A);
    assert_eq!(cond.rule(), 0x05);
    assert_eq!(cond.skip(), 0x0A);
    assert_eq!(cond.0, 0xA5);
    cond.set_rule(0xFF);
    assert_eq!(cond.0, 0xAF);
}

#[test]
fn trigger_byte_fields() {
    let mut trig = RfcTrigger(0);
    trig.set_trigger_type(0x04);
    trig.set_enable_cmd(true);
    trig.set_trigger_no(0x03);
    trig.set_past_trigger(true);
    assert_eq!(trig.trigger_type(), 0x04);
    assert!(trig.enable_cmd());
    assert_eq!(trig.trigger_no(), 0x03);
    assert!(trig.past_trigger());
    assert_eq!(trig.0, 0xF4);
    trig.set_enable_cmd(false);
    assert_eq!(trig.0, 0xE4);
}

#[test]
fn setup_config_fields() {
    let mut cfg = RfcSetupConfig(0);
    cfg.set_frontend_mode(0x05);
    cfg.set_bias_mode(true);
    cfg.set_analog_cfg_mode(0x2A);
    cfg.set_no_fs_powerup(true);
    assert_eq!(cfg.frontend_mode(), 0x05);
    assert!(cfg.bias_mode());
    assert_eq!(cfg.analog_cfg_mode(), 0x2A);
    assert!(cfg.no_fs_powerup());
    assert_eq!(cfg.0, 0x06AD);
}
