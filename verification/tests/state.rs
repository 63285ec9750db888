use protocol_host_lib::protocol::haptic::v0::{
    ActuatorModeBlock, ActuatorModeBlocks, ActuatorsCommand, OpModeBlock, TimerModeBlock,
    V0FabricState,
};

fn no_blocks() -> ActuatorModeBlocks {
    ActuatorModeBlocks {
        block0_31: None,
        block32_63: None,
        block64_95: None,
        block96_127: None,
        block128_159: None,
        block160_191: None,
        block192_223: None,
        block224_255: None,
    }
}

fn pulse_command(use_cache: Option<bool>) -> ActuatorsCommand {
    ActuatorsCommand {
        fabric_name: String::from("fabric"),
        op_mode_block: Some(OpModeBlock { act_cnt8: 5, cmd_op: 3, command: 2 }),
        actuator_mode_blocks: Some(ActuatorModeBlocks {
            block0_31: Some(ActuatorModeBlock { b0: 0x11, b1: 0x22, b2: 0x44, b3: 0x88 }),
            block32_63: Some(Default::default()),
            block64_95: Some(Default::default()),
            block96_127: Some(Default::default()),
            block128_159: Some(Default::default()),
            block160_191: Some(Default::default()),
            block192_223: Some(Default::default()),
            block224_255: Some(Default::default()),
        }),
        timer_mode_block: Some(TimerModeBlock {
            t_pulse: 0,
            t_pause: 0,
            ton_high: 50,
            tperiod_high: 100,
            ton_low: 0,
            tperiod_low: 0,
        }),
        use_cache,
    }
}

#[test]
fn new_state_is_cold_and_zero() {
    let state = V0FabricState::new("fabric");
    let held = state.state();
    assert_eq!("fabric", held.fabric_name);
    assert_eq!(Some(OpModeBlock { act_cnt8: 0, cmd_op: 0, command: 0 }), held.op_mode_block);
    let off = Some(ActuatorModeBlock { b0: 0, b1: 0, b2: 0, b3: 0 });
    let blocks = held.actuator_mode_blocks.unwrap();
    assert_eq!(off, blocks.block0_31);
    assert_eq!(off, blocks.block32_63);
    assert_eq!(off, blocks.block64_95);
    assert_eq!(off, blocks.block96_127);
    assert_eq!(off, blocks.block128_159);
    assert_eq!(off, blocks.block160_191);
    assert_eq!(off, blocks.block192_223);
    assert_eq!(off, blocks.block224_255);
    assert_eq!(Some(Default::default()), held.timer_mode_block);
    assert_eq!(Some(false), held.use_cache);
    assert!(!state.is_warm());
}

#[test]
fn diff_keeps_what_differs() {
    let state = V0FabricState::new("fabric");
    let diff = state.diff(pulse_command(Some(true)));
    assert_eq!("fabric", diff.fabric_name);
    assert_eq!(Some(OpModeBlock { act_cnt8: 5, cmd_op: 3, command: 2 }), diff.op_mode_block);
    let expected = ActuatorModeBlocks {
        block0_31: Some(ActuatorModeBlock { b0: 0x11, b1: 0x22, b2: 0x44, b3: 0x88 }),
        ..no_blocks()
    };
    assert_eq!(Some(expected), diff.actuator_mode_blocks);
    assert_eq!(pulse_command(None).timer_mode_block, diff.timer_mode_block);
    assert_eq!(Some(false), diff.use_cache);
}

#[test]
fn diff_without_blocks_holds_no_block() {
    let state = V0FabricState::new("fabric");
    let command = ActuatorsCommand {
        fabric_name: String::from("other"),
        op_mode_block: None,
        actuator_mode_blocks: None,
        timer_mode_block: None,
        use_cache: None,
    };
    let diff = state.diff(command);
    assert_eq!("fabric", diff.fabric_name);
    assert_eq!(None, diff.op_mode_block);
    assert_eq!(Some(no_blocks()), diff.actuator_mode_blocks);
    assert_eq!(None, diff.timer_mode_block);
}

#[test]
fn diff_drops_timers_that_are_held() {
    let state = V0FabricState::new("fabric");
    let mut command = pulse_command(None);
    command.timer_mode_block = Some(Default::default());
    let diff = state.diff(command);
    assert_eq!(None, diff.timer_mode_block);
}

#[test]
fn second_diff_of_the_same_command_is_empty() {
    let mut state = V0FabricState::new("fabric");
    let first = state.diff(pulse_command(Some(true)));
    assert!(first.actuator_mode_blocks.unwrap().block0_31.is_some());
    assert!(first.timer_mode_block.is_some());
    state.apply(pulse_command(Some(true)));
    assert!(state.is_warm());
    let second = state.diff(pulse_command(Some(true)));
    assert_eq!(Some(no_blocks()), second.actuator_mode_blocks);
    assert_eq!(None, second.timer_mode_block);
    assert_eq!(Some(OpModeBlock { act_cnt8: 5, cmd_op: 3, command: 2 }), second.op_mode_block);
    state.apply(pulse_command(Some(true)));
    let third = state.diff(pulse_command(Some(true)));
    assert_eq!(Some(no_blocks()), third.actuator_mode_blocks);
    assert_eq!(None, third.timer_mode_block);
}

#[test]
fn apply_merges_into_what_is_held() {
    let mut state = V0FabricState::new("fabric");
    state.apply(pulse_command(None));
    let partial = ActuatorsCommand {
        fabric_name: String::from("fabric"),
        op_mode_block: None,
        actuator_mode_blocks: Some(ActuatorModeBlocks {
            block64_95: Some(ActuatorModeBlock { b0: 9, b1: 9, b2: 9, b3: 9 }),
            ..no_blocks()
        }),
        timer_mode_block: None,
        use_cache: None,
    };
    state.apply(partial);
    let held = state.state();
    let blocks = held.actuator_mode_blocks.unwrap();
    assert_eq!(Some(ActuatorModeBlock { b0: 0x11, b1: 0x22, b2: 0x44, b3: 0x88 }), blocks.block0_31);
    assert_eq!(Some(Default::default()), blocks.block32_63);
    assert_eq!(Some(ActuatorModeBlock { b0: 9, b1: 9, b2: 9, b3: 9 }), blocks.block64_95);
    assert_eq!(Some(Default::default()), blocks.block224_255);
    assert_eq!(pulse_command(None).timer_mode_block, held.timer_mode_block);
    assert_eq!(Some(OpModeBlock { act_cnt8: 5, cmd_op: 3, command: 2 }), held.op_mode_block);
    assert_eq!(Some(true), held.use_cache);
    assert_eq!("fabric", held.fabric_name);
}
