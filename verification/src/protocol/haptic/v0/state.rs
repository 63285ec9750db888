//! The state that is kept for each fabric: the command that its
//! transponders hold, and what of a new command differs from it.

use super::blocks::{
    ActuatorModeBlock, ActuatorModeBlocks, ActuatorsCommand, OpModeBlock, TimerModeBlock,
};
use vstd::prelude::*;

verus! {

/// What of `new` has to be sent when the transponder holds `current`: the
/// block itself where it is present and differs, else nothing.
pub open spec fn changed_block(
    current: Option<ActuatorModeBlock>,
    new: Option<ActuatorModeBlock>,
) -> Option<ActuatorModeBlock> {
    if new is Some && current != new {
        new
    } else {
        None
    }
}

/// Block by block, what of `new` has to be sent when the transponder
/// holds `current`.
pub open spec fn changed_blocks(
    current: ActuatorModeBlocks,
    new: ActuatorModeBlocks,
) -> ActuatorModeBlocks {
    ActuatorModeBlocks {
        block0_31: changed_block(current.block0_31, new.block0_31),
        block32_63: changed_block(current.block32_63, new.block32_63),
        block64_95: changed_block(current.block64_95, new.block64_95),
        block96_127: changed_block(current.block96_127, new.block96_127),
        block128_159: changed_block(current.block128_159, new.block128_159),
        block160_191: changed_block(current.block160_191, new.block160_191),
        block192_223: changed_block(current.block192_223, new.block192_223),
        block224_255: changed_block(current.block224_255, new.block224_255),
    }
}

/// The timers of `new` where they differ from those of `current`, else
/// nothing.
pub open spec fn changed_timer(
    current: Option<TimerModeBlock>,
    new: Option<TimerModeBlock>,
) -> Option<TimerModeBlock> {
    if current != new {
        new
    } else {
        None
    }
}

/// The least command that brings a transponder from `current` to `new`.
/// The op-mode block is that of `new`; the name and the cache flag are
/// those of `current`.
pub open spec fn command_diff(current: ActuatorsCommand, new: ActuatorsCommand) -> ActuatorsCommand
    recommends
        current.actuator_mode_blocks is Some,
{
    let held = current.actuator_mode_blocks->Some_0;
    let asked = match new.actuator_mode_blocks {
        Some(blocks) => blocks,
        None => held,
    };
    ActuatorsCommand {
        fabric_name: current.fabric_name,
        op_mode_block: new.op_mode_block,
        actuator_mode_blocks: Some(changed_blocks(held, asked)),
        timer_mode_block: changed_timer(current.timer_mode_block, new.timer_mode_block),
        use_cache: current.use_cache,
    }
}

/// A part of the state after a command: what the command changed, or what
/// was held where it changed nothing.
pub open spec fn merged<T>(held: Option<T>, changed: Option<T>) -> Option<T> {
    if changed is Some {
        changed
    } else {
        held
    }
}

/// Block by block, the state after a command.
pub open spec fn merged_blocks(
    held: ActuatorModeBlocks,
    changed: ActuatorModeBlocks,
) -> ActuatorModeBlocks {
    ActuatorModeBlocks {
        block0_31: merged(held.block0_31, changed.block0_31),
        block32_63: merged(held.block32_63, changed.block32_63),
        block64_95: merged(held.block64_95, changed.block64_95),
        block96_127: merged(held.block96_127, changed.block96_127),
        block128_159: merged(held.block128_159, changed.block128_159),
        block160_191: merged(held.block160_191, changed.block160_191),
        block192_223: merged(held.block192_223, changed.block192_223),
        block224_255: merged(held.block224_255, changed.block224_255),
    }
}

/// The state after the command `new` has reached the transponder that
/// held `current`: the union of what was held and what changed, with the
/// cache warm.
pub open spec fn command_applied(
    current: ActuatorsCommand,
    new: ActuatorsCommand,
) -> ActuatorsCommand
    recommends
        current.actuator_mode_blocks is Some,
{
    let diff = command_diff(current, new);
    ActuatorsCommand {
        fabric_name: current.fabric_name,
        op_mode_block: merged(current.op_mode_block, diff.op_mode_block),
        actuator_mode_blocks: Some(
            merged_blocks(
                current.actuator_mode_blocks->Some_0,
                diff.actuator_mode_blocks->Some_0,
            ),
        ),
        timer_mode_block: merged(current.timer_mode_block, diff.timer_mode_block),
        use_cache: Some(true),
    }
}

/// Whether a command can serve as the state of a fabric: every part of it
/// is present, and so is each of the eight actuator blocks.
pub open spec fn is_full(state: ActuatorsCommand) -> bool {
    &&& state.op_mode_block is Some
    &&& state.timer_mode_block is Some
    &&& state.use_cache is Some
    &&& state.actuator_mode_blocks is Some
    &&& forall|slot: int|
        0 <= slot < 8 ==> (#[trigger] state.actuator_mode_blocks->Some_0.slots()[slot]) is Some
}

/// The state of a fabric that no command has reached yet.
pub open spec fn cold_state(fabric_name: Seq<char>, state: ActuatorsCommand) -> bool {
    let off = ActuatorModeBlock { b0: 0, b1: 0, b2: 0, b3: 0 };
    &&& state.fabric_name@ == fabric_name
    &&& state.op_mode_block == Some(OpModeBlock { act_cnt8: 0, cmd_op: 0, command: 0 })
    &&& state.actuator_mode_blocks == Some(
        ActuatorModeBlocks {
            block0_31: Some(off),
            block32_63: Some(off),
            block64_95: Some(off),
            block96_127: Some(off),
            block128_159: Some(off),
            block160_191: Some(off),
            block192_223: Some(off),
            block224_255: Some(off),
        },
    )
    &&& state.timer_mode_block == Some(
        TimerModeBlock {
            t_pulse: 0,
            t_pause: 0,
            ton_high: 0,
            tperiod_high: 0,
            ton_low: 0,
            tperiod_low: 0,
        },
    )
    &&& state.use_cache == Some(false)
}

/// The last command that has reached the transponders of a fabric.
#[derive(Debug)]
pub struct V0FabricState {
    state: ActuatorsCommand,
}

/// What of `new` has to be sent when the transponder holds `current`.
fn changed(current: &Option<ActuatorModeBlock>, new: &Option<ActuatorModeBlock>) -> (block:
    Option<ActuatorModeBlock>)
    ensures
        block == changed_block(*current, *new),
{
    match new {
        Some(asked) => match current {
            Some(held) => if *held == *asked {
                None
            } else {
                Some(*asked)
            },
            None => Some(*asked),
        },
        None => None,
    }
}

/// Whether two optional timer blocks are the same.
fn same_timer(a: &Option<TimerModeBlock>, b: &Option<TimerModeBlock>) -> (same: bool)
    ensures
        same == (*a == *b),
{
    match a {
        Some(x) => match b {
            Some(y) => *x == *y,
            None => false,
        },
        None => b.is_none(),
    }
}

/// What the command changed, or what was held where it changed nothing.
fn merge<T: Copy>(held: &Option<T>, changed: &Option<T>) -> (part: Option<T>)
    ensures
        part == merged(*held, *changed),
{
    if changed.is_some() {
        *changed
    } else {
        *held
    }
}

impl V0FabricState {
    #[verifier::type_invariant]
    spec fn full(self) -> bool {
        is_full(self.state)
    }

    /// The command that the transponders hold.
    pub closed spec fn view(&self) -> ActuatorsCommand {
        self.state
    }

    /// The state of a new fabric: every block zero, the cache cold.
    pub fn new(fabric_name: &str) -> (state: Self)
        ensures
            cold_state(fabric_name@, state@),
            is_full(state@),
    {
        let off = ActuatorModeBlock { b0: 0, b1: 0, b2: 0, b3: 0 };
        let blocks = ActuatorModeBlocks {
            block0_31: Some(off),
            block32_63: Some(off),
            block64_95: Some(off),
            block96_127: Some(off),
            block128_159: Some(off),
            block160_191: Some(off),
            block192_223: Some(off),
            block224_255: Some(off),
        };
        Self {
            state: ActuatorsCommand {
                fabric_name: String::from_str(fabric_name),
                op_mode_block: Some(OpModeBlock { act_cnt8: 0, cmd_op: 0, command: 0 }),
                actuator_mode_blocks: Some(blocks),
                timer_mode_block: Some(
                    TimerModeBlock {
                        t_pulse: 0,
                        t_pause: 0,
                        ton_high: 0,
                        tperiod_high: 0,
                        ton_low: 0,
                        tperiod_low: 0,
                    },
                ),
                use_cache: Some(false),
            },
        }
    }

    /// The command that the transponders hold.
    pub fn state(&self) -> (state: &ActuatorsCommand)
        ensures
            *state == self@,
            is_full(self@),
    {
        proof {
            use_type_invariant(self);
        }
        &self.state
    }

    /// Whether a command has reached the transponders yet, so that the
    /// next one may be cut down to what differs.
    pub fn is_warm(&self) -> (warm: bool)
        ensures
            warm == (self@.use_cache == Some(true)),
    {
        match self.state.use_cache {
            Some(flag) => flag,
            None => false,
        }
    }

    /// The least command that brings the transponders from what they hold
    /// to `new_state`.
    pub fn diff(&self, new_state: ActuatorsCommand) -> (reduced: ActuatorsCommand)
        ensures
            reduced == command_diff(self@, new_state),
    {
        proof {
            use_type_invariant(self);
        }
        let held = match &self.state.actuator_mode_blocks {
            Some(blocks) => *blocks,
            None => ActuatorModeBlocks {
                block0_31: None,
                block32_63: None,
                block64_95: None,
                block96_127: None,
                block128_159: None,
                block160_191: None,
                block192_223: None,
                block224_255: None,
            },
        };
        let asked = match new_state.actuator_mode_blocks {
            Some(blocks) => blocks,
            None => held,
        };
        ActuatorsCommand {
            fabric_name: self.state.fabric_name.clone(),
            op_mode_block: new_state.op_mode_block,
            actuator_mode_blocks: Some(
                ActuatorModeBlocks {
                    block0_31: changed(&held.block0_31, &asked.block0_31),
                    block32_63: changed(&held.block32_63, &asked.block32_63),
                    block64_95: changed(&held.block64_95, &asked.block64_95),
                    block96_127: changed(&held.block96_127, &asked.block96_127),
                    block128_159: changed(&held.block128_159, &asked.block128_159),
                    block160_191: changed(&held.block160_191, &asked.block160_191),
                    block192_223: changed(&held.block192_223, &asked.block192_223),
                    block224_255: changed(&held.block224_255, &asked.block224_255),
                },
            ),
            timer_mode_block: if same_timer(
                &self.state.timer_mode_block,
                &new_state.timer_mode_block,
            ) {
                None
            } else {
                new_state.timer_mode_block
            },
            use_cache: self.state.use_cache,
        }
    }

    /// Records that `new_state` has reached the transponders: what it
    /// changed replaces what was held, the rest stays, and the cache is
    /// warm from now on.
    pub fn apply(&mut self, new_state: ActuatorsCommand)
        ensures
            final(self)@ == command_applied(old(self)@, new_state),
            is_full(final(self)@),
    {
        proof {
            use_type_invariant(&*self);
        }
        let diff = self.diff(new_state);
        let held = match &self.state.actuator_mode_blocks {
            Some(blocks) => *blocks,
            None => ActuatorModeBlocks {
                block0_31: None,
                block32_63: None,
                block64_95: None,
                block96_127: None,
                block128_159: None,
                block160_191: None,
                block192_223: None,
                block224_255: None,
            },
        };
        let sent = match diff.actuator_mode_blocks {
            Some(blocks) => blocks,
            None => held,
        };
        let merged_blocks = ActuatorModeBlocks {
            block0_31: merge(&held.block0_31, &sent.block0_31),
            block32_63: merge(&held.block32_63, &sent.block32_63),
            block64_95: merge(&held.block64_95, &sent.block64_95),
            block96_127: merge(&held.block96_127, &sent.block96_127),
            block128_159: merge(&held.block128_159, &sent.block128_159),
            block160_191: merge(&held.block160_191, &sent.block160_191),
            block192_223: merge(&held.block192_223, &sent.block192_223),
            block224_255: merge(&held.block224_255, &sent.block224_255),
        };
        proof {
            lemma_merged_is_full(self.state, new_state);
        }
        self.state = ActuatorsCommand {
            fabric_name: diff.fabric_name,
            op_mode_block: merge(&self.state.op_mode_block, &diff.op_mode_block),
            actuator_mode_blocks: Some(merged_blocks),
            timer_mode_block: merge(&self.state.timer_mode_block, &diff.timer_mode_block),
            use_cache: Some(true),
        };
    }
}

/// A full state stays full under any command.
pub proof fn lemma_merged_is_full(current: ActuatorsCommand, new: ActuatorsCommand)
    requires
        is_full(current),
    ensures
        is_full(command_applied(current, new)),
{
    let held = current.actuator_mode_blocks->Some_0;
    let after = command_applied(current, new).actuator_mode_blocks->Some_0;
    assert forall|slot: int| 0 <= slot < 8 implies (#[trigger] after.slots()[slot]) is Some by {
        assert(held.slots()[slot] is Some);
    }
}

/// A command that has just been applied leaves nothing to send: the diff
/// of the same command against the state that it left holds no actuator
/// block and no timers.
pub proof fn lemma_second_diff_is_empty(current: ActuatorsCommand, command: ActuatorsCommand)
    requires
        is_full(current),
    ensures
        command_diff(command_applied(current, command), command).actuator_mode_blocks == Some(
            ActuatorModeBlocks::none(),
        ),
        command_diff(command_applied(current, command), command).timer_mode_block
            == None::<TimerModeBlock>,
{
    let held = current.actuator_mode_blocks->Some_0;
    assert(held.slots()[0] is Some);
    assert(held.slots()[1] is Some);
    assert(held.slots()[2] is Some);
    assert(held.slots()[3] is Some);
    assert(held.slots()[4] is Some);
    assert(held.slots()[5] is Some);
    assert(held.slots()[6] is Some);
    assert(held.slots()[7] is Some);
}

/// The diff is all that has to be sent: applying what differs leaves the
/// state that applying the whole command leaves.
pub proof fn lemma_diff_is_enough(current: ActuatorsCommand, command: ActuatorsCommand)
    requires
        is_full(current),
    ensures
        command_diff(current, command_diff(current, command)) == command_diff(current, command),
        command_applied(current, command_diff(current, command)) == command_applied(
            current,
            command,
        ),
{
}

/// Once a command is applied, the state holds what the command asked for:
/// each actuator block that the command names, and its timers where it
/// has any. What the command does not name is held as before.
pub proof fn lemma_applied_holds_command(
    current: ActuatorsCommand,
    command: ActuatorsCommand,
    slot: int,
)
    requires
        is_full(current),
        0 <= slot < 8,
    ensures
        ({
            let after = command_applied(current, command);
            let held = current.actuator_mode_blocks->Some_0.slots()[slot];
            let kept = after.actuator_mode_blocks->Some_0.slots()[slot];
            &&& match command.actuator_mode_blocks {
                Some(blocks) => kept == merged(held, blocks.slots()[slot]),
                None => kept == held,
            }
            &&& after.timer_mode_block == merged(current.timer_mode_block, command.timer_mode_block)
            &&& after.op_mode_block == merged(current.op_mode_block, command.op_mode_block)
            &&& after.fabric_name == current.fabric_name
        }),
{
    let held = current.actuator_mode_blocks->Some_0;
    assert(held.slots()[slot] is Some);
}

} // verus!
