//! The message that carries an actuator command to a transponder:
//! `[length, op-mode byte, command, data]`, where the data is made of the
//! timers, of the actuator enables, or of both, as the class of the
//! operation says.

use super::blocks::{ActuatorModeBlock, ActuatorModeBlocks, OpModeBlock, TimerModeBlock};
use crate::error::Result;
use vstd::prelude::*;

verus! {

/// The op-mode block that stands in for an absent one.
pub open spec fn default_op_mode() -> OpModeBlock {
    OpModeBlock { act_cnt8: 5, cmd_op: 0, command: 0 }
}

/// The op-mode byte: the class of the operation in the top three bits, the
/// count of actuator groups in the low five.
pub open spec fn op_mode_byte(block: OpModeBlock) -> u8 {
    (block.cmd_op << 5) | (block.act_cnt8 & 0x1F)
}

/// The top eight bits of the twelve-bit value of `x`.
pub open spec fn hi8(x: u16) -> u8 {
    ((x & 0xFFF) >> 4) as u8
}

/// The bottom four bits of `x`.
pub open spec fn lo4(x: u16) -> u8 {
    (x & 0xF) as u8
}

/// The top four bits of the twelve-bit value of `x`.
pub open spec fn hi4(x: u16) -> u8 {
    ((x & 0xFFF) >> 8) as u8
}

/// The bottom eight bits of `x`.
pub open spec fn lo8(x: u16) -> u8 {
    (x & 0xFF) as u8
}

/// The byte that two twelve-bit values share: the bottom four bits of the
/// first above the top four bits of the second.
pub open spec fn shared(a: u16, b: u16) -> u8 {
    (lo4(a) << 4) | hi4(b)
}

/// Two twelve-bit values in three bytes, big-endian.
pub open spec fn packed_pair(a: u16, b: u16) -> Seq<u8> {
    seq![hi8(a), shared(a, b), lo8(b)]
}

/// All six timers in nine bytes.
pub open spec fn full_timing(block: TimerModeBlock) -> Seq<u8> {
    packed_pair(block.t_pulse, block.t_pause) + packed_pair(block.ton_high, block.tperiod_high)
        + packed_pair(block.ton_low, block.tperiod_low)
}

/// The timers that the command with code `command` reads, and no others.
pub open spec fn command_timing(command: u8, block: TimerModeBlock) -> Seq<u8> {
    if command == 2 {
        packed_pair(block.ton_high, block.tperiod_high)
    } else if command == 3 {
        packed_pair(block.ton_high, block.tperiod_high) + packed_pair(
            block.ton_low,
            block.tperiod_low,
        )
    } else if command == 4 {
        seq![hi8(block.t_pulse), shared(block.t_pulse, 0)]
    } else if command == 5 {
        packed_pair(block.t_pulse, block.ton_high) + seq![
            hi8(block.tperiod_high),
            shared(block.tperiod_high, 0),
        ]
    } else if 0x86 <= command <= 0x8F {
        packed_pair(block.t_pulse, block.t_pause)
    } else {
        Seq::empty()
    }
}

/// The timing bytes of a message. With `all`, every timer is sent, or
/// nothing where there is no timer block. Without it, the timers that the
/// command reads are sent, or three zero bytes where there is no block.
pub open spec fn timing_data(all: bool, command: u8, block: Option<TimerModeBlock>) -> Seq<u8> {
    match block {
        Some(block) => if all {
            full_timing(block)
        } else {
            command_timing(command, block)
        },
        None => if all {
            Seq::empty()
        } else {
            seq![0u8, 0u8, 0u8]
        },
    }
}

/// The number of slots up to and including the last one that is present.
pub open spec fn used_slots(slots: Seq<Option<ActuatorModeBlock>>) -> nat
    decreases slots.len(),
{
    if slots.len() == 0 {
        0
    } else if slots.last() is Some {
        slots.len()
    } else {
        used_slots(slots.drop_last())
    }
}

/// The byte at position `at` of the actuator bytes: a byte of the block in
/// whose range it lies, or zero where that block is absent.
pub open spec fn slot_byte(slots: Seq<Option<ActuatorModeBlock>>, at: int) -> u8 {
    match slots[at / 4] {
        Some(block) => block.bytes()[at % 4],
        None => 0,
    }
}

/// The actuator bytes of the given slots: four bytes for each slot up to
/// the last present one, in ascending order of the actuators, with zeros
/// for the absent ones among them.
pub open spec fn slots_bytes(slots: Seq<Option<ActuatorModeBlock>>) -> Seq<u8> {
    Seq::new(4 * used_slots(slots), |at: int| slot_byte(slots, at))
}

/// The actuator bytes of a message.
pub open spec fn actuators_data(blocks: Option<ActuatorModeBlocks>) -> Seq<u8> {
    match blocks {
        Some(blocks) => slots_bytes(blocks.slots()),
        None => Seq::empty(),
    }
}

/// The data of a message, as the class of the operation composes it.
pub open spec fn message_data(
    timer: Option<TimerModeBlock>,
    actuators: Option<ActuatorModeBlocks>,
    op_mode: OpModeBlock,
) -> Seq<u8> {
    if op_mode.cmd_op == 0 || op_mode.cmd_op == 1 {
        timing_data(true, op_mode.command, timer)
    } else if op_mode.cmd_op == 2 {
        actuators_data(actuators)
    } else if op_mode.cmd_op == 3 {
        timing_data(true, op_mode.command, timer) + actuators_data(actuators)
    } else {
        Seq::empty()
    }
}

/// The longest data of a message: nine timing bytes and eight blocks.
pub const MAX_MESSAGE_DATA: usize = 41;

/// A message for a transponder.
#[derive(Debug)]
pub struct HapticV0Message {
    op_mode: u8,
    command: u8,
    data: Vec<u8>,
}

/// Two twelve-bit values in three bytes.
fn pack_pair(a: u16, b: u16) -> (bytes: (u8, u8, u8))
    ensures
        seq![bytes.0, bytes.1, bytes.2] == packed_pair(a, b),
{
    proof {
        assert((a & 0xff0u16) >> 4 <= 0xff) by (bit_vector);
        assert((a & 0x00fu16) << 4 <= 0xff) by (bit_vector);
        assert((b & 0xf00u16) >> 8 <= 0xff) by (bit_vector);
        assert(b & 0x0ffu16 <= 0xff) by (bit_vector);
        assert(((a & 0xff0u16) >> 4) as u8 == ((a & 0xFFFu16) >> 4) as u8) by (bit_vector);
        assert((((a & 0x00fu16) << 4) as u8) | (((b & 0xf00u16) >> 8) as u8) == (((a
            & 0xFu16) as u8) << 4) | (((b & 0xFFFu16) >> 8) as u8)) by (bit_vector);
    }
    (
        ((a & 0xff0u16) >> 4) as u8,
        (((a & 0x00fu16) << 4) as u8) | (((b & 0xf00u16) >> 8) as u8),
        (b & 0x0ffu16) as u8,
    )
}

/// Appends two twelve-bit values in three bytes.
fn push_pair(data: &mut Vec<u8>, a: u16, b: u16)
    ensures
        final(data)@ == old(data)@ + packed_pair(a, b),
{
    let bytes = pack_pair(a, b);
    data.push(bytes.0);
    data.push(bytes.1);
    data.push(bytes.2);
    proof {
        assert(data@ == old(data)@ + seq![bytes.0, bytes.1, bytes.2]);
    }
}

/// Appends one twelve-bit value in two bytes, the low four bits of the
/// second left zero.
fn push_single(data: &mut Vec<u8>, a: u16)
    ensures
        final(data)@ == old(data)@ + seq![hi8(a), shared(a, 0)],
{
    let bytes = pack_pair(a, 0);
    data.push(bytes.0);
    data.push(bytes.1);
    proof {
        assert(data@ == old(data)@ + seq![bytes.0, bytes.1]);
        assert(packed_pair(a, 0)[0] == bytes.0);
        assert(packed_pair(a, 0)[1] == bytes.1);
    }
}

impl HapticV0Message {
    #[verifier::type_invariant]
    spec fn bounded(self) -> bool {
        self.data@.len() <= MAX_MESSAGE_DATA
    }

    /// The op-mode byte of the message.
    pub closed spec fn op_mode(self) -> u8 {
        self.op_mode
    }

    /// The command code of the message.
    pub closed spec fn command(self) -> u8 {
        self.command
    }

    /// The data of the message.
    pub closed spec fn data(self) -> Seq<u8> {
        self.data@
    }

    /// The message for the given blocks. An absent op-mode block stands
    /// for five groups of actuators, class 0 and command 0.
    pub fn new(
        timer_mode_block: &Option<TimerModeBlock>,
        actuator_mode_blocks: &Option<ActuatorModeBlocks>,
        op_mode_block: &Option<OpModeBlock>,
    ) -> (message: Result<HapticV0Message>)
        ensures
            message is Ok,
            ({
                let op_mode = match *op_mode_block {
                    Some(block) => block,
                    None => default_op_mode(),
                };
                let message = message->Ok_0;
                &&& message.op_mode() == op_mode_byte(op_mode)
                &&& message.command() == op_mode.command
                &&& message.data() == message_data(
                    *timer_mode_block,
                    *actuator_mode_blocks,
                    op_mode,
                )
            }),
    {
        let op_mode_block = match op_mode_block {
            Some(block) => *block,
            None => OpModeBlock { act_cnt8: 5, cmd_op: 0x00, command: 0x00 },
        };
        let mut msg = HapticV0Message {
            op_mode: (op_mode_block.cmd_op << 5) | (op_mode_block.act_cnt8 & 0b00011111),
            command: op_mode_block.command,
            data: Vec::new(),
        };
        let mut data: Vec<u8> = Vec::new();
        if op_mode_block.cmd_op == 0 || op_mode_block.cmd_op == 1 {
            data = msg.get_timing_data(true, timer_mode_block);
        } else if op_mode_block.cmd_op == 2 {
            data = msg.get_actuators_data(actuator_mode_blocks);
        } else if op_mode_block.cmd_op == 3 {
            data = msg.get_timing_data(true, timer_mode_block);
            let mut actuators_data = msg.get_actuators_data(actuator_mode_blocks);
            data.append(&mut actuators_data);
        }
        proof {
            lemma_message_data_len(*timer_mode_block, *actuator_mode_blocks, op_mode_block);
        }
        Ok(HapticV0Message { op_mode: msg.op_mode, command: msg.command, data })
    }

    /// The timing bytes of the message: with `all`, all six timers; else
    /// the timers that the message's command reads.
    pub fn get_timing_data(&mut self, all: bool, timer_mode_block: &Option<TimerModeBlock>) -> (data:
        Vec<u8>)
        ensures
            *final(self) == *old(self),
            data@ == timing_data(all, old(self).command(), *timer_mode_block),
    {
        let mut data: Vec<u8> = Vec::new();
        if all {
            if let Some(blk) = timer_mode_block {
                push_pair(&mut data, blk.t_pulse, blk.t_pause);
                push_pair(&mut data, blk.ton_high, blk.tperiod_high);
                push_pair(&mut data, blk.ton_low, blk.tperiod_low);
            }
            return data;
        }
        match timer_mode_block {
            Some(blk) => {
                let command = self.command;
                if command == 2 {
                    push_pair(&mut data, blk.ton_high, blk.tperiod_high);
                } else if command == 3 {
                    push_pair(&mut data, blk.ton_high, blk.tperiod_high);
                    push_pair(&mut data, blk.ton_low, blk.tperiod_low);
                } else if command == 4 {
                    push_single(&mut data, blk.t_pulse);
                } else if command == 5 {
                    push_pair(&mut data, blk.t_pulse, blk.ton_high);
                    push_single(&mut data, blk.tperiod_high);
                } else if 0x86 <= command && command <= 0x8F {
                    push_pair(&mut data, blk.t_pulse, blk.t_pause);
                }
            },
            None => {
                data.push(0);
                data.push(0);
                data.push(0);
            },
        }
        data
    }

    /// The actuator bytes of the message: the blocks in ascending order of
    /// their actuators up to the last present one, absent ones as zeros.
    pub fn get_actuators_data(&self, actuator_mode_blocks: &Option<ActuatorModeBlocks>) -> (data:
        Vec<u8>)
        ensures
            data@ == actuators_data(*actuator_mode_blocks),
    {
        let blks = match actuator_mode_blocks {
            Some(blks) => blks,
            None => return Vec::new(),
        };
        let mut data: Vec<u8> = Vec::with_capacity(32);
        let ghost slots = blks.slots();
        assert(data@ == written_down_to(slots, 8));
        self.append_blk(&mut data, &blks.block224_255, 7);
        assert(data@ == written_down_to(slots, 7));
        self.append_blk(&mut data, &blks.block192_223, 6);
        assert(data@ == written_down_to(slots, 6));
        self.append_blk(&mut data, &blks.block160_191, 5);
        assert(data@ == written_down_to(slots, 5));
        self.append_blk(&mut data, &blks.block128_159, 4);
        assert(data@ == written_down_to(slots, 4));
        self.append_blk(&mut data, &blks.block96_127, 3);
        assert(data@ == written_down_to(slots, 3));
        self.append_blk(&mut data, &blks.block64_95, 2);
        assert(data@ == written_down_to(slots, 2));
        self.append_blk(&mut data, &blks.block32_63, 1);
        assert(data@ == written_down_to(slots, 1));
        self.append_blk(&mut data, &blks.block0_31, 0);
        assert(data@ == written_down_to(slots, 0));
        proof {
            lemma_slots_bytes(slots, data@);
        }
        data
    }

    /// Writes a present block into its place in `data`, after filling
    /// `data` with zeros up to the end of that place. An absent block
    /// leaves `data` as it is.
    pub fn append_blk(
        &self,
        data: &mut Vec<u8>,
        blk: &Option<ActuatorModeBlock>,
        blk_index: usize,
    )
        requires
            blk_index < usize::MAX / 4,
        ensures
            final(data)@ == block_written(old(data)@, *blk, blk_index as int),
    {
        if let Some(blk) = blk {
            while data.len() < (blk_index + 1) * 4
                invariant
                    blk_index < usize::MAX / 4,
                    data@.len() >= old(data)@.len(),
                    data@.len() <= old(data)@.len() || data@.len() <= (blk_index + 1) * 4,
                    data@ == old(data)@ + Seq::new(
                        (data@.len() - old(data)@.len()) as nat,
                        |at: int| 0u8,
                    ),
                decreases (blk_index + 1) * 4 - data@.len(),
            {
                data.push(0);
            }
            data.set(blk_index * 4, blk.b0);
            data.set(blk_index * 4 + 1, blk.b1);
            data.set(blk_index * 4 + 2, blk.b2);
            data.set(blk_index * 4 + 3, blk.b3);
        }
    }

    /// The bytes of the message: its length, the op-mode byte, the command
    /// code and the data.
    pub fn marshalled(&self) -> (packed: Vec<u8>)
        ensures
            packed@ == seq![(self.data().len() + 3) as u8, self.op_mode(), self.command()]
                + self.data(),
            packed@.len() <= MAX_MESSAGE_DATA + 3,
    {
        proof {
            use_type_invariant(self);
        }
        let mut packed: Vec<u8> = Vec::new();
        packed.push(0);
        packed.push(self.op_mode);
        packed.push(self.command);
        let mut i: usize = 0;
        while i < self.data.len()
            invariant
                i <= self.data.len(),
                packed@ == seq![0u8, self.op_mode, self.command] + self.data@.take(i as int),
            decreases self.data.len() - i,
        {
            packed.push(self.data[i]);
            proof {
                assert(self.data@.take(i + 1) == self.data@.take(i as int).push(
                    self.data@[i as int],
                ));
            }
            i = i + 1;
        }
        proof {
            assert(self.data@.take(i as int) == self.data@);
        }
        let length: u8 = packed.len() as u8;
        packed.set(0, length);
        packed
    }
}

/// The data of a message is at most nine timing bytes and 32 actuator
/// bytes long, and the actuator bytes come in whole blocks of four.
pub proof fn lemma_message_data_len(
    timer: Option<TimerModeBlock>,
    actuators: Option<ActuatorModeBlocks>,
    op_mode: OpModeBlock,
)
    ensures
        timing_data(true, op_mode.command, timer).len() <= 9,
        actuators_data(actuators).len() <= 32,
        actuators_data(actuators).len() % 4 == 0,
        message_data(timer, actuators, op_mode).len() <= MAX_MESSAGE_DATA,
{
    reveal_with_fuel(used_slots, 10);
    if let Some(blocks) = actuators {
        assert(blocks.slots().len() == 8);
        assert(used_slots(blocks.slots()) <= 8);
    }
}

/// `data` after a block is written into slot `index`: filled with zeros up
/// to the end of the slot where it is shorter, and the slot's four bytes
/// set. An absent block leaves `data` as it is.
pub open spec fn block_written(data: Seq<u8>, block: Option<ActuatorModeBlock>, index: int) -> Seq<
    u8,
> {
    match block {
        Some(block) => {
            let length = if data.len() < 4 * (index + 1) {
                4 * (index + 1)
            } else {
                data.len() as int
            };
            Seq::new(
                length as nat,
                |at: int|
                    if 4 * index <= at < 4 * (index + 1) {
                        block.bytes()[at - 4 * index]
                    } else if at < data.len() {
                        data[at]
                    } else {
                        0u8
                    },
            )
        },
        None => data,
    }
}

/// The bytes after the eight slots have been written from the last down
/// to the first, starting from nothing.
pub open spec fn written_down_to(slots: Seq<Option<ActuatorModeBlock>>, from: int) -> Seq<u8>
    decreases 8 - from,
{
    if from >= 8 {
        Seq::empty()
    } else {
        block_written(written_down_to(slots, from + 1), slots[from], from)
    }
}

/// Writing the slots from the last down to the first gives the actuator
/// bytes: the blocks in ascending order, as long as the last present one
/// asks for.
proof fn lemma_slots_bytes(slots: Seq<Option<ActuatorModeBlock>>, data: Seq<u8>)
    requires
        slots.len() == 8,
        data == written_down_to(slots, 0),
    ensures
        data == slots_bytes(slots),
{
    reveal_with_fuel(written_down_to, 10);
    reveal_with_fuel(used_slots, 10);
    let expected = slots_bytes(slots);
    assert(slots.drop_last().len() == 7);
    assert(data.len() == expected.len());
    assert forall|at: int| 0 <= at < data.len() implies data[at] == expected[at] by {
        assert(0 <= at / 4 < 8);
    }
    assert(data =~= expected);
}

} // verus!
