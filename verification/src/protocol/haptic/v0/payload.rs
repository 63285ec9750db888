//! The requests that the dispatcher sends, and what it makes of the
//! reader's responses.

use super::blocks::{ActuatorModeBlocks, OpModeBlock, TimerModeBlock};
use super::fabric::{ObidTransponder, TransponderList, TransponderModel, UID_LENGTH};
use super::message::{
    default_op_mode, lemma_message_data_len, message_data, op_mode_byte, HapticV0Message,
};
use crate::error::{InternalError, Result};
use crate::obid::advanced_protocol::{HostToReader, ReaderToHost, MAX_REQUEST_DATA};
use crate::obid::status::{status_of, Status};
use vstd::prelude::*;
use vstd::slice::slice_subrange;

verus! {

/// The bus address that every reader answers to.
pub const BROADCAST: u8 = 0xFF;

/// The control byte of a system reset.
pub const CTL_SYSTEM_RESET: u8 = 0x64;

/// The control byte that switches the RF field.
pub const CTL_RF_FIELD: u8 = 0x6A;

/// The control byte that writes a configuration block.
pub const CTL_WRITE_CONFIGURATION: u8 = 0x8B;

/// The control byte of the commands for transponders.
pub const CTL_TRANSPONDER: u8 = 0xB0;

/// The transponder command that writes blocks.
pub const CMD_WRITE_BLOCKS: u8 = 0x24;

/// The mode of a transponder command that names its transponder.
pub const MODE_ADDRESSED: u8 = 0x01;

/// The bytes of one block of a transponder.
pub const BLOCK_SIZE: u8 = 0x04;

/// The raw status with which the reader refuses a parameter.
pub const STATUS_PARAMETER_RANGE: u8 = 0x11;

/// The bytes of one transponder in an inventory: its type, its DSFID and
/// its serial number.
pub const INVENTORY_RECORD: usize = 10;

/// Whether `request` is a fresh request to every reader with the given
/// control byte, payload and repeat flag.
pub open spec fn is_request(
    request: HostToReader,
    control_byte: u8,
    data: Seq<u8>,
    device_required: bool,
) -> bool {
    &&& request.alength == 0
    &&& request.com_adr == BROADCAST
    &&& request.control_byte == control_byte
    &&& request.data@ == data
    &&& request.crc16 == 0
    &&& request.device_required == device_required
}

/// The payload of an inventory request.
pub open spec fn inventory_payload() -> Seq<u8> {
    seq![0x01u8, 0x00u8]
}

/// The request for the transponders in the field.
pub fn inventory_request(expect_device: bool) -> (request: HostToReader)
    ensures
        is_request(request, CTL_TRANSPONDER, inventory_payload(), expect_device),
{
    let data: [u8; 2] = [0x01, 0x00];
    HostToReader::new(0, BROADCAST, CTL_TRANSPONDER, data.as_slice(), 0, expect_device)
}

/// Whether a power level can be set: low power, or 2 to 12 watts.
pub open spec fn power_level_valid(level: u8) -> bool {
    level == 0 || 2 <= level <= 12
}

/// The byte that stands for a power level in the configuration: the top
/// bit says that the rest counts quarters of a watt; low power is one
/// watt.
pub open spec fn encoded_power(level: u8) -> u8 {
    if level == 0 {
        0x80u8 | 0x04u8
    } else {
        0x80u8 | (0x3Fu8 & ((level * 4) as u8))
    }
}

/// The payload that writes the power level into the configuration.
pub open spec fn power_payload(level: u8) -> Seq<u8> {
    seq![
        0x02u8,
        0x01u8,
        0x01u8,
        0x01u8,
        30u8,
        0x00u8,
        0x03u8,
        0x00u8,
        0x08u8,
        encoded_power(level),
        0x80u8,
        0u8,
        0u8,
        0u8,
        0u8,
        0u8,
        0u8,
        0u8,
        0u8,
        0u8,
        0x81u8,
    ]
}

/// The request that sets the RF power.
pub fn power_request(rf_power: u8) -> (request: HostToReader)
    requires
        power_level_valid(rf_power),
    ensures
        is_request(request, CTL_WRITE_CONFIGURATION, power_payload(rf_power), false),
{
    let encoded_rf_power: u8 = if rf_power == 0 {
        0b1000_0000 | 0x04
    } else {
        0b1000_0000 | (0b0011_1111 & (rf_power * 4))
    };
    let data: [u8; 21] = [
        0x2,
        0x1,
        0x1,
        0x1,
        30,
        0x00,
        0x03,
        0x00,
        0x08,
        encoded_rf_power,
        0x80,
        0,
        0,
        0,
        0,
        0,
        0,
        0,
        0,
        0,
        0b1000_0001,
    ];
    let request = HostToReader::new(
        0,
        BROADCAST,
        CTL_WRITE_CONFIGURATION,
        data.as_slice(),
        0,
        false,
    );
    proof {
        assert(request.data@ =~= power_payload(rf_power));
    }
    request
}

/// The request that resets the reader.
pub fn reset_request() -> (request: HostToReader)
    ensures
        is_request(request, CTL_SYSTEM_RESET, seq![0u8], false),
{
    let data: [u8; 1] = [0];
    let request = HostToReader::new(0, BROADCAST, CTL_SYSTEM_RESET, data.as_slice(), 0, false);
    proof {
        assert(request.data@ =~= seq![0u8]);
    }
    request
}

/// What a response to the power request means for the command: the
/// connection's error, a refusal where the reader reports a parameter out
/// of range, success for every other status.
pub open spec fn power_result(response: Result<ReaderToHost>) -> Result<()> {
    match response {
        Ok(response) => if response.status == STATUS_PARAMETER_RANGE {
            Err(InternalError::PowerLevelRejected)
        } else {
            Ok(())
        },
        Err(error) => Err(error),
    }
}

/// What a response to a system reset means for the command: the
/// connection's error, a failure for every status but `Ok`.
pub open spec fn reset_result(response: Result<ReaderToHost>) -> Result<()> {
    match response {
        Ok(response) => if status_of(response.status) != Status::Okay {
            Err(InternalError::SystemResetFailed(status_of(response.status)))
        } else {
            Ok(())
        },
        Err(error) => Err(error),
    }
}

/// What a response to a command means for the command: the connection's
/// error, a failure for every status but `Ok`.
pub open spec fn command_result(response: Result<ReaderToHost>) -> Result<()> {
    match response {
        Ok(response) => if status_of(response.status) != Status::Okay {
            Err(InternalError::CommandFailed(status_of(response.status)))
        } else {
            Ok(())
        },
        Err(error) => Err(error),
    }
}

/// Concludes the setting of the RF power from the reader's response.
pub fn power_outcome(response: Result<ReaderToHost>) -> (result: Result<()>)
    ensures
        result == power_result(response),
{
    match response {
        Ok(response) => if response.status == STATUS_PARAMETER_RANGE {
            Err(InternalError::PowerLevelRejected)
        } else {
            Ok(())
        },
        Err(error) => Err(error),
    }
}

/// Concludes a system reset from the reader's response.
pub fn reset_outcome(response: Result<ReaderToHost>) -> (result: Result<()>)
    ensures
        result == reset_result(response),
{
    match response {
        Ok(response) => {
            let status = Status::from(response.status);
            if status != Status::Okay {
                Err(InternalError::SystemResetFailed(status))
            } else {
                Ok(())
            }
        },
        Err(error) => Err(error),
    }
}

/// Concludes a command from the reader's response.
pub fn command_outcome(response: Result<ReaderToHost>) -> (result: Result<()>)
    ensures
        result == command_result(response),
{
    match response {
        Ok(response) => {
            let status = Status::from(response.status);
            if status != Status::Okay {
                Err(InternalError::CommandFailed(status))
            } else {
                Ok(())
            }
        },
        Err(error) => Err(error),
    }
}

/// Whether a response lists transponders: its status is `Ok` and it has a
/// payload.
pub open spec fn inventory_listed(status: u8, data: Seq<u8>) -> bool {
    status == 0 && data.len() > 0
}

/// Whether the payload of an inventory is as long as its count of
/// transponders asks for.
pub open spec fn inventory_well_formed(data: Seq<u8>) -> bool {
    data.len() == 1 + data[0] * INVENTORY_RECORD
}

/// The RF technology in a transponder's type byte: its top two bits.
pub open spec fn rf_technology(tr_type: u8) -> u8 {
    (tr_type & 0b1100_0000) >> 6
}

/// The type number in a transponder's type byte: its low four bits.
pub open spec fn type_number(tr_type: u8) -> u8 {
    tr_type & 0b0000_1111
}

/// The transponder at place `index` of an inventory.
pub open spec fn inventory_record(data: Seq<u8>, index: int) -> TransponderModel {
    let at = 1 + INVENTORY_RECORD * index;
    TransponderModel {
        uid: data.subrange(at + 2, at + INVENTORY_RECORD),
        tr_type_rf_tec: rf_technology(data[at]),
        tr_type_type_no: type_number(data[at]),
        dsfid: data[at + 1],
    }
}

/// The transponders that a response lists: as many as its first byte
/// counts, or none where the response lists nothing.
pub open spec fn inventory_models(status: u8, data: Seq<u8>) -> Seq<TransponderModel> {
    if inventory_listed(status, data) {
        Seq::new(data[0] as nat, |index: int| inventory_record(data, index))
    } else {
        Seq::empty()
    }
}

/// Reads the transponders out of the response to an inventory request. A
/// response with another status than `Ok`, or without payload, lists
/// none. A payload that is not as long as its count asks for is refused.
pub fn inventory_outcome(response: Result<ReaderToHost>) -> (result: Result<TransponderList>)
    ensures
        match response {
            Ok(response) => if inventory_listed(response.status, response.data@)
                && !inventory_well_formed(response.data@) {
                result == Err::<TransponderList, InternalError>(InternalError::InventoryFormat)
            } else {
                &&& result is Ok
                &&& result->Ok_0@ == inventory_models(response.status, response.data@)
            },
            Err(error) => result == Err::<TransponderList, InternalError>(error),
        },
{
    let response = match response {
        Ok(response) => response,
        Err(error) => {
            return Err(error);
        },
    };
    let mut transponders = TransponderList::new();
    if response.status == 0 && response.data.len() > 0 {
        let encoded_transponders: u8 = response.data[0];
        let count: usize = encoded_transponders as usize;
        if response.data.len() - 1 != count * INVENTORY_RECORD {
            return Err(InternalError::InventoryFormat);
        }
        let mut i: usize = 0;
        while i < count
            invariant
                i <= count,
                count == response.data@[0],
                response.data@.len() == 1 + count * INVENTORY_RECORD,
                transponders@ == Seq::new(
                    i as nat,
                    |index: int| inventory_record(response.data@, index),
                ),
            decreases count - i,
        {
            let begin: usize = 1 + INVENTORY_RECORD * i;
            let end: usize = begin + INVENTORY_RECORD;
            let tr_type: u8 = response.data[begin];
            let tr_type_rf_tec: u8 = (tr_type & 0b1100_0000) >> 6;
            let tr_type_type_no: u8 = tr_type & 0b0000_1111;
            let dsfid: u8 = response.data[begin + 1];
            let uid = slice_subrange(response.data.as_slice(), begin + 2, end);
            transponders.push(ObidTransponder::new(uid, tr_type_rf_tec, tr_type_type_no, dsfid));
            proof {
                assert(transponders@ =~= Seq::new(
                    (i + 1) as nat,
                    |index: int| inventory_record(response.data@, index),
                ));
            }
            i = i + 1;
        }
        Ok(transponders)
    } else {
        Ok(transponders)
    }
}

/// A message filled up with zeros to a whole number of blocks.
pub open spec fn padded(message: Seq<u8>) -> Seq<u8> {
    message + Seq::new(((4 - message.len() % 4) % 4) as nat, |i: int| 0u8)
}

/// The message for the given blocks: its length, the op-mode byte, the
/// command code and the data.
pub open spec fn protocol_message(
    timer: Option<TimerModeBlock>,
    actuators: Option<ActuatorModeBlocks>,
    op_mode: Option<OpModeBlock>,
) -> Seq<u8> {
    let op_mode = match op_mode {
        Some(block) => block,
        None => default_op_mode(),
    };
    let data = message_data(timer, actuators, op_mode);
    seq![(data.len() + 3) as u8, op_mode_byte(op_mode), op_mode.command] + data
}

/// The payload that writes `message` into the blocks of the transponder
/// `uid`: the command, the mode, the number and size of the blocks, the
/// address of the first block, the serial number, and the message filled
/// up to whole blocks.
pub open spec fn write_blocks_payload(uid: Seq<u8>, message: Seq<u8>) -> Seq<u8> {
    seq![
        CMD_WRITE_BLOCKS,
        MODE_ADDRESSED,
        (padded(message).len() / 4) as u8,
        BLOCK_SIZE,
        0x00u8,
    ] + uid + padded(message)
}

/// The payload that carries the given blocks to the transponder `uid`. A
/// serial number of another length than eight bytes is refused.
pub fn actuators_payload(
    uid: &[u8],
    timer_mode_block: &Option<TimerModeBlock>,
    actuator_mode_blocks: &Option<ActuatorModeBlocks>,
    op_mode_block: &Option<OpModeBlock>,
) -> (payload: Result<Vec<u8>>)
    ensures
        uid@.len() != UID_LENGTH <==> payload == Err::<Vec<u8>, InternalError>(
            InternalError::UidLength(uid@.len() as usize),
        ),
        uid@.len() == UID_LENGTH <==> payload is Ok,
        payload is Ok ==> payload->Ok_0@ == write_blocks_payload(
            uid@,
            protocol_message(*timer_mode_block, *actuator_mode_blocks, *op_mode_block),
        ),
        payload is Ok ==> payload->Ok_0@.len() <= MAX_REQUEST_DATA,
{
    if uid.len() != UID_LENGTH {
        return Err(InternalError::UidLength(uid.len()));
    }
    let message = match HapticV0Message::new(timer_mode_block, actuator_mode_blocks, op_mode_block)
    {
        Ok(message) => message,
        Err(error) => {
            return Err(error);
        },
    };
    let mut prot_data = message.marshalled();
    let ghost marshalled = prot_data@;
    while prot_data.len() % 4 != 0
        invariant
            marshalled.len() <= 44,
            marshalled.len() <= prot_data@.len() <= 44,
            prot_data@.len() - marshalled.len() <= (4 - marshalled.len() % 4) % 4,
            prot_data@ == marshalled + Seq::new(
                (prot_data@.len() - marshalled.len()) as nat,
                |i: int| 0u8,
            ),
        decreases 44 - prot_data@.len(),
    {
        prot_data.push(0);
    }
    proof {
        assert(prot_data@ =~= padded(marshalled));
    }
    let db_n: u8 = (prot_data.len() / (BLOCK_SIZE as usize)) as u8;
    let mut feig_data: Vec<u8> = Vec::new();
    feig_data.push(CMD_WRITE_BLOCKS);
    feig_data.push(MODE_ADDRESSED);
    feig_data.push(db_n);
    feig_data.push(BLOCK_SIZE);
    feig_data.push(0x00);
    let mut i: usize = 0;
    while i < uid.len()
        invariant
            i <= uid@.len(),
            feig_data@ == seq![CMD_WRITE_BLOCKS, MODE_ADDRESSED, db_n, BLOCK_SIZE, 0x00u8]
                + uid@.take(i as int),
        decreases uid@.len() - i,
    {
        feig_data.push(uid[i]);
        proof {
            assert(uid@.take(i + 1) == uid@.take(i as int).push(uid@[i as int]));
        }
        i = i + 1;
    }
    proof {
        assert(uid@.take(i as int) == uid@);
    }
    feig_data.append(&mut prot_data);
    Ok(feig_data)
}

/// The message comes in whole blocks: its padded length is a multiple of
/// four, at most 44, and the block count of the payload times four is
/// that length.
pub proof fn lemma_payload_blocks(
    uid: Seq<u8>,
    timer: Option<TimerModeBlock>,
    actuators: Option<ActuatorModeBlocks>,
    op_mode: Option<OpModeBlock>,
)
    ensures
        ({
            let message = protocol_message(timer, actuators, op_mode);
            let payload = write_blocks_payload(uid, message);
            &&& padded(message).len() % 4 == 0
            &&& padded(message).len() <= 44
            &&& payload[2] * 4 == padded(message).len()
            &&& payload.len() == 5 + uid.len() + padded(message).len()
            &&& payload.skip(5 + uid.len() as int) == padded(message)
        }),
{
    let resolved = match op_mode {
        Some(block) => block,
        None => default_op_mode(),
    };
    lemma_message_data_len(timer, actuators, resolved);
    let message = protocol_message(timer, actuators, op_mode);
    let payload = write_blocks_payload(uid, message);
    assert(payload.skip(5 + uid.len() as int) =~= padded(message));
}

} // verus!
