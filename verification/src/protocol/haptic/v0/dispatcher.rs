//! The dispatcher of the haptic protocol: it owns the connection to the
//! reader and the registry of fabrics, and carries out the commands of
//! clients, each by the requests that it sends to the reader.
//!
//! What the reader answers is not the dispatcher's to know. Each handler
//! says which request it has handed to the connection, and what it has
//! made of whatever came back.

use super::blocks::{ActuatorModeBlocks, ActuatorsCommand, OpModeBlock, TimerModeBlock};
use super::fabric::{TransponderList, V0Fabric, UID_LENGTH};
use super::hexadecimal::{hex_decode, hex_decoded, hex_failure, text_bytes};
use super::message::{default_op_mode, message_data, op_mode_byte, used_slots};
use super::payload::{
    actuators_payload, command_outcome, command_result, inventory_listed, inventory_models,
    inventory_outcome, inventory_payload, inventory_request, inventory_well_formed, is_request,
    power_level_valid, power_outcome, power_payload, power_request, power_result,
    protocol_message, reset_outcome, reset_request, reset_result, write_blocks_payload,
    CTL_RF_FIELD, CTL_SYSTEM_RESET, CTL_TRANSPONDER, CTL_WRITE_CONFIGURATION,
};
use super::registry::{Registered, Registry};
use super::state::{
    cold_state, command_applied, command_diff, is_full, lemma_second_diff_is_empty,
    V0FabricState,
};
use crate::conn::common::Connection;
use crate::error::{InternalError, Result};
use crate::obid::advanced_protocol::{HostToReader, ReaderToHost, MAX_REQUEST_DATA};
use crate::obid::protocol::ObidSerialSendable;
use crate::protocol::common::{CommandMessage, Fabric, Protocol};
use vstd::prelude::*;

verus! {

/// One request that a dispatcher has handed to its connection, and what
/// the connection brought back.
pub struct Sent {
    /// The request.
    pub request: HostToReader,
    /// The response, or the error of the connection.
    pub response: Result<ReaderToHost>,
}

/// The dispatcher of the haptic protocol.
pub struct HapticV0Protocol<C: Connection> {
    conn: C,
    registry: Registry,
    sent: Ghost<Seq<Sent>>,
}

/// The command that is sent for `command` to a fabric in the state
/// `state`: what differs from the state where the command allows it and
/// the cache is warm, else the command itself.
pub open spec fn command_to_send(state: ActuatorsCommand, command: ActuatorsCommand)
    -> ActuatorsCommand {
    if command.use_cache != Some(false) && state.use_cache == Some(true) {
        command_diff(state, command)
    } else {
        command
    }
}

/// The payload that carries `command` to the transponder `uid`.
pub open spec fn command_payload(uid: Seq<u8>, command: ActuatorsCommand) -> Seq<u8> {
    write_blocks_payload(
        uid,
        protocol_message(
            command.timer_mode_block,
            command.actuator_mode_blocks,
            command.op_mode_block,
        ),
    )
}

/// A command that repeats the one that has just been applied goes out as
/// its op-mode alone, unless it bypasses the cache: the message holds no
/// timers and no actuator bytes, whatever the class of the operation.
pub proof fn lemma_repeated_command_is_bare(state: ActuatorsCommand, command: ActuatorsCommand)
    requires
        is_full(state),
        command.use_cache != Some(false),
    ensures
        ({
            let sent = command_to_send(command_applied(state, command), command);
            let op_mode = match command.op_mode_block {
                Some(block) => block,
                None => default_op_mode(),
            };
            &&& sent.op_mode_block == command.op_mode_block
            &&& message_data(sent.timer_mode_block, sent.actuator_mode_blocks, op_mode)
                == Seq::<u8>::empty()
            &&& protocol_message(
                sent.timer_mode_block,
                sent.actuator_mode_blocks,
                sent.op_mode_block,
            ) == seq![3u8, op_mode_byte(op_mode), op_mode.command]
        }),
{
    lemma_second_diff_is_empty(state, command);
    reveal_with_fuel(used_slots, 10);
    let sent = command_to_send(command_applied(state, command), command);
    let op_mode = match command.op_mode_block {
        Some(block) => block,
        None => default_op_mode(),
    };
    assert(ActuatorModeBlocks::none().slots().len() == 8);
    assert(message_data(sent.timer_mode_block, sent.actuator_mode_blocks, op_mode)
        =~= Seq::<u8>::empty());
    assert(protocol_message(sent.timer_mode_block, sent.actuator_mode_blocks, sent.op_mode_block)
        =~= seq![3u8, op_mode_byte(op_mode), op_mode.command]);
}

/// What the response to an inventory request means for the caller.
pub open spec fn inventory_result(
    response: Result<ReaderToHost>,
    result: Result<TransponderList>,
) -> bool {
    match response {
        Ok(response) => if inventory_listed(response.status, response.data@)
            && !inventory_well_formed(response.data@) {
            result == Err::<TransponderList, InternalError>(InternalError::InventoryFormat)
        } else {
            &&& result is Ok
            &&& result->Ok_0@ == inventory_models(response.status, response.data@)
        },
        Err(error) => result == Err::<TransponderList, InternalError>(error),
    }
}

impl<C: Connection> HapticV0Protocol<C> {
    /// The fabrics that are registered, each with its state, by name.
    pub closed spec fn registry(&self) -> Map<Seq<char>, Registered> {
        self.registry@
    }

    /// The connection that the dispatcher sends its requests on.
    pub closed spec fn connection(&self) -> C {
        self.conn
    }

    /// The requests that the dispatcher has handed to its connection so
    /// far, each with what came back, in order.
    pub closed spec fn sent(&self) -> Seq<Sent> {
        self.sent@
    }

    /// Whether, since `before`, the dispatcher has sent nothing: its
    /// connection is as it was.
    pub open spec fn sent_nothing_since(&self, before: &Self) -> bool {
        &&& self.sent() == before.sent()
        &&& self.connection() == before.connection()
    }

    /// Whether, since `before`, the dispatcher has sent exactly one
    /// request: a fresh request with the given control byte, payload and
    /// repeat flag, to which the connection, as it was before, has brought
    /// back what it promises for that request.
    pub open spec fn sent_one_since(
        &self,
        before: &Self,
        control_byte: u8,
        data: Seq<u8>,
        device_required: bool,
    ) -> bool {
        &&& self.sent().len() == before.sent().len() + 1
        &&& self.sent().drop_last() == before.sent()
        &&& is_request(self.sent().last().request, control_byte, data, device_required)
        &&& before.connection().answered(self.sent().last().request, self.sent().last().response)
    }

    /// The response to the last request that the dispatcher has sent.
    pub open spec fn last_response(&self) -> Result<ReaderToHost> {
        self.sent().last().response
    }

    /// Whether every fabric but `fabric_name` is as it was before.
    pub open spec fn others_kept(&self, before: &Self, fabric_name: Seq<char>) -> bool {
        forall|other: Seq<char>|
            other != fabric_name && before.registry().contains_key(other) ==> {
                &&& #[trigger] self.registry().contains_key(other)
                &&& self.registry()[other] == before.registry()[other]
            }
    }

    /// What holds after the inventory was asked for: one request has gone
    /// out, and the result is read from the response.
    pub open spec fn after_inventory(
        &self,
        before: &Self,
        expect_device: bool,
        result: Result<TransponderList>,
    ) -> bool {
        &&& self.registry() == before.registry()
        &&& self.sent_one_since(before, CTL_TRANSPONDER, inventory_payload(), expect_device)
        &&& inventory_result(self.last_response(), result)
    }

    /// What holds after the RF power was to be set: a level that cannot
    /// be set is refused and nothing has gone out; else one request has
    /// gone out, and the result is read from the response.
    pub open spec fn after_power(&self, before: &Self, rf_power: u8, result: Result<()>) -> bool {
        &&& self.registry() == before.registry()
        &&& if power_level_valid(rf_power) {
            &&& self.sent_one_since(
                before,
                CTL_WRITE_CONFIGURATION,
                power_payload(rf_power),
                false,
            )
            &&& result == power_result(self.last_response())
        } else {
            &&& self.sent_nothing_since(before)
            &&& result == Err::<(), InternalError>(InternalError::PowerLevelOutOfRange(rf_power))
        }
    }

    /// What holds after the reader was to be reset: one request has gone
    /// out, and the result is read from the response.
    pub open spec fn after_reset(&self, before: &Self, result: Result<()>) -> bool {
        &&& self.registry() == before.registry()
        &&& self.sent_one_since(before, CTL_SYSTEM_RESET, seq![0u8], false)
        &&& result == reset_result(self.last_response())
    }

    /// What holds after a frame was to be sent: a payload that no frame
    /// can hold is refused and nothing has gone out; else one request has
    /// gone out, and the result is read from the response.
    pub open spec fn after_custom(
        &self,
        before: &Self,
        control_byte: u8,
        data: Seq<u8>,
        device_required: bool,
        result: Result<()>,
    ) -> bool {
        &&& self.registry() == before.registry()
        &&& if data.len() <= MAX_REQUEST_DATA {
            &&& self.sent_one_since(before, control_byte, data, device_required)
            &&& result == command_result(self.last_response())
        } else {
            &&& self.sent_nothing_since(before)
            &&& result == Err::<(), InternalError>(
                InternalError::PayloadTooLong(data.len() as usize),
            )
        }
    }

    /// What holds after blocks were to be written to a transponder: a
    /// serial number of another length than eight is refused and nothing
    /// has gone out; else one request has gone out, which needs a
    /// transponder, and the result is read from the response.
    pub open spec fn after_actuators(
        &self,
        before: &Self,
        uid: Seq<u8>,
        timer_mode_block: Option<TimerModeBlock>,
        actuator_mode_blocks: Option<ActuatorModeBlocks>,
        op_mode_block: Option<OpModeBlock>,
        result: Result<()>,
    ) -> bool {
        &&& self.registry() == before.registry()
        &&& if uid.len() == UID_LENGTH {
            &&& self.sent_one_since(
                before,
                CTL_TRANSPONDER,
                write_blocks_payload(
                    uid,
                    protocol_message(timer_mode_block, actuator_mode_blocks, op_mode_block),
                ),
                true,
            )
            &&& result == command_result(self.last_response())
        } else {
            &&& self.sent_nothing_since(before)
            &&& result == Err::<(), InternalError>(InternalError::UidLength(uid.len() as usize))
        }
    }

    /// What holds after the actuators of a fabric were commanded. For a
    /// fabric that is not registered, or that has no identifier, the
    /// command fails and nothing has gone out. Else one request has gone
    /// out, with the command or with what of it differs from the fabric's
    /// state; the result is read from the response; and where it is a
    /// success, the command has been applied to the fabric's state.
    pub open spec fn after_fabric_command(
        &self,
        before: &Self,
        command: ActuatorsCommand,
        result: Result<()>,
    ) -> bool {
        let name = command.fabric_name@;
        if !before.registry().contains_key(name) {
            &&& result matches Err(InternalError::UnknownFabric(unknown))
            &&& unknown@ == name
            &&& self.sent_nothing_since(before)
            &&& self.registry() == before.registry()
        } else {
            let entry = before.registry()[name];
            match entry.fabric.identified() {
                None => {
                    &&& result == Err::<(), InternalError>(
                        InternalError::NoIdentifier(entry.fabric.members() as usize),
                    )
                    &&& self.sent_nothing_since(before)
                    &&& self.registry() == before.registry()
                },
                Some(uid) => if uid.len() != UID_LENGTH {
                    &&& result == Err::<(), InternalError>(
                        InternalError::UidLength(uid.len() as usize),
                    )
                    &&& self.sent_nothing_since(before)
                    &&& self.registry() == before.registry()
                } else {
                    &&& self.sent_one_since(
                        before,
                        CTL_TRANSPONDER,
                        command_payload(uid, command_to_send(entry.state@, command)),
                        true,
                    )
                    &&& result == command_result(self.last_response())
                    &&& result is Err ==> self.registry() == before.registry()
                    &&& result is Ok ==> {
                        &&& self.registry().dom() == before.registry().dom()
                        &&& self.others_kept(before, name)
                        &&& self.registry()[name].fabric == entry.fabric
                        &&& self.registry()[name].state@ == command_applied(entry.state@, command)
                    }
                },
            }
        }
    }

    /// What holds after a fabric was to be registered: one inventory
    /// request has gone out, which needs a transponder. Where the
    /// response lists at least one transponder, the fabric is registered
    /// with the listed transponders and a cold state; else the command
    /// fails and the registry is as it was.
    pub open spec fn after_add_fabric(
        &self,
        before: &Self,
        fabric_name: Seq<char>,
        result: Result<()>,
    ) -> bool {
        &&& self.sent_one_since(before, CTL_TRANSPONDER, inventory_payload(), true)
        &&& result is Err ==> self.registry() == before.registry()
        &&& match self.last_response() {
            Ok(response) => if inventory_listed(response.status, response.data@)
                && !inventory_well_formed(response.data@) {
                result == Err::<(), InternalError>(InternalError::InventoryFormat)
            } else if inventory_models(response.status, response.data@).len() == 0 {
                result == Err::<(), InternalError>(InternalError::EmptyInventory)
            } else {
                &&& result is Ok
                &&& self.registry().dom() == before.registry().dom().insert(fabric_name)
                &&& self.others_kept(before, fabric_name)
                &&& self.registry()[fabric_name].fabric.name@ == fabric_name
                &&& self.registry()[fabric_name].fabric.transponders() == inventory_models(
                    response.status,
                    response.data@,
                )
                &&& cold_state(fabric_name, self.registry()[fabric_name].state@)
            },
            Err(error) => result == Err::<(), InternalError>(error),
        }
    }

    /// What holds after a fabric was to be removed: nothing has gone out,
    /// the fabric is registered no longer, and the command has failed
    /// exactly where the fabric was not registered.
    pub open spec fn after_remove_fabric(
        &self,
        before: &Self,
        fabric_name: Seq<char>,
        result: Result<()>,
    ) -> bool {
        &&& self.sent_nothing_since(before)
        &&& self.registry() == before.registry().remove(fabric_name)
        &&& if before.registry().contains_key(fabric_name) {
            result is Ok
        } else {
            result == Err::<(), InternalError>(InternalError::NoFabricToRemove)
        }
    }

    /// What holds after a frame with a payload in hexadecimal was to be
    /// sent: a text that is no hexadecimal is refused with the reason and
    /// nothing has gone out; else the bytes that the text stands for were
    /// to be sent.
    pub open spec fn after_custom_hex(
        &self,
        before: &Self,
        control_byte: u8,
        data: Seq<char>,
        device_required: bool,
        result: Result<()>,
    ) -> bool {
        match hex_failure(text_bytes(data)) {
            None => self.after_custom(
                before,
                control_byte,
                hex_decoded(text_bytes(data)),
                device_required,
                result,
            ),
            Some(failure) => {
                &&& result == Err::<(), InternalError>(InternalError::HexError(failure))
                &&& self.sent_nothing_since(before)
                &&& self.registry() == before.registry()
            },
        }
    }

    /// What holds after `message` was handled: what holds after the
    /// command that it stands for. The messages that are no commands to
    /// the reader succeed, and change nothing.
    pub open spec fn after_message(
        &self,
        before: &Self,
        message: CommandMessage,
        result: Result<()>,
    ) -> bool {
        match message {
            CommandMessage::RfFieldState { state } => self.after_custom(
                before,
                CTL_RF_FIELD,
                seq![state],
                false,
                result,
            ),
            CommandMessage::AddFabric { fabric_name } => self.after_add_fabric(
                before,
                fabric_name@,
                result,
            ),
            CommandMessage::RemoveFabric { fabric_name } => self.after_remove_fabric(
                before,
                fabric_name@,
                result,
            ),
            CommandMessage::SystemReset {  } => self.after_reset(before, result),
            CommandMessage::SetRadioFreqPower { power_level } => self.after_power(
                before,
                power_level,
                result,
            ),
            CommandMessage::CustomCommand {
                control_byte,
                data,
                device_required,
            } => self.after_custom_hex(before, control_byte, data@, device_required, result),
            CommandMessage::ActuatorsCommand {
                fabric_name,
                timer_mode_block,
                actuator_mode_blocks,
                op_mode_block,
                use_cache,
            } => self.after_fabric_command(
                before,
                ActuatorsCommand {
                    fabric_name,
                    op_mode_block,
                    actuator_mode_blocks,
                    timer_mode_block,
                    use_cache,
                },
                result,
            ),
            _ => {
                &&& result is Ok
                &&& self.sent_nothing_since(before)
                &&& self.registry() == before.registry()
            },
        }
    }

    /// A dispatcher on the given connection, without fabrics.
    pub fn new(connection: C) -> (protocol: HapticV0Protocol<C>)
        ensures
            protocol.connection() == connection,
            protocol.registry() == Map::<Seq<char>, Registered>::empty(),
            protocol.sent() == Seq::<Sent>::empty(),
    {
        HapticV0Protocol { conn: connection, registry: Registry::new(), sent: Ghost(Seq::empty()) }
    }

    /// Hands a request to the connection and notes it.
    fn send(&mut self, request: HostToReader) -> (response: Result<ReaderToHost>)
        requires
            request.fits(),
        ensures
            final(self).sent() == old(self).sent().push(Sent { request, response }),
            final(self).sent().drop_last() == old(self).sent(),
            final(self).registry() == old(self).registry(),
            old(self).connection().answered(request, response),
    {
        let ghost before = self.sent@;
        let response = self.conn.send_command(request);
        proof {
            self.sent@ = before.push(Sent { request, response });
            assert(before.push(Sent { request, response }).drop_last() =~= before);
        }
        response
    }

    /// Asks the reader for the transponders in the antenna field. With
    /// `expect_device` the connection repeats the request while no
    /// transponder answers.
    pub fn get_inventory(&mut self, expect_device: bool) -> (result: Result<TransponderList>)
        ensures
            final(self).after_inventory(old(self), expect_device, result),
    {
        let inventory_request = inventory_request(expect_device);
        let inventory_response = self.send(inventory_request);
        inventory_outcome(inventory_response)
    }

    /// Sets the RF power of the antenna: 0 for low power, else 2 to 12
    /// watts. Any other level is refused before anything is sent.
    pub fn set_radio_freq_power(&mut self, rf_power: u8) -> (result: Result<()>)
        ensures
            final(self).after_power(old(self), rf_power, result),
    {
        if !(rf_power == 0 || (rf_power >= 2 && rf_power <= 12)) {
            return Err(InternalError::PowerLevelOutOfRange(rf_power));
        }
        let request = power_request(rf_power);
        let response = self.send(request);
        power_outcome(response)
    }

    /// Resets the reader.
    pub fn system_reset(&mut self) -> (result: Result<()>)
        ensures
            final(self).after_reset(old(self), result),
    {
        let request = reset_request();
        let response = self.send(request);
        reset_outcome(response)
    }

    /// Sends a frame with the given control byte and payload, and asks
    /// for the status `Ok` in return. A payload that no frame can hold is
    /// refused before anything is sent.
    pub fn custom_command(&mut self, control_byte: u8, data: &[u8], device_required: bool) -> (result:
        Result<()>)
        ensures
            final(self).after_custom(old(self), control_byte, data@, device_required, result),
    {
        if data.len() > MAX_REQUEST_DATA {
            return Err(InternalError::PayloadTooLong(data.len()));
        }
        let request = HostToReader::new(0, 0xFF, control_byte, data, 0, device_required);
        let response = self.send(request);
        command_outcome(response)
    }

    /// Writes the given blocks to the transponder `uid`, in one frame. A
    /// serial number of another length than eight bytes is refused before
    /// anything is sent.
    pub fn actuators_command(
        &mut self,
        uid: &[u8],
        timer_mode_block: &Option<TimerModeBlock>,
        actuator_mode_blocks: &Option<ActuatorModeBlocks>,
        op_mode_block: &Option<OpModeBlock>,
    ) -> (result: Result<()>)
        ensures
            final(self).after_actuators(
                old(self),
                uid@,
                *timer_mode_block,
                *actuator_mode_blocks,
                *op_mode_block,
                result,
            ),
    {
        let feig_data = match actuators_payload(
            uid,
            timer_mode_block,
            actuator_mode_blocks,
            op_mode_block,
        ) {
            Ok(feig_data) => feig_data,
            Err(error) => {
                return Err(error);
            },
        };
        self.custom_command(CTL_TRANSPONDER, feig_data.as_slice(), true)
    }

    /// Commands the actuators of the fabric `fabric_name`. Where the
    /// command allows it and the fabric's cache is warm, only what
    /// differs from the fabric's state is sent. Once the reader has
    /// answered with `Ok`, the command is applied to the fabric's state.
    pub fn handle_actuators_command(
        &mut self,
        fabric_name: &String,
        timer_mode_block: &Option<TimerModeBlock>,
        actuator_mode_blocks: &Option<ActuatorModeBlocks>,
        op_mode_block: &Option<OpModeBlock>,
        use_cache: &Option<bool>,
    ) -> (result: Result<()>)
        ensures
            final(self).after_fabric_command(
                old(self),
                ActuatorsCommand {
                    fabric_name: *fabric_name,
                    op_mode_block: *op_mode_block,
                    actuator_mode_blocks: *actuator_mode_blocks,
                    timer_mode_block: *timer_mode_block,
                    use_cache: *use_cache,
                },
                result,
            ),
    {
        let entry = match self.registry.get(fabric_name.as_str()) {
            Some(entry) => entry,
            None => {
                return Err(InternalError::UnknownFabric(fabric_name.clone()));
            },
        };
        let fabric_id = match entry.fabric.identifier() {
            Ok(fabric_id) => fabric_id,
            Err(error) => {
                return Err(error);
            },
        };
        let actuators_command = ActuatorsCommand {
            fabric_name: fabric_name.clone(),
            timer_mode_block: *timer_mode_block,
            actuator_mode_blocks: *actuator_mode_blocks,
            op_mode_block: *op_mode_block,
            use_cache: *use_cache,
        };
        let bypass = match use_cache {
            Some(flag) => !*flag,
            None => false,
        };
        let to_send = if !bypass && entry.state.is_warm() {
            entry.state.diff(
                ActuatorsCommand {
                    fabric_name: fabric_name.clone(),
                    timer_mode_block: *timer_mode_block,
                    actuator_mode_blocks: *actuator_mode_blocks,
                    op_mode_block: *op_mode_block,
                    use_cache: *use_cache,
                },
            )
        } else {
            ActuatorsCommand {
                fabric_name: fabric_name.clone(),
                timer_mode_block: *timer_mode_block,
                actuator_mode_blocks: *actuator_mode_blocks,
                op_mode_block: *op_mode_block,
                use_cache: *use_cache,
            }
        };
        let result = self.actuators_command(
            fabric_id.as_slice(),
            &to_send.timer_mode_block,
            &to_send.actuator_mode_blocks,
            &to_send.op_mode_block,
        );
        if result.is_ok() {
            self.registry.apply(fabric_name.as_str(), actuators_command);
        }
        result
    }

    /// Registers the transponders in the antenna field as the fabric
    /// `fabric_name`, with a cold state. A fabric of that name gives way
    /// to the new one. Without a transponder no fabric is registered.
    pub fn add_fabric(&mut self, fabric_name: &String) -> (result: Result<()>)
        ensures
            final(self).after_add_fabric(old(self), fabric_name@, result),
    {
        let transponders = match self.get_inventory(true) {
            Ok(transponders) => transponders,
            Err(error) => {
                return Err(error);
            },
        };
        if transponders.len() == 0 {
            return Err(InternalError::EmptyInventory);
        }
        let fabric = V0Fabric::new(fabric_name.as_str(), transponders);
        let state = V0FabricState::new(fabric_name.as_str());
        self.registry.insert(fabric, state);
        Ok(())
    }

    /// Removes the fabric `fabric_name` and its state.
    pub fn remove_fabric(&mut self, fabric_name: &String) -> (result: Result<()>)
        ensures
            final(self).after_remove_fabric(old(self), fabric_name@, result),
    {
        match self.registry.remove(fabric_name.as_str()) {
            Some(_) => Ok(()),
            None => Err(InternalError::NoFabricToRemove),
        }
    }

    /// Decodes a payload that is given in hexadecimal and sends it with
    /// the given control byte. A text that is no hexadecimal is refused
    /// before anything is sent.
    pub fn custom_hex_command(&mut self, control_byte: u8, data: &String, device_required: bool) -> (result:
        Result<()>)
        ensures
            final(self).after_custom_hex(old(self), control_byte, data@, device_required, result),
    {
        let decoded_data = match hex_decode(data.as_str()) {
            Ok(decoded_data) => decoded_data,
            Err(error) => {
                return Err(InternalError::HexError(error));
            },
        };
        self.custom_command(control_byte, decoded_data.as_slice(), device_required)
    }
}

impl<C: Connection> Protocol for HapticV0Protocol<C> {
    open spec fn handled(&self, before: &Self, message: CommandMessage, result: Result<()>) -> bool {
        self.after_message(before, message, result)
    }

    /// Carries out `message` by the handler of its kind.
    fn handle_message(&mut self, message: &CommandMessage) -> (result: Result<()>) {
        match message {
            CommandMessage::RfFieldState { state } => {
                let data: [u8; 1] = [*state];
                proof {
                    assert(data@ =~= seq![*state]);
                }
                self.custom_command(CTL_RF_FIELD, data.as_slice(), false)
            },
            CommandMessage::AddFabric { fabric_name } => self.add_fabric(fabric_name),
            CommandMessage::RemoveFabric { fabric_name } => self.remove_fabric(fabric_name),
            CommandMessage::SystemReset {  } => self.system_reset(),
            CommandMessage::SetRadioFreqPower { power_level } => self.set_radio_freq_power(
                *power_level,
            ),
            CommandMessage::CustomCommand {
                control_byte,
                data,
                device_required,
            } => self.custom_hex_command(*control_byte, data, *device_required),
            CommandMessage::ActuatorsCommand {
                fabric_name,
                timer_mode_block,
                actuator_mode_blocks,
                op_mode_block,
                use_cache,
            } => self.handle_actuators_command(
                fabric_name,
                timer_mode_block,
                actuator_mode_blocks,
                op_mode_block,
                use_cache,
            ),
            _ => Ok(()),
        }
    }
}

} // verus!
