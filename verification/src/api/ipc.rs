//! Commands that a host passes to the machine through a shared block of
//! bytes, and the answers to them.
//!
//! A command block is 1,024 bytes: the command in byte 0, the length of
//! the payload in bytes 1 to 4 (little-endian), the payload from byte 5
//! on, and in the last byte a flag that the host sets when the block
//! holds a command.

use vstd::prelude::*;
use crate::api::emulator::Emulator;
use crate::hw::bytes::copy_range;
use crate::hw::cartridge::load_error;

verus! {

/// Size of the command block.
pub const COMMAND_FILE_SIZE: usize = 1024;

/// Size of the block that answers about the machine's state are written
/// to.
pub const STATE_FILE_SIZE: usize = 8192;

/// Size of the block that the picture is written to.
pub const FRAME_FILE_SIZE: usize = 184320;

#[derive(Clone, Copy, Debug, PartialEq, Eq, Structural)]
pub enum ServerCommands {
    Noop,
    LoadCartridge,
    Reset,
    Step,
    SetKeyEvent,
    GetFrame,
    GetValueAtAddress,
    Stop,
}

/// The command that a byte stands for; a byte that stands for none is
/// `Noop`.
pub open spec fn command_of(value: u8) -> ServerCommands {
    match value {
        0 => ServerCommands::LoadCartridge,
        1 => ServerCommands::Reset,
        2 => ServerCommands::Step,
        3 => ServerCommands::SetKeyEvent,
        4 => ServerCommands::GetFrame,
        5 => ServerCommands::GetValueAtAddress,
        6 => ServerCommands::Stop,
        _ => ServerCommands::Noop,
    }
}

impl From<u8> for ServerCommands {
    fn from(value: u8) -> (command: Self)
        ensures
            command == command_of(value),
    {
        match value {
            0 => ServerCommands::LoadCartridge,
            1 => ServerCommands::Reset,
            2 => ServerCommands::Step,
            3 => ServerCommands::SetKeyEvent,
            4 => ServerCommands::GetFrame,
            5 => ServerCommands::GetValueAtAddress,
            6 => ServerCommands::Stop,
            _ => ServerCommands::Noop,
        }
    }
}

impl vstd::std_specs::convert::FromSpecImpl<u8> for ServerCommands {
    open spec fn obeys_from_spec() -> bool {
        true
    }

    open spec fn from_spec(value: u8) -> Self {
        command_of(value)
    }
}

#[derive(Debug)]
pub enum EmulatorServerError {
    ParseCommandError { msg: String },
    HandleCommandError { msg: String },
    LoadCartridgeError { msg: String },
    SetKeyEventError { msg: String },
    MemoryMappingError { msg: String },
}

/// What remains for the host to do after a command.
#[derive(Debug)]
pub enum ServerReply {
    /// Nothing.
    Done,
    /// Nothing, unless the host shows the picture: the processor took a
    /// step, and `frame_complete` says whether a new picture is there.
    Stepped { frame_complete: bool },
    /// Read the file that `path` names, and hand its bytes to `load_rom`.
    LoadRom { path: Vec<u8> },
    /// Write `data` to the picture block.
    Frame { data: Vec<u8> },
    /// Write `response` to the start of the state block.
    MemoryValue { response: [u8; 3] },
    /// Stop serving.
    Stop,
}

/// The number that four bytes from `at` on hold, lowest byte first.
pub open spec fn le_u32(bytes: Seq<u8>, at: int) -> int {
    bytes[at] + 0x100 * bytes[at + 1] + 0x1_0000 * bytes[at + 2] + 0x100_0000 * bytes[at + 3]
}

/// The block holds a command: it has its full size, and its last byte is
/// not 0.
pub open spec fn command_pending(block: Seq<u8>) -> bool {
    block.len() >= COMMAND_FILE_SIZE && block[COMMAND_FILE_SIZE - 1] != 0
}

/// The payload of the command in the block: as many bytes from byte 5 on
/// as bytes 1 to 4 say, and none where they say 0 or more than the block
/// has room for.
pub open spec fn command_payload(block: Seq<u8>) -> Seq<u8> {
    let len = le_u32(block, 1);
    if 0 < len < COMMAND_FILE_SIZE - 10 {
        block.subrange(5, 5 + len)
    } else {
        Seq::empty()
    }
}

fn read_le_u32(bytes: &[u8], at: usize) -> (value: u32)
    requires
        at + 4 <= bytes@.len(),
    ensures
        value == le_u32(bytes@, at as int),
{
    bytes[at] as u32 + 0x100 * (bytes[at + 1] as u32) + 0x1_0000 * (bytes[at + 2] as u32)
        + 0x100_0000 * (bytes[at + 3] as u32)
}

/// Takes the command out of a command block, if the block holds one. The
/// host clears the block's last byte afterwards.
pub fn read_command(block: &[u8]) -> (r: Option<(ServerCommands, Vec<u8>)>)
    ensures
        match r {
            Some((command, payload)) => {
                &&& command_pending(block@)
                &&& command == command_of(block@[0])
                &&& payload@ == command_payload(block@)
            },
            None => !command_pending(block@),
        },
{
    if block.len() < COMMAND_FILE_SIZE || block[COMMAND_FILE_SIZE - 1] == 0 {
        return None;
    }
    let command = ServerCommands::from(block[0]);
    let payload_len = read_le_u32(block, 1) as usize;
    let payload = if payload_len > 0 && payload_len < COMMAND_FILE_SIZE - 10 {
        copy_range(block, 5, payload_len)
    } else {
        Vec::new()
    };
    Some((command, payload))
}

/// The button that a key code names: the code is the button's bit in the
/// controller's byte (A, B, Select, Start, Up, Down, Left, Right from bit
/// 0 on), and a code that is no single bit names none.
pub open spec fn button_of(key: u8) -> Option<u8> {
    if key == 0x01 || key == 0x02 || key == 0x04 || key == 0x08 || key == 0x10 || key == 0x20
        || key == 0x40 || key == 0x80 {
        Some(key)
    } else {
        None
    }
}

pub fn code_to_button(key: u8) -> (button: Option<u8>)
    ensures
        button == button_of(key),
{
    match key {
        0x01 | 0x02 | 0x04 | 0x08 | 0x10 | 0x20 | 0x40 | 0x80 => Some(key),
        _ => None,
    }
}

/// The answer to a question about memory: the address, low byte first,
/// and the value.
pub fn memory_value_response(address: u16, value: u8) -> (response: [u8; 3])
    ensures
        response[0] == address % 256,
        response[1] == address / 256,
        response[2] == value,
{
    [(address % 256) as u8, (address / 256) as u8, value]
}

/// Why the payload of a command to load a cartridge is turned down, if it
/// is: it has no room for the length of the path, or is shorter than that
/// length says.
pub open spec fn path_error(payload: Seq<u8>) -> bool {
    payload.len() < 4 || payload.len() < 4 + le_u32(payload, 0)
}

/// What the error says of a payload of a command to load a cartridge
/// that is turned down.
pub open spec fn path_error_text(payload: Seq<u8>) -> Seq<char> {
    if payload.len() < 4 {
        "Invalid payload length"@
    } else {
        "Invalid payload format"@
    }
}

/// The path in the payload of a command to load a cartridge.
pub open spec fn path_of(payload: Seq<u8>) -> Seq<u8> {
    payload.subrange(4, 4 + le_u32(payload, 0))
}

/// The machine that a host serves, once a cartridge has been loaded.
pub struct ServerState {
    pub emulator: Option<Emulator>,
}

impl ServerState {
    pub open spec fn wf(&self) -> bool {
        match self.emulator {
            Some(emulator) => emulator.wf(),
            None => true,
        }
    }

    /// Says whether the machine, if there is one, is in a state that its
    /// own operations leave it in.
    pub fn is_wf(&self) -> (ok: bool)
        ensures
            ok == self.wf(),
    {
        match &self.emulator {
            Some(emulator) => emulator.is_wf(),
            None => true,
        }
    }

    pub fn new() -> (state: ServerState)
        ensures
            state.wf(),
            state.emulator is None,
    {
        ServerState { emulator: None }
    }

    /// Makes a machine of the iNES image `rom`; it takes the place of the
    /// one that was there. An image that is turned down leaves everything
    /// as it was.
    pub fn load_rom(&mut self, rom: Vec<u8>) -> (r: Result<(), EmulatorServerError>)
        requires
            old(self).wf(),
        ensures
            final(self).wf(),
            match r {
                Ok(_) => {
                    &&& load_error(rom@) is None
                    &&& final(self).emulator matches Some(emulator)
                    &&& emulator.made_of(rom@)
                },
                Err(e) => {
                    &&& load_error(rom@) is Some
                    &&& e matches EmulatorServerError::LoadCartridgeError { msg }
                    &&& msg@ == "Failed to load ROM"@
                    &&& *final(self) == *old(self)
                },
            },
    {
        match Emulator::new(rom) {
            Ok(emulator) => {
                self.emulator = Some(emulator);
                Ok(())
            },
            Err(_) => Err(
                EmulatorServerError::LoadCartridgeError { msg: "Failed to load ROM".to_owned() },
            ),
        }
    }

    fn load_cartridge(payload: &Vec<u8>) -> (r: Result<ServerReply, EmulatorServerError>)
        ensures
            match r {
                Ok(reply) => {
                    &&& !path_error(payload@)
                    &&& reply matches ServerReply::LoadRom { path }
                    &&& path@ == path_of(payload@)
                },
                Err(e) => {
                    &&& path_error(payload@)
                    &&& e matches EmulatorServerError::LoadCartridgeError { msg }
                    &&& msg@ == path_error_text(payload@)
                },
            },
    {
        if payload.len() < 4 {
            return Err(
                EmulatorServerError::LoadCartridgeError { msg: "Invalid payload length".to_owned() },
            );
        }
        let path_len = read_le_u32(payload.as_slice(), 0) as usize;
        if payload.len() - 4 < path_len {
            return Err(
                EmulatorServerError::LoadCartridgeError { msg: "Invalid payload format".to_owned() },
            );
        }
        Ok(ServerReply::LoadRom { path: copy_range(payload.as_slice(), 4, path_len) })
    }

    fn step(&mut self) -> (r: Result<ServerReply, EmulatorServerError>)
        requires
            old(self).wf(),
        ensures
            final(self).wf(),
            match old(self).emulator {
                Some(before) => {
                    &&& final(self).emulator matches Some(after)
                    &&& after.stepped_from(&before)
                    &&& match r {
                        Ok(reply) => {
                            &&& before.cpu.step_error() is None
                            &&& reply == (ServerReply::Stepped {
                                frame_complete: before.cpu.step_outcome().frame_complete,
                            })
                        },
                        Err(e) => {
                            &&& before.cpu.step_error() is Some
                            &&& e matches EmulatorServerError::HandleCommandError { msg }
                            &&& msg@ == "The processor stopped"@
                        },
                    }
                },
                None => r matches Ok(ServerReply::Done) && final(self).emulator is None,
            },
    {
        match &mut self.emulator {
            Some(emulator) => match emulator.step_emulation() {
                Ok(outcome) => Ok(ServerReply::Stepped { frame_complete: outcome.frame_complete }),
                Err(_) => Err(
                    EmulatorServerError::HandleCommandError {
                        msg: "The processor stopped".to_owned(),
                    },
                ),
            },
            None => Ok(ServerReply::Done),
        }
    }

    fn set_key(&mut self, payload: &Vec<u8>)
        requires
            old(self).wf(),
        ensures
            final(self).wf(),
            match old(self).emulator {
                Some(before) => if payload@.len() >= 5 && button_of(payload@[0]) is Some {
                    final(self).emulator == Some(
                        before.after_key_event(payload@[0], payload@[4] != 0),
                    )
                } else {
                    *final(self) == *old(self)
                },
                None => *final(self) == *old(self),
            },
    {
        if payload.len() >= 5 {
            let key_pressed = payload[4] != 0;
            match code_to_button(payload[0]) {
                Some(button) => match &mut self.emulator {
                    Some(emulator) => {
                        emulator.set_key_event(button, key_pressed);
                    },
                    None => {},
                },
                None => {},
            }
        }
    }

    fn value_at_address(&mut self, payload: &Vec<u8>) -> (reply: ServerReply)
        requires
            old(self).wf(),
        ensures
            final(self).wf(),
            match old(self).emulator {
                Some(before) => if payload@.len() >= 2 {
                    &&& final(self).emulator == Some(
                        Emulator { cpu: before.cpu.after_mem_read(word_of(payload@)), ..before },
                    )
                    &&& reply matches ServerReply::MemoryValue { response }
                    &&& response[0] == payload@[0]
                    &&& response[1] == payload@[1]
                    &&& response[2] == before.cpu.read(word_of(payload@))
                } else {
                    reply is Done && *final(self) == *old(self)
                },
                None => reply is Done && *final(self) == *old(self),
            },
    {
        if payload.len() >= 2 {
            match &mut self.emulator {
                Some(emulator) => {
                    let address: u16 = payload[0] as u16 + 256 * (payload[1] as u16);
                    let value = emulator.get_value_at_address(address);
                    ServerReply::MemoryValue { response: memory_value_response(address, value) }
                },
                None => ServerReply::Done,
            }
        } else {
            ServerReply::Done
        }
    }

    /// Carries out a command on the machine and says what remains for the
    /// host to do.
    ///
    /// - `LoadCartridge`: the payload holds the length of a path in four
    ///   bytes and then the path; the host is to load that file.
    /// - `Reset`, `Step`: reset the processor, or let it take one step. A
    ///   step at which the processor stops is an error.
    /// - `SetKeyEvent`: byte 0 of the payload names a button, byte 4 says
    ///   whether it is pressed.
    /// - `GetFrame`: the host is to write out the current picture.
    /// - `GetValueAtAddress`: bytes 0 and 1 of the payload are an address;
    ///   the host is to write out what a read of it gives.
    /// - `Stop`: the host is to stop.
    ///
    /// Before a cartridge is loaded, the commands that need the machine
    /// do nothing.
    pub fn handle_command(&mut self, command: ServerCommands, payload: Vec<u8>) -> (r: Result<
        ServerReply,
        EmulatorServerError,
    >)
        requires
            old(self).wf(),
        ensures
            final(self).wf(),
            match command {
                ServerCommands::LoadCartridge => {
                    &&& *final(self) == *old(self)
                    &&& match r {
                        Ok(reply) => {
                            &&& !path_error(payload@)
                            &&& reply matches ServerReply::LoadRom { path }
                            &&& path@ == path_of(payload@)
                        },
                        Err(e) => {
                    &&& path_error(payload@)
                    &&& e matches EmulatorServerError::LoadCartridgeError { msg }
                    &&& msg@ == path_error_text(payload@)
                },
                    }
                },
                ServerCommands::Reset => {
                    &&& r matches Ok(ServerReply::Done)
                    &&& match old(self).emulator {
                        Some(before) => final(self).emulator == Some(
                            Emulator { cpu: before.cpu.after_reset(), ..before },
                        ),
                        None => final(self).emulator is None,
                    }
                },
                ServerCommands::Step => match old(self).emulator {
                    Some(before) => {
                        &&& final(self).emulator matches Some(after)
                        &&& after.stepped_from(&before)
                        &&& match r {
                            Ok(reply) => {
                                &&& before.cpu.step_error() is None
                                &&& reply == (ServerReply::Stepped {
                                    frame_complete: before.cpu.step_outcome().frame_complete,
                                })
                            },
                            Err(e) => {
                                &&& before.cpu.step_error() is Some
                                &&& e matches EmulatorServerError::HandleCommandError { msg }
                                &&& msg@ == "The processor stopped"@
                            },
                        }
                    },
                    None => r matches Ok(ServerReply::Done) && final(self).emulator is None,
                },
                ServerCommands::SetKeyEvent => {
                    &&& r matches Ok(ServerReply::Done)
                    &&& match old(self).emulator {
                        Some(before) => if payload@.len() >= 5 && button_of(payload@[0]) is Some {
                            final(self).emulator == Some(
                                before.after_key_event(payload@[0], payload@[4] != 0),
                            )
                        } else {
                            *final(self) == *old(self)
                        },
                        None => *final(self) == *old(self),
                    }
                },
                ServerCommands::GetFrame => {
                    &&& *final(self) == *old(self)
                    &&& match old(self).emulator {
                        Some(emulator) => {
                            &&& r matches Ok(ServerReply::Frame { data })
                            &&& data@ == emulator.current_frame.data@
                        },
                        None => r matches Ok(ServerReply::Done),
                    }
                },
                ServerCommands::GetValueAtAddress => match old(self).emulator {
                    Some(before) => if payload@.len() >= 2 {
                        &&& final(self).emulator == Some(
                            Emulator { cpu: before.cpu.after_mem_read(word_of(payload@)), ..before },
                        )
                        &&& r matches Ok(ServerReply::MemoryValue { response })
                        &&& response[0] == payload@[0]
                        &&& response[1] == payload@[1]
                        &&& response[2] == before.cpu.read(word_of(payload@))
                    } else {
                        r matches Ok(ServerReply::Done) && *final(self) == *old(self)
                    },
                    None => r matches Ok(ServerReply::Done) && *final(self) == *old(self),
                },
                ServerCommands::Stop => r matches Ok(ServerReply::Stop) && *final(self) == *old(
                    self,
                ),
                ServerCommands::Noop => r matches Ok(ServerReply::Done) && *final(self) == *old(
                    self,
                ),
            },
    {
        match command {
            ServerCommands::LoadCartridge => Self::load_cartridge(&payload),
            ServerCommands::Reset => {
                match &mut self.emulator {
                    Some(emulator) => {
                        emulator.reset_cpu();
                    },
                    None => {},
                }
                Ok(ServerReply::Done)
            },
            ServerCommands::Step => self.step(),
            ServerCommands::SetKeyEvent => {
                self.set_key(&payload);
                Ok(ServerReply::Done)
            },
            ServerCommands::GetFrame => match &self.emulator {
                Some(emulator) => Ok(ServerReply::Frame { data: emulator.get_current_frame() }),
                None => Ok(ServerReply::Done),
            },
            ServerCommands::GetValueAtAddress => Ok(self.value_at_address(&payload)),
            ServerCommands::Stop => Ok(ServerReply::Stop),
            ServerCommands::Noop => Ok(ServerReply::Done),
        }
    }
}

/// The address in the first two bytes of a payload, low byte first.
pub open spec fn word_of(payload: Seq<u8>) -> u16 {
    (payload[0] + 256 * payload[1]) as u16
}

} // verus!
