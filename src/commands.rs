use vstd::prelude::*;

use crate::error::{DecoderError, EncoderError};

verus! {

/// A response payload that can be decoded from the data of a frame.
pub trait Response: Sized {
    fn decode(data: &[u8]) -> Result<Self, DecoderError>;
}

/// `[magic, len, params...]`: the part of a frame that its checksum covers.
pub open spec fn command_bytes(magic: u8, params: Seq<u8>) -> Seq<u8> {
    seq![magic, params.len() as u8] + params
}

/// What encoding a command with this opcode and these parameters gives: its
/// command bytes, or `CommandParametersTooLong` past 255 parameter bytes.
pub open spec fn encoded_command(magic: u8, params: Seq<u8>) -> Result<Seq<u8>, EncoderError> {
    if params.len() <= 255 {
        Ok(command_bytes(magic, params))
    } else {
        Err(EncoderError::CommandParametersTooLong(255, params.len() as usize))
    }
}

/// A command that the host sends to the station.
pub trait Command {
    /// The opcode of the command.
    spec fn spec_magic(&self) -> u8;

    /// The parameter bytes of the command.
    spec fn spec_parameters(&self) -> Seq<u8>;

    fn command_parameters(&self) -> (r: Vec<u8>)
        ensures
            r@ == self.spec_parameters(),
    ;

    fn magic(&self) -> (r: u8)
        ensures
            r == self.spec_magic(),
    ;

    /// The opcode, the parameter count and the parameters.
    fn encode(&self) -> (r: Result<Vec<u8>, EncoderError>)
        ensures
            match r {
                Ok(v) => encoded_command(self.spec_magic(), self.spec_parameters()) == Ok::<
                    Seq<u8>,
                    EncoderError,
                >(v@),
                Err(e) => encoded_command(self.spec_magic(), self.spec_parameters()) == Err::<
                    Seq<u8>,
                    EncoderError,
                >(e),
            },
    {
        let magic = self.magic();
        let parameters = self.command_parameters();
        if parameters.len() > 255 {
            return Err(EncoderError::CommandParametersTooLong(255, parameters.len()));
        }
        let mut bytes: Vec<u8> = Vec::new();
        bytes.push(magic);
        bytes.push(parameters.len() as u8);
        let mut i: usize = 0;
        while i < parameters.len()
            invariant
                i <= parameters@.len(),
                bytes@ == seq![magic, parameters@.len() as u8] + parameters@.take(i as int),
            decreases parameters@.len() - i,
        {
            bytes.push(parameters[i]);
            i = i + 1;
            proof {
                assert(bytes@ =~= seq![magic, parameters@.len() as u8] + parameters@.take(i as int));
            }
        }
        proof {
            assert(parameters@.take(i as int) =~= parameters@);
        }
        Ok(bytes)
    }
}

/// Makes the station beep until the card is taken out.
#[derive(Debug, Clone, Copy, PartialEq, Eq, Structural)]
pub struct Beep;

impl Command for Beep {
    open spec fn spec_magic(&self) -> u8 {
        0x06
    }

    open spec fn spec_parameters(&self) -> Seq<u8> {
        seq![]
    }

    fn command_parameters(&self) -> (r: Vec<u8>) {
        Vec::new()
    }

    fn magic(&self) -> (r: u8) {
        0x06
    }
}

/// Asks for one 128-byte block of the card's memory.
#[derive(Debug, Clone, Copy, PartialEq, Eq, Structural)]
pub struct ReadCardData {
    pub block: u8,
}

impl ReadCardData {
    pub fn new(block: u8) -> (r: ReadCardData)
        ensures
            r.block == block,
    {
        ReadCardData { block }
    }
}

impl Command for ReadCardData {
    open spec fn spec_magic(&self) -> u8 {
        0xEF
    }

    open spec fn spec_parameters(&self) -> Seq<u8> {
        seq![self.block]
    }

    fn command_parameters(&self) -> (r: Vec<u8>) {
        let mut v: Vec<u8> = Vec::new();
        v.push(self.block);
        proof {
            assert(v@ =~= seq![self.block]);
        }
        v
    }

    fn magic(&self) -> (r: u8) {
        0xEF
    }
}

/// Puts the station into master or slave mode.
#[derive(Debug, Clone, Copy, PartialEq, Eq, Structural)]
pub enum SetMasterSlave {
    Master,
    Slave,
}

impl SetMasterSlave {
    /// The parameter byte of each mode: `M` for master, `S` for slave.
    pub open spec fn spec_byte(self) -> u8 {
        match self {
            SetMasterSlave::Master => 0x4D,
            SetMasterSlave::Slave => 0x53,
        }
    }

    pub fn byte(&self) -> (r: u8)
        ensures
            r == self.spec_byte(),
    {
        match self {
            SetMasterSlave::Master => 0x4D,
            SetMasterSlave::Slave => 0x53,
        }
    }
}

impl Command for SetMasterSlave {
    open spec fn spec_magic(&self) -> u8 {
        0xF0
    }

    open spec fn spec_parameters(&self) -> Seq<u8> {
        seq![self.spec_byte()]
    }

    fn command_parameters(&self) -> (r: Vec<u8>) {
        let mut v: Vec<u8> = Vec::new();
        v.push(self.byte());
        proof {
            assert(v@ =~= seq![self.spec_byte()]);
        }
        v
    }

    fn magic(&self) -> (r: u8) {
        0xF0
    }
}

/// Asks for the station's system configuration: offset 0, 128 bytes.
#[derive(Debug, Clone, Copy, PartialEq, Eq, Structural)]
pub struct GetSystemConfiguration;

impl Command for GetSystemConfiguration {
    open spec fn spec_magic(&self) -> u8 {
        0x83
    }

    open spec fn spec_parameters(&self) -> Seq<u8> {
        seq![0x00, 0x80]
    }

    fn command_parameters(&self) -> (r: Vec<u8>) {
        let mut v: Vec<u8> = Vec::new();
        v.push(0x00);
        v.push(0x80);
        proof {
            assert(v@ =~= seq![0x00u8, 0x80u8]);
        }
        v
    }

    fn magic(&self) -> (r: u8) {
        0x83
    }
}

/// The commands this driver sends.
#[derive(Debug, Clone, Copy, PartialEq, Eq, Structural)]
pub enum Commands {
    SetMasterSlave(SetMasterSlave),
    GetSystemConfiguration(GetSystemConfiguration),
    Beep(Beep),
    ReadCardData(ReadCardData),
}

impl Command for Commands {
    open spec fn spec_magic(&self) -> u8 {
        match self {
            Commands::SetMasterSlave(c) => c.spec_magic(),
            Commands::GetSystemConfiguration(c) => c.spec_magic(),
            Commands::Beep(c) => c.spec_magic(),
            Commands::ReadCardData(c) => c.spec_magic(),
        }
    }

    open spec fn spec_parameters(&self) -> Seq<u8> {
        match self {
            Commands::SetMasterSlave(c) => c.spec_parameters(),
            Commands::GetSystemConfiguration(c) => c.spec_parameters(),
            Commands::Beep(c) => c.spec_parameters(),
            Commands::ReadCardData(c) => c.spec_parameters(),
        }
    }

    fn command_parameters(&self) -> (r: Vec<u8>) {
        match self {
            Commands::SetMasterSlave(c) => c.command_parameters(),
            Commands::GetSystemConfiguration(c) => c.command_parameters(),
            Commands::Beep(c) => c.command_parameters(),
            Commands::ReadCardData(c) => c.command_parameters(),
        }
    }

    fn magic(&self) -> (r: u8) {
        match self {
            Commands::SetMasterSlave(c) => c.magic(),
            Commands::GetSystemConfiguration(c) => c.magic(),
            Commands::Beep(c) => c.magic(),
            Commands::ReadCardData(c) => c.magic(),
        }
    }
}

} // verus!
