//! The command byte: a two-bit opcode and a six-bit register address.

use vstd::prelude::*;

verus! {

/// The largest register address a command byte can carry.
pub const MAX_REGISTER: u8 = 63;

/// The operations the peripheral understands.
#[derive(Clone, Copy, Debug, PartialEq, Eq, Structural)]
pub enum Commands {
    /// Write one register.
    WReg,
    /// Read one register.
    RReg,
    /// Read the latest data sample.
    RData,
}

impl Commands {
    /// The opcode as a number: it is at most 3, and no two commands share one.
    pub open spec fn spec_opcode(self) -> u8 {
        match self {
            Commands::RData => 1,
            Commands::RReg => 2,
            Commands::WReg => 3,
        }
    }

    /// The two-bit opcode that stands for this command on the wire.
    #[verifier::when_used_as_spec(spec_opcode)]
    pub fn opcode(self) -> (code: u8)
        ensures
            code == self.spec_opcode(),
            code <= 3,
    {
        match self {
            Commands::RData => 1,
            Commands::RReg => 2,
            Commands::WReg => 3,
        }
    }
}

/// The command byte for `kind` on `register`: the opcode in bits 0 and 1, the
/// register address in bits 2 to 7.
pub open spec fn spec_command_byte(kind: Commands, register: u8) -> u8 {
    kind.spec_opcode() | (register << 2)
}

/// Packs a command and a register address into the byte that is sent.
#[verifier::when_used_as_spec(spec_command_byte)]
pub fn command_byte(kind: Commands, register: u8) -> (byte: u8)
    requires
        register <= MAX_REGISTER,
    ensures
        byte == spec_command_byte(kind, register),
        byte == kind.spec_opcode() + 4 * register,
{
    let code: u8 = kind.opcode();
    proof {
        lemma_command_byte_sum(kind, register);
    }
    code | (register << 2)
}

/// For an address of at most six bits the two fields do not overlap, so the
/// command byte is the sum of the opcode and four times the address.
pub proof fn lemma_command_byte_sum(kind: Commands, register: u8)
    requires
        register <= MAX_REGISTER,
    ensures
        spec_command_byte(kind, register) == kind.spec_opcode() + 4 * register,
{
    let code: u8 = kind.spec_opcode();
    assert(code <= 3 && register <= 63 ==> (code | (register << 2)) == code + 4 * register)
        by (bit_vector);
}

/// Both fields can be read back from a command byte: the low two bits are the
/// opcode and the remaining bits are the register address.
pub proof fn lemma_command_byte_fields(kind: Commands, register: u8)
    requires
        register <= MAX_REGISTER,
    ensures
        spec_command_byte(kind, register) & 3 == kind.spec_opcode(),
        spec_command_byte(kind, register) >> 2 == register,
{
    let code: u8 = kind.spec_opcode();
    assert(code <= 3 && register <= 63 ==> (code | (register << 2)) & 3 == code) by (bit_vector);
    assert(code <= 3 && register <= 63 ==> (code | (register << 2)) >> 2 == register)
        by (bit_vector);
}

/// For one command, two different register addresses never give the same
/// command byte.
pub proof fn lemma_command_byte_injective(kind: Commands, first: u8, second: u8)
    requires
        first <= MAX_REGISTER,
        second <= MAX_REGISTER,
        spec_command_byte(kind, first) == spec_command_byte(kind, second),
    ensures
        first == second,
{
    lemma_command_byte_fields(kind, first);
    lemma_command_byte_fields(kind, second);
}

/// A command byte determines both the command and the register address.
pub proof fn lemma_command_byte_unique(
    first_kind: Commands,
    first: u8,
    second_kind: Commands,
    second: u8,
)
    requires
        first <= MAX_REGISTER,
        second <= MAX_REGISTER,
        spec_command_byte(first_kind, first) == spec_command_byte(second_kind, second),
    ensures
        first_kind == second_kind,
        first == second,
{
    lemma_command_byte_fields(first_kind, first);
    lemma_command_byte_fields(second_kind, second);
}

} // verus!
