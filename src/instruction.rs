//! A decoded x86-64 instruction held as plain values, and the decoder calls
//! that produce it.
use vstd::prelude::*;
use iced_x86::{Decoder, Instruction, InstructionInfoFactory, InstructionInfoOptions, Register};

verus! {

/// `Register::None` of the decoder.
pub const REG_NONE: u8 = 0;
pub const REG_RAX: u8 = 53;
pub const REG_RCX: u8 = 54;
pub const REG_RDX: u8 = 55;
pub const REG_RBX: u8 = 56;
pub const REG_RSP: u8 = 57;
pub const REG_RBP: u8 = 58;
pub const REG_RSI: u8 = 59;
pub const REG_RDI: u8 = 60;
pub const REG_R8: u8 = 61;
pub const REG_R9: u8 = 62;
pub const REG_R10: u8 = 63;
pub const REG_R11: u8 = 64;
pub const REG_R12: u8 = 65;
pub const REG_R13: u8 = 66;
pub const REG_R14: u8 = 67;
pub const REG_R15: u8 = 68;

/// `OpKind::Register` of the decoder.
pub const KIND_REGISTER: u8 = 0;
/// `OpKind::Memory` of the decoder.
pub const KIND_MEMORY: u8 = 24;

/// `OpAccess::Write` of the decoder.
pub const ACCESS_WRITE: u8 = 3;
/// `OpAccess::CondWrite` of the decoder.
pub const ACCESS_COND_WRITE: u8 = 4;
/// `OpAccess::ReadWrite` of the decoder.
pub const ACCESS_READ_WRITE: u8 = 5;
/// `OpAccess::ReadCondWrite` of the decoder.
pub const ACCESS_READ_COND_WRITE: u8 = 6;

/// iced_x86's decoded instruction, carried opaquely until its values are read
/// into an `Insn`.
#[verifier::external_type_specification]
#[verifier::external_body]
pub struct ExInstruction(Instruction);

/// iced_x86's decoder, carried opaquely.
#[verifier::external_type_specification]
#[verifier::external_body]
pub struct ExDecoder<'a>(Decoder<'a>) where Decoder<'a>: Send + Sync;

/// Relies on iced_x86's `Decoder::with_ip`, which panics unless the bitness is 16, 32 or 64.
pub assume_specification<'a>[ Decoder::<'a>::with_ip ](
    bitness: u32,
    data: &'a [u8],
    ip: u64,
    options: u32,
) -> Decoder<'a>
    requires
        bitness == 16 || bitness == 32 || bitness == 64,
;

/// Relies on iced_x86's `Decoder::decode`, which never panics (an undecodable
/// sequence yields the `INVALID` code).
pub assume_specification<'a>[ Decoder::<'a>::decode ](decoder: &mut Decoder<'a>) -> Instruction;

/// Relies on iced_x86's `Instruction::len`: the length in bytes.
pub assume_specification[ Instruction::len ](i: &Instruction) -> usize;

/// Relies on iced_x86's `Instruction::memory_displacement64`.
pub assume_specification[ Instruction::memory_displacement64 ](i: &Instruction) -> u64;

/// Relies on iced_x86's `Instruction::immediate8`.
pub assume_specification[ Instruction::immediate8 ](i: &Instruction) -> u8;

/// Relies on iced_x86's `Instruction::immediate16`.
pub assume_specification[ Instruction::immediate16 ](i: &Instruction) -> u16;

/// Relies on iced_x86's `Instruction::immediate32`.
pub assume_specification[ Instruction::immediate32 ](i: &Instruction) -> u32;

/// Relies on iced_x86's `Instruction::immediate64`.
pub assume_specification[ Instruction::immediate64 ](i: &Instruction) -> u64;

/// Relies on iced_x86's `Instruction::immediate32to64`.
pub assume_specification[ Instruction::immediate32to64 ](i: &Instruction) -> i64;

/// Relies on iced_x86's `Instruction::near_branch64`.
pub assume_specification[ Instruction::near_branch64 ](i: &Instruction) -> u64;

/// Relies on iced_x86's `Instruction::code`, read as the enum's discriminant.
#[verifier::external_body]
fn code_of(i: &Instruction) -> u16 {
    i.code() as u16
}

/// Relies on iced_x86's `Instruction::op0_kind`, read as the enum's discriminant.
#[verifier::external_body]
fn op0_kind_of(i: &Instruction) -> u8 {
    i.op0_kind() as u8
}

/// Relies on iced_x86's `Instruction::op1_kind`, read as the enum's discriminant.
#[verifier::external_body]
fn op1_kind_of(i: &Instruction) -> u8 {
    i.op1_kind() as u8
}

/// Relies on iced_x86's `Instruction::op0_register`, read as the enum's discriminant.
#[verifier::external_body]
fn op0_register_of(i: &Instruction) -> u8 {
    i.op0_register() as u8
}

/// Relies on iced_x86's `Instruction::op1_register`, read as the enum's discriminant.
#[verifier::external_body]
fn op1_register_of(i: &Instruction) -> u8 {
    i.op1_register() as u8
}

/// Relies on iced_x86's `Instruction::memory_base`, read as the enum's discriminant.
#[verifier::external_body]
fn memory_base_of(i: &Instruction) -> u8 {
    i.memory_base() as u8
}

/// Relies on iced_x86's `Instruction::memory_size` and `MemorySize::size`: the
/// size in bytes of the memory operand.
#[verifier::external_body]
fn memory_size_of(i: &Instruction) -> usize {
    i.memory_size().size()
}

/// Relies on iced_x86's `InstructionInfoFactory::info_options`: every register
/// the instruction reads or writes, with the kind of access (discriminants of
/// `Register` and `OpAccess`).
#[verifier::external_body]
fn used_registers_of(i: &Instruction) -> Vec<UsedRegister> {
    let mut factory = InstructionInfoFactory::new();
    let info = factory.info_options(i, InstructionInfoOptions::NO_MEMORY_USAGE);
    info.used_registers()
        .iter()
        .map(|u| UsedRegister { register: u.register() as u8, access: u.access() as u8 })
        .collect()
}

/// The full register that a register is part of, in the decoder's
/// numbering: byte, word and dword general-purpose registers (`AH` to `BH`
/// included) give their 64-bit register, `EIP` gives `RIP`, `XMM` and `YMM`
/// registers give their `ZMM` register, and every other register itself.
pub open spec fn full_register_of(reg: u8) -> u8 {
    if 1 <= reg <= 4 {
        (reg + 52) as u8
    } else if 5 <= reg <= 20 {
        (reg + 48) as u8
    } else if 21 <= reg <= 36 {
        (reg + 32) as u8
    } else if 37 <= reg <= 52 {
        (reg + 16) as u8
    } else if reg == 69 {
        70
    } else if 77 <= reg <= 108 {
        (reg + 64) as u8
    } else if 109 <= reg <= 140 {
        (reg + 32) as u8
    } else {
        reg
    }
}

/// Relies on iced_x86's `Register::full_register` (its register table);
/// every `u8` names a register there, the error arm only converts.
#[verifier::external_body]
pub(crate) fn full_register(reg: u8) -> (r: u8)
    ensures
        r == full_register_of(reg),
{
    match Register::try_from(reg as usize) {
        Ok(register) => register.full_register() as u8,
        Err(_) => reg,
    }
}

/// A register touched by an instruction and the way it is touched.
#[derive(Clone, Copy, Debug, PartialEq, Eq, Structural)]
pub struct UsedRegister {
    /// The register, as the decoder numbers it.
    pub register: u8,
    /// The access kind, as the decoder numbers it (see the `ACCESS_*` constants).
    pub access: u8,
}

/// One decoded instruction. Registers, operand kinds and opcodes carry the
/// decoder's own numbering; the constants of this module name those the
/// analysis reads.
#[derive(Clone, Debug)]
pub struct Insn {
    pub code: u16,
    pub len: usize,
    pub op0_kind: u8,
    pub op1_kind: u8,
    pub op0_register: u8,
    pub op1_register: u8,
    pub memory_base: u8,
    pub memory_displacement: u64,
    /// Size in bytes of the memory operand, 0 when there is none.
    pub memory_size: usize,
    pub immediate8: u8,
    pub immediate16: u16,
    pub immediate32: u32,
    pub immediate64: u64,
    pub immediate32to64: i64,
    pub near_branch: u64,
    pub used_registers: Vec<UsedRegister>,
}

impl Insn {
    /// Reads the values that the analysis needs out of a decoded instruction.
    pub fn from_instruction(i: &Instruction) -> Insn {
        Insn {
            code: code_of(i),
            len: i.len(),
            op0_kind: op0_kind_of(i),
            op1_kind: op1_kind_of(i),
            op0_register: op0_register_of(i),
            op1_register: op1_register_of(i),
            memory_base: memory_base_of(i),
            memory_displacement: i.memory_displacement64(),
            memory_size: memory_size_of(i),
            immediate8: i.immediate8(),
            immediate16: i.immediate16(),
            immediate32: i.immediate32(),
            immediate64: i.immediate64(),
            immediate32to64: i.immediate32to64(),
            near_branch: i.near_branch64(),
            used_registers: used_registers_of(i),
        }
    }

    /// Decodes the 64-bit instruction that starts at `bytes[0]`, located at
    /// virtual address `ip`.
    pub fn decode(ip: u64, bytes: &[u8]) -> Insn {
        let mut decoder = Decoder::with_ip(64, bytes, ip, 0);
        let instruction = decoder.decode();
        Insn::from_instruction(&instruction)
    }
}

/// An access that may change the register.
pub open spec fn is_write_access(access: u8) -> bool {
    access == ACCESS_WRITE || access == ACCESS_COND_WRITE || access == ACCESS_READ_WRITE
        || access == ACCESS_READ_COND_WRITE
}

/// `insn` writes (possibly conditionally) some part of the 64-bit register
/// that `reg` belongs to.
pub open spec fn writes_full(insn: Insn, reg: u8) -> bool {
    exists|k: int|
        0 <= k < insn.used_registers@.len() && #[trigger] full_register_of(
            insn.used_registers@[k].register,
        ) == full_register_of(reg) && is_write_access(insn.used_registers@[k].access)
}

/// Whether `insn` writes the full register of `reg`, with any write access.
pub fn check_full_reg_written(insn: &Insn, reg: u8) -> (r: bool)
    ensures
        r == writes_full(*insn, reg),
{
    let full = full_register(reg);
    let n = insn.used_registers.len();
    let mut k: usize = 0;
    while k < n
        invariant
            n == insn.used_registers@.len(),
            full == full_register_of(reg),
            0 <= k <= n,
            forall|j: int|
                0 <= j < k ==> !(full_register_of(insn.used_registers@[j].register) == full
                    && is_write_access(insn.used_registers@[j].access)),
        decreases n - k,
    {
        let used = insn.used_registers[k];
        let access = used.access;
        if full_register(used.register) == full && (access == ACCESS_WRITE || access
            == ACCESS_COND_WRITE || access == ACCESS_READ_WRITE || access
            == ACCESS_READ_COND_WRITE) {
            return true;
        }
        k = k + 1;
    }
    false
}

} // verus!
