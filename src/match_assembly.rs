//! Predicates over one decoded instruction: the vocabulary in which handlers
//! are recognised. Registers are decoder numbers; "full" registers are the
//! 64-bit registers they belong to.
use vstd::prelude::*;
use crate::code;
use crate::instruction::{check_full_reg_written, full_register, full_register_of, writes_full, Insn, KIND_MEMORY, KIND_REGISTER, REG_RSP};
use crate::vm_handler::VmRegisterAllocation;

verus! {

pub open spec fn is_pushfq(insn: Insn) -> bool {
    insn.code == code::PUSHFQ
}

pub fn match_pushfq(instruction: &Insn) -> (r: bool)
    ensures
        r == is_pushfq(*instruction),
{
    instruction.code == code::PUSHFQ
}

pub open spec fn is_popfq(insn: Insn) -> bool {
    insn.code == code::POPFQ
}

pub fn match_popfq(instruction: &Insn) -> (r: bool)
    ensures
        r == is_popfq(*instruction),
{
    instruction.code == code::POPFQ
}

pub open spec fn is_ret(insn: Insn) -> bool {
    insn.code == code::RETNQ
}

pub fn match_ret(instruction: &Insn) -> (r: bool)
    ensures
        r == is_ret(*instruction),
{
    instruction.code == code::RETNQ
}

/// `not r` where `r` is part of `register`.
pub open spec fn is_not_reg(insn: Insn, register: u8) -> bool {
    (insn.code == code::NOT_RM8 || insn.code == code::NOT_RM16 || insn.code == code::NOT_RM32
        || insn.code == code::NOT_RM64) && full_register_of(insn.op0_register) == register
}

pub fn match_not_reg(instruction: &Insn, register: u8) -> (r: bool)
    ensures
        r == is_not_reg(*instruction, register),
{
    let c = instruction.code;
    (c == code::NOT_RM8 || c == code::NOT_RM16 || c == code::NOT_RM32 || c == code::NOT_RM64)
        && full_register(instruction.op0_register) == register
}

/// A register-to-register `mov` (any width) whose source is `register` itself.
pub open spec fn is_mov_reg_source(insn: Insn, register: u8) -> bool {
    let c = insn.code;
    &&& (c == code::MOV_R64_RM64 || c == code::MOV_R32_RM32 || c == code::MOV_R16_RM16 || c
        == code::MOV_R8_RM8 || c == code::MOV_RM64_R64 || c == code::MOV_RM32_R32 || c
        == code::MOV_RM16_R16 || c == code::MOV_RM8_R8)
    &&& insn.op0_kind == KIND_REGISTER
    &&& insn.op1_kind == KIND_REGISTER
    &&& insn.op1_register == register
}

pub fn match_mov_reg_source(instruction: &Insn, register: u8) -> (r: bool)
    ensures
        r == is_mov_reg_source(*instruction, register),
{
    let c = instruction.code;
    if !(c == code::MOV_R64_RM64 || c == code::MOV_R32_RM32 || c == code::MOV_R16_RM16 || c
        == code::MOV_R8_RM8 || c == code::MOV_RM64_R64 || c == code::MOV_RM32_R32 || c
        == code::MOV_RM16_R16 || c == code::MOV_RM8_R8) {
        return false;
    }
    instruction.op0_kind == KIND_REGISTER && instruction.op1_kind == KIND_REGISTER
        && instruction.op1_register == register
}

/// The width in bytes of a `mov [m], r` opcode.
pub open spec fn store_width(c: u16) -> Option<usize> {
    if c == code::MOV_RM8_R8 {
        Some(1)
    } else if c == code::MOV_RM16_R16 {
        Some(2)
    } else if c == code::MOV_RM32_R32 {
        Some(4)
    } else if c == code::MOV_RM64_R64 {
        Some(8)
    } else {
        None
    }
}

/// `mov [reg1 ...], reg2`: the store's size in bytes. Both registers are
/// compared exactly, not by their full registers.
pub open spec fn store_reg2_in_reg1_size(insn: Insn, reg1: u8, reg2: u8) -> Option<usize> {
    if store_width(insn.code) is Some && insn.op0_kind == KIND_MEMORY && insn.op1_kind
        == KIND_REGISTER && insn.memory_base == reg1 && insn.op1_register == reg2 {
        store_width(insn.code)
    } else {
        None
    }
}

fn store_width_of(c: u16) -> (r: Option<usize>)
    ensures
        r == store_width(c),
{
    if c == code::MOV_RM8_R8 {
        Some(1)
    } else if c == code::MOV_RM16_R16 {
        Some(2)
    } else if c == code::MOV_RM32_R32 {
        Some(4)
    } else if c == code::MOV_RM64_R64 {
        Some(8)
    } else {
        None
    }
}

/// Returns the size of the store in bytes.
pub fn match_store_reg2_in_reg1(instruction: &Insn, reg1: u8, reg2: u8) -> (r: Option<usize>)
    ensures
        r == store_reg2_in_reg1_size(*instruction, reg1, reg2),
{
    let size = store_width_of(instruction.code);
    if size.is_none() {
        return None;
    }
    if instruction.op0_kind != KIND_MEMORY || instruction.op1_kind != KIND_REGISTER {
        return None;
    }
    if instruction.memory_base != reg1 || instruction.op1_register != reg2 {
        return None;
    }
    size
}

/// `shr r, cl` where `r` is part of `reg`.
pub open spec fn is_shr_reg_cl(insn: Insn, reg: u8) -> bool {
    (insn.code == code::SHR_RM8_CL || insn.code == code::SHR_RM16_CL || insn.code
        == code::SHR_RM32_CL || insn.code == code::SHR_RM64_CL) && full_register_of(
        insn.op0_register,
    ) == reg
}

pub fn match_shr_reg_reg(instruction: &Insn, reg: u8) -> (r: bool)
    ensures
        r == is_shr_reg_cl(*instruction, reg),
{
    let c = instruction.code;
    (c == code::SHR_RM8_CL || c == code::SHR_RM16_CL || c == code::SHR_RM32_CL || c
        == code::SHR_RM64_CL) && full_register(instruction.op0_register) == reg
}

/// The two operands' full registers are `reg1` and `reg2`, in either order.
pub open spec fn operands_are(insn: Insn, reg1: u8, reg2: u8) -> bool {
    let a = full_register_of(insn.op0_register);
    let b = full_register_of(insn.op1_register);
    (a == reg1 && b == reg2) || (a == reg2 && b == reg1)
}

fn operands_match(instruction: &Insn, reg1: u8, reg2: u8) -> (r: bool)
    ensures
        r == operands_are(*instruction, reg1, reg2),
{
    let a = full_register(instruction.op0_register);
    let b = full_register(instruction.op1_register);
    (a == reg1 && b == reg2) || (a == reg2 && b == reg1)
}

/// `or` between the two registers, in either order and either encoding.
pub open spec fn is_or_reg_reg(insn: Insn, reg1: u8, reg2: u8) -> bool {
    let c = insn.code;
    (c == code::OR_RM8_R8 || c == code::OR_RM16_R16 || c == code::OR_RM32_R32 || c
        == code::OR_RM64_R64 || c == code::OR_R8_RM8 || c == code::OR_R16_RM16 || c
        == code::OR_R32_RM32 || c == code::OR_R64_RM64) && operands_are(insn, reg1, reg2)
}

pub fn match_or_reg_reg(instruction: &Insn, reg1: u8, reg2: u8) -> (r: bool)
    ensures
        r == is_or_reg_reg(*instruction, reg1, reg2),
{
    let c = instruction.code;
    (c == code::OR_RM8_R8 || c == code::OR_RM16_R16 || c == code::OR_RM32_R32 || c
        == code::OR_RM64_R64 || c == code::OR_R8_RM8 || c == code::OR_R16_RM16 || c
        == code::OR_R32_RM32 || c == code::OR_R64_RM64) && operands_match(instruction, reg1, reg2)
}

/// `and` between the two registers, in either order and either encoding.
pub open spec fn is_and_reg_reg(insn: Insn, reg1: u8, reg2: u8) -> bool {
    let c = insn.code;
    (c == code::AND_RM8_R8 || c == code::AND_RM16_R16 || c == code::AND_RM32_R32 || c
        == code::AND_RM64_R64 || c == code::AND_R8_RM8 || c == code::AND_R16_RM16 || c
        == code::AND_R32_RM32 || c == code::AND_R64_RM64) && operands_are(insn, reg1, reg2)
}

pub fn match_and_reg_reg(instruction: &Insn, reg1: u8, reg2: u8) -> (r: bool)
    ensures
        r == is_and_reg_reg(*instruction, reg1, reg2),
{
    let c = instruction.code;
    (c == code::AND_RM8_R8 || c == code::AND_RM16_R16 || c == code::AND_RM32_R32 || c
        == code::AND_RM64_R64 || c == code::AND_R8_RM8 || c == code::AND_R16_RM16 || c
        == code::AND_R32_RM32 || c == code::AND_R64_RM64) && operands_match(instruction, reg1, reg2)
}

/// `add` between the two registers, in either order and either encoding.
pub open spec fn is_add_reg_reg(insn: Insn, reg1: u8, reg2: u8) -> bool {
    let c = insn.code;
    (c == code::ADD_RM8_R8 || c == code::ADD_RM16_R16 || c == code::ADD_RM32_R32 || c
        == code::ADD_RM64_R64 || c == code::ADD_R8_RM8 || c == code::ADD_R16_RM16 || c
        == code::ADD_R32_RM32 || c == code::ADD_R64_RM64) && operands_are(insn, reg1, reg2)
}

pub fn match_add_reg_reg(instruction: &Insn, reg1: u8, reg2: u8) -> (r: bool)
    ensures
        r == is_add_reg_reg(*instruction, reg1, reg2),
{
    let c = instruction.code;
    (c == code::ADD_RM8_R8 || c == code::ADD_RM16_R16 || c == code::ADD_RM32_R32 || c
        == code::ADD_RM64_R64 || c == code::ADD_R8_RM8 || c == code::ADD_R16_RM16 || c
        == code::ADD_R32_RM32 || c == code::ADD_R64_RM64) && operands_match(instruction, reg1, reg2)
}

/// The width in bytes of a `mov r, r/m` opcode.
pub open spec fn load_width(c: u16) -> Option<usize> {
    if c == code::MOV_R64_RM64 {
        Some(8)
    } else if c == code::MOV_R32_RM32 {
        Some(4)
    } else if c == code::MOV_R16_RM16 {
        Some(2)
    } else if c == code::MOV_R8_RM8 {
        Some(1)
    } else {
        None
    }
}

/// `mov r, [register ...]`: the destination's size in bytes.
pub open spec fn fetch_size(insn: Insn, register: u8) -> Option<usize> {
    if load_width(insn.code) is Some && insn.op1_kind == KIND_MEMORY && full_register_of(
        insn.memory_base,
    ) == register {
        load_width(insn.code)
    } else {
        None
    }
}

fn load_width_of(c: u16) -> (r: Option<usize>)
    ensures
        r == load_width(c),
{
    if c == code::MOV_R64_RM64 {
        Some(8)
    } else if c == code::MOV_R32_RM32 {
        Some(4)
    } else if c == code::MOV_R16_RM16 {
        Some(2)
    } else if c == code::MOV_R8_RM8 {
        Some(1)
    } else {
        None
    }
}

/// Returns the size of the match in bytes if there is one.
pub fn match_fetch_reg_any_size(instruction: &Insn, register: u8) -> (r: Option<usize>)
    ensures
        r == fetch_size(*instruction, register),
{
    let size = load_width_of(instruction.code);
    if size.is_none() || instruction.op1_kind != KIND_MEMORY {
        return None;
    }
    if full_register(instruction.memory_base) == register {
        size
    } else {
        None
    }
}

/// The width in bytes of the memory source of a `movzx` opcode.
pub open spec fn zx_width(c: u16) -> Option<usize> {
    if c == code::MOVZX_R64_RM8 || c == code::MOVZX_R32_RM8 || c == code::MOVZX_R16_RM8 {
        Some(1)
    } else if c == code::MOVZX_R64_RM16 || c == code::MOVZX_R32_RM16 || c == code::MOVZX_R16_RM16 {
        Some(2)
    } else {
        None
    }
}

/// `movzx r, byte/word [register ...]`: the source's size in bytes.
pub open spec fn fetch_zx_size(insn: Insn, register: u8) -> Option<usize> {
    if zx_width(insn.code) is Some && insn.op1_kind == KIND_MEMORY && full_register_of(
        insn.memory_base,
    ) == register {
        zx_width(insn.code)
    } else {
        None
    }
}

pub fn match_fetch_zx_reg_any_size(instruction: &Insn, register: u8) -> (r: Option<usize>)
    ensures
        r == fetch_zx_size(*instruction, register),
{
    let c = instruction.code;
    let size = if c == code::MOVZX_R64_RM8 || c == code::MOVZX_R32_RM8 || c
        == code::MOVZX_R16_RM8 {
        Some(1)
    } else if c == code::MOVZX_R64_RM16 || c == code::MOVZX_R32_RM16 || c
        == code::MOVZX_R16_RM16 {
        Some(2)
    } else {
        None
    };
    if size.is_none() || instruction.op1_kind != KIND_MEMORY {
        return None;
    }
    if full_register(instruction.memory_base) == register {
        size
    } else {
        None
    }
}

/// `mov [register ...], r`: the store's size in bytes.
pub open spec fn store_size(insn: Insn, register: u8) -> Option<usize> {
    if store_width(insn.code) is Some && insn.op0_kind == KIND_MEMORY && full_register_of(
        insn.memory_base,
    ) == register {
        store_width(insn.code)
    } else {
        None
    }
}

pub fn match_store_reg_any_size(instruction: &Insn, register: u8) -> (r: Option<usize>)
    ensures
        r == store_size(*instruction, register),
{
    let size = store_width_of(instruction.code);
    if size.is_none() || instruction.op0_kind != KIND_MEMORY {
        return None;
    }
    if full_register(instruction.memory_base) == register {
        size
    } else {
        None
    }
}

/// `mov vip, [rsp + 0x90]`: the encrypted bytecode address is read from the
/// stack into the VIP register.
pub open spec fn is_fetch_encrypted_vip(insn: Insn, alloc: VmRegisterAllocation) -> bool {
    &&& insn.code == code::MOV_R64_RM64
    &&& insn.op1_kind == KIND_MEMORY
    &&& insn.memory_displacement == 0x90
    &&& insn.memory_base == REG_RSP
    &&& insn.op0_register == alloc.vip.number()
}

pub fn match_fetch_encrypted_vip(
    instruction: &Insn,
    vm_register_allocation: &VmRegisterAllocation,
) -> (r: bool)
    ensures
        r == is_fetch_encrypted_vip(*instruction, *vm_register_allocation),
{
    instruction.code == code::MOV_R64_RM64 && instruction.op1_kind == KIND_MEMORY
        && instruction.memory_displacement == 0x90 && instruction.memory_base == REG_RSP
        && instruction.op0_register == vm_register_allocation.vip.register()
}

/// `mov r32, [vip ...]`: a 32-bit word is read from the bytecode.
pub open spec fn is_fetch_vip(insn: Insn, alloc: VmRegisterAllocation) -> bool {
    &&& insn.code == code::MOV_R32_RM32
    &&& insn.op1_kind == KIND_MEMORY
    &&& insn.memory_base == alloc.vip.number()
}

pub fn match_fetch_vip(instruction: &Insn, vm_register_allocation: &VmRegisterAllocation) -> (r:
    bool)
    ensures
        r == is_fetch_vip(*instruction, *vm_register_allocation),
{
    instruction.code == code::MOV_R32_RM32 && instruction.op1_kind == KIND_MEMORY
        && instruction.memory_base == vm_register_allocation.vip.register()
}

/// `push key`.
pub open spec fn is_push_rolling_key(insn: Insn, alloc: VmRegisterAllocation) -> bool {
    &&& insn.code == code::PUSH_R64
    &&& insn.op0_kind == KIND_REGISTER
    &&& full_register_of(insn.op0_register) == alloc.key.number()
}

pub fn match_push_rolling_key(
    instruction: &Insn,
    vm_register_allocation: &VmRegisterAllocation,
) -> (r: bool)
    ensures
        r == is_push_rolling_key(*instruction, *vm_register_allocation),
{
    instruction.code == code::PUSH_R64 && instruction.op0_kind == KIND_REGISTER && full_register(
        instruction.op0_register,
    ) == vm_register_allocation.key.register()
}

/// `op vsp, imm32` for the 64-bit opcode `c`: the immediate.
pub open spec fn vsp_imm(insn: Insn, alloc: VmRegisterAllocation, c: u16) -> Option<u32> {
    if insn.code == c && insn.op0_kind == KIND_REGISTER && full_register_of(insn.op0_register)
        == alloc.vsp.number() {
        Some(insn.immediate32)
    } else {
        None
    }
}

fn vsp_imm_of(instruction: &Insn, vm_register_allocation: &VmRegisterAllocation, c: u16) -> (r:
    Option<u32>)
    ensures
        r == vsp_imm(*instruction, *vm_register_allocation, c),
{
    if instruction.code == c && instruction.op0_kind == KIND_REGISTER && full_register(
        instruction.op0_register,
    ) == vm_register_allocation.vsp.register() {
        Some(instruction.immediate32)
    } else {
        None
    }
}

/// `add vsp, amount`.
pub fn match_add_vsp_by_amount(
    instruction: &Insn,
    vm_register_allocation: &VmRegisterAllocation,
    amount: u32,
) -> (r: bool)
    ensures
        r == (vsp_imm(*instruction, *vm_register_allocation, code::ADD_RM64_IMM32) == Some(amount)),
{
    vsp_imm_of(instruction, vm_register_allocation, code::ADD_RM64_IMM32) == Some(amount)
}

/// `sub vsp, amount`.
pub fn match_sub_vsp_by_amount(
    instruction: &Insn,
    vm_register_allocation: &VmRegisterAllocation,
    amount: u32,
) -> (r: bool)
    ensures
        r == (vsp_imm(*instruction, *vm_register_allocation, code::SUB_RM64_IMM32) == Some(amount)),
{
    vsp_imm_of(instruction, vm_register_allocation, code::SUB_RM64_IMM32) == Some(amount)
}

/// `sub vsp, imm32`: the immediate.
pub fn match_sub_vsp_get_amount(
    instruction: &Insn,
    vm_register_allocation: &VmRegisterAllocation,
) -> (r: Option<u32>)
    ensures
        r == vsp_imm(*instruction, *vm_register_allocation, code::SUB_RM64_IMM32),
{
    vsp_imm_of(instruction, vm_register_allocation, code::SUB_RM64_IMM32)
}

/// `add vsp, imm32`: the immediate.
pub fn match_add_vsp_get_amount(
    instruction: &Insn,
    vm_register_allocation: &VmRegisterAllocation,
) -> (r: Option<u32>)
    ensures
        r == vsp_imm(*instruction, *vm_register_allocation, code::ADD_RM64_IMM32),
{
    vsp_imm_of(instruction, vm_register_allocation, code::ADD_RM64_IMM32)
}

/// `xor r, key` between registers with the `xor r, r/m` opcode `c`: the key
/// is the source.
pub open spec fn is_xor_key_source(insn: Insn, alloc: VmRegisterAllocation, c: u16) -> bool {
    &&& insn.code == c
    &&& insn.op0_kind == KIND_REGISTER
    &&& insn.op1_kind == KIND_REGISTER
    &&& full_register_of(insn.op1_register) == alloc.key.number()
}

/// `xor key, r` between registers with the `xor r, r/m` opcode `c`: the key
/// is the destination.
pub open spec fn is_xor_key_dest(insn: Insn, alloc: VmRegisterAllocation, c: u16) -> bool {
    &&& insn.code == c
    &&& insn.op0_kind == KIND_REGISTER
    &&& insn.op1_kind == KIND_REGISTER
    &&& full_register_of(insn.op0_register) == alloc.key.number()
}

fn xor_key_operand(
    instruction: &Insn,
    vm_register_allocation: &VmRegisterAllocation,
    c: u16,
    key_is_source: bool,
) -> (r: bool)
    ensures
        key_is_source ==> r == is_xor_key_source(*instruction, *vm_register_allocation, c),
        !key_is_source ==> r == is_xor_key_dest(*instruction, *vm_register_allocation, c),
{
    if instruction.code != c || instruction.op0_kind != KIND_REGISTER || instruction.op1_kind
        != KIND_REGISTER {
        return false;
    }
    let operand = if key_is_source {
        instruction.op1_register
    } else {
        instruction.op0_register
    };
    full_register(operand) == vm_register_allocation.key.register()
}

pub fn match_xor_64_rolling_key_source(
    instruction: &Insn,
    vm_register_allocation: &VmRegisterAllocation,
) -> (r: bool)
    ensures
        r == is_xor_key_source(*instruction, *vm_register_allocation, code::XOR_R64_RM64),
{
    xor_key_operand(instruction, vm_register_allocation, code::XOR_R64_RM64, true)
}

pub fn match_xor_64_rolling_key_dest(
    instruction: &Insn,
    vm_register_allocation: &VmRegisterAllocation,
) -> (r: bool)
    ensures
        r == is_xor_key_dest(*instruction, *vm_register_allocation, code::XOR_R64_RM64),
{
    xor_key_operand(instruction, vm_register_allocation, code::XOR_R64_RM64, false)
}

pub fn match_xor_16_rolling_key_source(
    instruction: &Insn,
    vm_register_allocation: &VmRegisterAllocation,
) -> (r: bool)
    ensures
        r == is_xor_key_source(*instruction, *vm_register_allocation, code::XOR_R16_RM16),
{
    xor_key_operand(instruction, vm_register_allocation, code::XOR_R16_RM16, true)
}

pub fn match_xor_16_rolling_key_dest(
    instruction: &Insn,
    vm_register_allocation: &VmRegisterAllocation,
) -> (r: bool)
    ensures
        r == is_xor_key_dest(*instruction, *vm_register_allocation, code::XOR_R16_RM16),
{
    xor_key_operand(instruction, vm_register_allocation, code::XOR_R16_RM16, false)
}

pub fn match_xor_32_rolling_key_source(
    instruction: &Insn,
    vm_register_allocation: &VmRegisterAllocation,
) -> (r: bool)
    ensures
        r == is_xor_key_source(*instruction, *vm_register_allocation, code::XOR_R32_RM32),
{
    xor_key_operand(instruction, vm_register_allocation, code::XOR_R32_RM32, true)
}

pub fn match_xor_8_rolling_key_source(
    instruction: &Insn,
    vm_register_allocation: &VmRegisterAllocation,
) -> (r: bool)
    ensures
        r == is_xor_key_source(*instruction, *vm_register_allocation, code::XOR_R8_RM8),
{
    xor_key_operand(instruction, vm_register_allocation, code::XOR_R8_RM8, true)
}

pub fn match_xor_8_rolling_key_dest(
    instruction: &Insn,
    vm_register_allocation: &VmRegisterAllocation,
) -> (r: bool)
    ensures
        r == is_xor_key_dest(*instruction, *vm_register_allocation, code::XOR_R8_RM8),
{
    xor_key_operand(instruction, vm_register_allocation, code::XOR_R8_RM8, false)
}

/// A predicate with its parameters, for searching a handler's instructions.
#[derive(Clone, Copy, Debug, PartialEq, Eq, Structural)]
pub enum Pattern {
    /// `mov r, [reg ...]`.
    FetchFrom(u8),
    /// `movzx r, byte/word [reg ...]`.
    FetchZxFrom(u8),
    /// `mov [reg ...], r`.
    StoreTo(u8),
    /// `mov [reg1 ...], reg2`, registers compared exactly.
    StoreRegInReg(u8, u8),
    /// `add vsp, imm32`.
    AddVsp,
    /// `sub vsp, imm32`.
    SubVsp,
    /// `add vsp, n`.
    AddVspBy(u32),
    /// `sub vsp, n`.
    SubVspBy(u32),
    AddRegReg(u8, u8),
    OrRegReg(u8, u8),
    AndRegReg(u8, u8),
    NotReg(u8),
    ShrRegCl(u8),
    /// A register-to-register `mov` from exactly this register.
    MovRegSource(u8),
    Pushfq,
    /// `xor r, key` with this opcode.
    XorKeySource(u16),
    /// `xor key, r` with this opcode.
    XorKeyDest(u16),
    PushKey,
    FetchVip,
    FetchEncryptedVip,
    /// `lea r64, [... + disp]` with a nonzero displacement.
    LeaWithDisplacement,
    /// `lea vip, m` or `add vip, r64`: the VIP register gets its base.
    VipRebase,
}

pub open spec fn pattern_holds(insn: Insn, p: Pattern, alloc: VmRegisterAllocation) -> bool {
    match p {
        Pattern::FetchFrom(r) => fetch_size(insn, r) is Some,
        Pattern::FetchZxFrom(r) => fetch_zx_size(insn, r) is Some,
        Pattern::StoreTo(r) => store_size(insn, r) is Some,
        Pattern::StoreRegInReg(r1, r2) => store_reg2_in_reg1_size(insn, r1, r2) is Some,
        Pattern::AddVsp => vsp_imm(insn, alloc, code::ADD_RM64_IMM32) is Some,
        Pattern::SubVsp => vsp_imm(insn, alloc, code::SUB_RM64_IMM32) is Some,
        Pattern::AddVspBy(n) => vsp_imm(insn, alloc, code::ADD_RM64_IMM32) == Some(n),
        Pattern::SubVspBy(n) => vsp_imm(insn, alloc, code::SUB_RM64_IMM32) == Some(n),
        Pattern::AddRegReg(r1, r2) => is_add_reg_reg(insn, r1, r2),
        Pattern::OrRegReg(r1, r2) => is_or_reg_reg(insn, r1, r2),
        Pattern::AndRegReg(r1, r2) => is_and_reg_reg(insn, r1, r2),
        Pattern::NotReg(r) => is_not_reg(insn, r),
        Pattern::ShrRegCl(r) => is_shr_reg_cl(insn, r),
        Pattern::MovRegSource(r) => is_mov_reg_source(insn, r),
        Pattern::Pushfq => is_pushfq(insn),
        Pattern::XorKeySource(c) => is_xor_key_source(insn, alloc, c),
        Pattern::XorKeyDest(c) => is_xor_key_dest(insn, alloc, c),
        Pattern::PushKey => is_push_rolling_key(insn, alloc),
        Pattern::FetchVip => is_fetch_vip(insn, alloc),
        Pattern::FetchEncryptedVip => is_fetch_encrypted_vip(insn, alloc),
        Pattern::LeaWithDisplacement => insn.code == code::LEA_R64_M && insn.memory_displacement
            != 0,
        Pattern::VipRebase => (insn.code == code::LEA_R64_M || insn.code == code::ADD_R64_RM64)
            && writes_full(insn, alloc.vip.number()),
    }
}

pub fn pattern_match(instruction: &Insn, p: Pattern, alloc: &VmRegisterAllocation) -> (r: bool)
    ensures
        r == pattern_holds(*instruction, p, *alloc),
{
    match p {
        Pattern::FetchFrom(reg) => match_fetch_reg_any_size(instruction, reg).is_some(),
        Pattern::FetchZxFrom(reg) => match_fetch_zx_reg_any_size(instruction, reg).is_some(),
        Pattern::StoreTo(reg) => match_store_reg_any_size(instruction, reg).is_some(),
        Pattern::StoreRegInReg(r1, r2) => match_store_reg2_in_reg1(instruction, r1, r2).is_some(),
        Pattern::AddVsp => match_add_vsp_get_amount(instruction, alloc).is_some(),
        Pattern::SubVsp => match_sub_vsp_get_amount(instruction, alloc).is_some(),
        Pattern::AddVspBy(n) => match_add_vsp_by_amount(instruction, alloc, n),
        Pattern::SubVspBy(n) => match_sub_vsp_by_amount(instruction, alloc, n),
        Pattern::AddRegReg(r1, r2) => match_add_reg_reg(instruction, r1, r2),
        Pattern::OrRegReg(r1, r2) => match_or_reg_reg(instruction, r1, r2),
        Pattern::AndRegReg(r1, r2) => match_and_reg_reg(instruction, r1, r2),
        Pattern::NotReg(reg) => match_not_reg(instruction, reg),
        Pattern::ShrRegCl(reg) => match_shr_reg_reg(instruction, reg),
        Pattern::MovRegSource(reg) => match_mov_reg_source(instruction, reg),
        Pattern::Pushfq => match_pushfq(instruction),
        Pattern::XorKeySource(c) => xor_key_operand(instruction, alloc, c, true),
        Pattern::XorKeyDest(c) => xor_key_operand(instruction, alloc, c, false),
        Pattern::PushKey => match_push_rolling_key(instruction, alloc),
        Pattern::FetchVip => match_fetch_vip(instruction, alloc),
        Pattern::FetchEncryptedVip => match_fetch_encrypted_vip(instruction, alloc),
        Pattern::LeaWithDisplacement => instruction.code == code::LEA_R64_M
            && instruction.memory_displacement != 0,
        Pattern::VipRebase => (instruction.code == code::LEA_R64_M || instruction.code
            == code::ADD_R64_RM64) && check_full_reg_written(instruction, alloc.vip.register()),
    }
}

/// The position of the first instruction at or after `from` that matches `p`.
pub open spec fn find_after(
    insns: Seq<Insn>,
    from: int,
    p: Pattern,
    alloc: VmRegisterAllocation,
) -> Option<int>
    decreases insns.len() - from,
{
    if from < 0 || from >= insns.len() {
        None
    } else if pattern_holds(insns[from], p, alloc) {
        Some(from)
    } else {
        find_after(insns, from + 1, p, alloc)
    }
}

proof fn lemma_find_after_skips(
    insns: Seq<Insn>,
    from: int,
    k: int,
    p: Pattern,
    alloc: VmRegisterAllocation,
)
    requires
        0 <= from <= k <= insns.len(),
        forall|j: int| from <= j < k ==> !pattern_holds(#[trigger] insns[j], p, alloc),
    ensures
        find_after(insns, from, p, alloc) == find_after(insns, k, p, alloc),
    decreases k - from,
{
    if from < k {
        lemma_find_after_skips(insns, from + 1, k, p, alloc);
    }
}

/// A found position lies in range, matches, and nothing between the start
/// and it matches.
pub proof fn lemma_find_after_found(
    insns: Seq<Insn>,
    from: int,
    p: Pattern,
    alloc: VmRegisterAllocation,
)
    ensures
        find_after(insns, from, p, alloc) matches Some(i) ==> from <= i < insns.len()
            && pattern_holds(insns[i], p, alloc),
    decreases insns.len() - from,
{
    if 0 <= from < insns.len() && !pattern_holds(insns[from], p, alloc) {
        lemma_find_after_found(insns, from + 1, p, alloc);
    }
}

/// Searches `instructions[from..]` for the first match of `p`.
pub fn find_pattern(
    instructions: &Vec<Insn>,
    from: usize,
    p: Pattern,
    alloc: &VmRegisterAllocation,
) -> (r: Option<usize>)
    ensures
        r matches Some(i) ==> find_after(instructions@, from as int, p, *alloc) == Some(i as int)
            && from <= i < instructions@.len(),
        r is None ==> find_after(instructions@, from as int, p, *alloc) is None,
{
    let n = instructions.len();
    if from >= n {
        return None;
    }
    let mut k = from;
    while k < n
        invariant
            n == instructions@.len(),
            from <= k <= n,
            forall|j: int| from <= j < k ==> !pattern_holds(#[trigger] instructions@[j], p, *alloc),
        decreases n - k,
    {
        if pattern_match(&instructions[k], p, alloc) {
            proof {
                lemma_find_after_skips(instructions@, from as int, k as int, p, *alloc);
            }
            return Some(k);
        }
        k = k + 1;
    }
    proof {
        lemma_find_after_skips(instructions@, from as int, n as int, p, *alloc);
    }
    None
}

} // verus!
