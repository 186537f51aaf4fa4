//! Classification of handlers by how they move the VIP, and recognition of
//! the virtual opcode a handler implements.
use vstd::prelude::*;
use crate::code;
use crate::error::VmError;
use crate::instruction::{check_full_reg_written, full_register, full_register_of, writes_full, Insn, REG_RSP};
use crate::match_assembly::{
    fetch_size, fetch_zx_size, find_after, find_pattern, lemma_find_after_found,
    match_fetch_reg_any_size, match_fetch_zx_reg_any_size, match_store_reg2_in_reg1,
    store_reg2_in_reg1_size, Pattern,
};
use crate::vm_handler::{Registers, VmHandler, VmRegisterAllocation};

verus! {

/// The coarse shape of a handler: the width of its bytecode operand, or how
/// it leaves the VIP.
#[derive(Clone, Copy, Debug, PartialEq, Eq, Structural)]
pub enum HandlerClass {
    ByteOperand,
    WordOperand,
    DwordOperand,
    QwordOperand,
    NoOperand,
    UnconditionalBranch,
    NoVipChange,
}

impl HandlerClass {
    /// The simulation stops after a handler of this class.
    pub open spec fn is_halting(self) -> bool {
        self == HandlerClass::UnconditionalBranch || self == HandlerClass::NoVipChange
    }

    /// The simulation stops after a handler of this class.
    pub fn halts(&self) -> (r: bool)
        ensures
            r == self.is_halting(),
    {
        *self == HandlerClass::UnconditionalBranch || *self == HandlerClass::NoVipChange
    }
}

/// The virtual instruction a handler implements.
#[derive(Clone, Copy, Debug, PartialEq, Eq, Structural)]
pub enum HandlerVmInstruction {
    /// Size in bytes and register slot in the register file.
    Pop(usize, u8),
    /// Size in bytes and register slot in the register file.
    Push(usize, u8),
    PushImm64(u64),
    PushImm32(u32),
    PushImm16(u16),
    PushVsp(usize),
    PopVsp(usize),
    Add(usize),
    Shr(usize),
    Nand(usize),
    Nor(usize),
    Fetch(usize),
    Store(usize),
    VmExit,
    UnknownByteOperand,
    UnknownWordOperand,
    UnknownDwordOperand,
    UnknownQwordOperand,
    UnknownNoOperand,
    UnknownNoVipChange,
    Unknown,
}

/// How many `mov r64, r/m64` instructions write the VIP register.
pub open spec fn vip_mov_writes(s: Seq<Insn>, a: VmRegisterAllocation) -> nat
    decreases s.len(),
{
    if s.len() == 0 {
        0
    } else {
        vip_mov_writes(s.drop_last(), a) + if writes_full(s.last(), a.vip.number())
            && s.last().code == code::MOV_R64_RM64 {
            1nat
        } else {
            0nat
        }
    }
}

/// The immediates of the `add vip, imm32` and `sub vip, imm32` instructions,
/// in order.
pub open spec fn vip_imm_updates(s: Seq<Insn>, a: VmRegisterAllocation) -> Seq<u32>
    decreases s.len(),
{
    if s.len() == 0 {
        Seq::empty()
    } else {
        let earlier = vip_imm_updates(s.drop_last(), a);
        let last = s.last();
        if writes_full(last, a.vip.number()) && (last.code == code::ADD_RM64_IMM32 || last.code
            == code::SUB_RM64_IMM32) {
            earlier.push(last.immediate32)
        } else {
            earlier
        }
    }
}

/// The handler reloads the VIP from memory: an indirect branch.
pub open spec fn is_branch(s: Seq<Insn>, a: VmRegisterAllocation) -> bool {
    let m = vip_mov_writes(s, a);
    (a.vip != Registers::Rsi && a.vip != Registers::Rdi && m >= 1) || m >= 2
}

/// The class that a sequence of VIP immediates stands for.
pub open spec fn class_of_updates(u: Seq<u32>) -> Option<HandlerClass> {
    if u.len() == 0 {
        Some(HandlerClass::NoVipChange)
    } else if u.len() == 1 && u[0] == 4 {
        Some(HandlerClass::NoOperand)
    } else if u.len() == 2 && u[0] == 8 && u[1] == 4 {
        Some(HandlerClass::QwordOperand)
    } else if u.len() == 2 && u[0] == 4 && u[1] == 4 {
        Some(HandlerClass::DwordOperand)
    } else if u.len() == 2 && u[0] == 2 && u[1] == 4 {
        Some(HandlerClass::WordOperand)
    } else if u.len() == 2 && u[0] == 1 && u[1] == 4 {
        Some(HandlerClass::ByteOperand)
    } else {
        None
    }
}

/// The class of a handler; none when its VIP updates match no rule.
pub open spec fn class_of(s: Seq<Insn>, a: VmRegisterAllocation) -> Option<HandlerClass> {
    if is_branch(s, a) {
        Some(HandlerClass::UnconditionalBranch)
    } else {
        class_of_updates(vip_imm_updates(s, a))
    }
}

/// The first match of `p` after position `prev`, if there was a `prev`.
pub open spec fn next_match(
    s: Seq<Insn>,
    prev: Option<int>,
    p: Pattern,
    a: VmRegisterAllocation,
) -> Option<int> {
    match prev {
        Some(i) => find_after(s, i + 1, p, a),
        None => None,
    }
}

/// A position, as an integer.
pub open spec fn pos(o: Option<usize>) -> Option<int> {
    match o {
        Some(i) => Some(i as int),
        None => None,
    }
}

fn find_next(
    instructions: &Vec<Insn>,
    prev: Option<usize>,
    p: Pattern,
    alloc: &VmRegisterAllocation,
) -> (r: Option<usize>)
    requires
        prev matches Some(i) ==> i < instructions@.len(),
    ensures
        pos(r) == next_match(instructions@, pos(prev), p, *alloc),
        r matches Some(i) ==> i < instructions@.len(),
{
    let n = instructions.len();
    match prev {
        Some(i) => {
            assert(i < n);
            find_pattern(instructions, i + 1, p, alloc)
        },
        None => None,
    }
}

pub open spec fn first_fetch(zx: bool, vsp: u8) -> Pattern {
    if zx {
        Pattern::FetchZxFrom(vsp)
    } else {
        Pattern::FetchFrom(vsp)
    }
}

/// `Pop`: a fetch from `[vsp]`, then `add vsp, n`; the size is `n`.
pub open spec fn reg_pop_size(s: Seq<Insn>, a: VmRegisterAllocation) -> Option<usize> {
    let vsp = a.vsp.number();
    let i1 = find_after(s, 0, Pattern::FetchFrom(vsp), a);
    match next_match(s, i1, Pattern::AddVsp, a) {
        Some(j) => Some(s[j].immediate32 as usize),
        None => None,
    }
}

/// `Push`: `sub vsp, n`, then a store to `[vsp]` that is not the last
/// instruction; the size is `n`.
pub open spec fn reg_push_size(s: Seq<Insn>, a: VmRegisterAllocation) -> Option<usize> {
    let vsp = a.vsp.number();
    let i1 = find_after(s, 0, Pattern::SubVsp, a);
    match (i1, next_match(s, i1, Pattern::StoreTo(vsp), a)) {
        (Some(i), Some(j)) => if j + 1 < s.len() {
            Some(s[i].immediate32 as usize)
        } else {
            None
        },
        _ => None,
    }
}

/// `PushImm`: `sub vsp, n`, then a store to `[vsp]`.
pub open spec fn is_push_imm(s: Seq<Insn>, a: VmRegisterAllocation, n: u32) -> bool {
    let i1 = find_after(s, 0, Pattern::SubVspBy(n), a);
    next_match(s, i1, Pattern::StoreTo(a.vsp.number()), a) is Some
}

/// `PopVsp`: the first fetch from `[vsp]` writes the VSP register itself.
pub open spec fn is_pop_vsp(s: Seq<Insn>, a: VmRegisterAllocation) -> bool {
    match find_after(s, 0, Pattern::FetchFrom(a.vsp.number()), a) {
        Some(i) => s[i].op0_register == a.vsp.number(),
        None => false,
    }
}

/// `Add`: two fetches from `[vsp]` (the first a `movzx` when `zx`), an `add`
/// of the two destinations, then `pushfq`; the size is the first fetch's.
pub open spec fn add_size(s: Seq<Insn>, a: VmRegisterAllocation, zx: bool) -> Option<usize> {
    let vsp = a.vsp.number();
    let i1 = find_after(s, 0, first_fetch(zx, vsp), a);
    let i2 = next_match(s, i1, Pattern::FetchFrom(vsp), a);
    match (i1, i2) {
        (Some(f1), Some(f2)) => {
            let reg1 = full_register_of(s[f1].op0_register);
            let reg2 = full_register_of(s[f2].op0_register);
            let i3 = next_match(s, i2, Pattern::AddRegReg(reg1, reg2), a);
            if next_match(s, i3, Pattern::Pushfq, a) is Some {
                Some(s[f1].memory_size)
            } else {
                None
            }
        },
        _ => None,
    }
}

/// `Shr`: two fetches from `[vsp]`, `shr r, cl` on the first destination,
/// then `pushfq`. With a plain `mov` first, the destination is compared as
/// written; with `movzx`, by its full register.
pub open spec fn shr_size(s: Seq<Insn>, a: VmRegisterAllocation, zx: bool) -> Option<usize> {
    let vsp = a.vsp.number();
    let i1 = find_after(s, 0, first_fetch(zx, vsp), a);
    let i2 = next_match(s, i1, Pattern::FetchFrom(vsp), a);
    match (i1, i2) {
        (Some(f1), Some(_)) => {
            let reg = if zx {
                full_register_of(s[f1].op0_register)
            } else {
                s[f1].op0_register
            };
            let i3 = next_match(s, i2, Pattern::ShrRegCl(reg), a);
            if next_match(s, i3, Pattern::Pushfq, a) is Some {
                Some(s[f1].memory_size)
            } else {
                None
            }
        },
        _ => None,
    }
}

/// `Nand` (`or`) or `Nor` (`and`): two fetches from `[vsp]`, `not` of each
/// destination, the combination of the two, then `pushfq`.
pub open spec fn not_combine_size(
    s: Seq<Insn>,
    a: VmRegisterAllocation,
    zx: bool,
    or: bool,
) -> Option<usize> {
    let vsp = a.vsp.number();
    let i1 = find_after(s, 0, first_fetch(zx, vsp), a);
    let i2 = next_match(s, i1, Pattern::FetchFrom(vsp), a);
    match (i1, i2) {
        (Some(f1), Some(f2)) => {
            let reg1 = full_register_of(s[f1].op0_register);
            let reg2 = full_register_of(s[f2].op0_register);
            let i3 = next_match(s, i2, Pattern::NotReg(reg1), a);
            let i4 = next_match(s, i3, Pattern::NotReg(reg2), a);
            let combine = if or {
                Pattern::OrRegReg(reg1, reg2)
            } else {
                Pattern::AndRegReg(reg1, reg2)
            };
            let i5 = next_match(s, i4, combine, a);
            if next_match(s, i5, Pattern::Pushfq, a) is Some {
                Some(s[f1].memory_size)
            } else {
                None
            }
        },
        _ => None,
    }
}

/// `Store`: two fetches from `[vsp]` into `r1` and `r2`, `add vsp, 0x10`,
/// then `mov [r1], r2`; the size is the store's.
pub open spec fn vm_store_size(s: Seq<Insn>, a: VmRegisterAllocation) -> Option<usize> {
    let vsp = a.vsp.number();
    let i1 = find_after(s, 0, Pattern::FetchFrom(vsp), a);
    let i2 = next_match(s, i1, Pattern::FetchFrom(vsp), a);
    match (i1, i2) {
        (Some(f1), Some(f2)) => {
            let reg1 = s[f1].op0_register;
            let reg2 = s[f2].op0_register;
            let i3 = next_match(s, i2, Pattern::AddVspBy(0x10), a);
            match next_match(s, i3, Pattern::StoreRegInReg(reg1, reg2), a) {
                Some(j) => store_reg2_in_reg1_size(s[j], reg1, reg2),
                None => None,
            }
        },
        _ => None,
    }
}

/// `Fetch`: a pointer is fetched from `[vsp]` into `r`, then a value from
/// `[r]`; the size is the second fetch's. With `zx` the second fetch is a
/// `movzx` and `r` is compared by its full register.
pub open spec fn vm_fetch_size(s: Seq<Insn>, a: VmRegisterAllocation, zx: bool) -> Option<usize> {
    let i1 = find_after(s, 0, Pattern::FetchFrom(a.vsp.number()), a);
    match i1 {
        Some(f1) => {
            let reg = if zx {
                full_register_of(s[f1].op0_register)
            } else {
                s[f1].op0_register
            };
            let second = if zx {
                Pattern::FetchZxFrom(reg)
            } else {
                Pattern::FetchFrom(reg)
            };
            match next_match(s, i1, second, a) {
                Some(j) => if zx {
                    fetch_zx_size(s[j], reg)
                } else {
                    fetch_size(s[j], reg)
                },
                None => None,
            }
        },
        None => None,
    }
}

/// `PushVsp`: a register `mov` from the VSP, `sub vsp, n`, then a store to
/// `[vsp]`; the size is `n`.
pub open spec fn push_vsp_size(s: Seq<Insn>, a: VmRegisterAllocation) -> Option<usize> {
    let vsp = a.vsp.number();
    let i1 = find_after(s, 0, Pattern::MovRegSource(vsp), a);
    let i2 = next_match(s, i1, Pattern::SubVsp, a);
    match (i2, next_match(s, i2, Pattern::StoreTo(vsp), a)) {
        (Some(j), Some(_)) => Some(s[j].immediate32 as usize),
        _ => None,
    }
}

/// How many instructions of `s` have opcode `c`.
pub open spec fn count_code(s: Seq<Insn>, c: u16) -> nat
    decreases s.len(),
{
    if s.len() == 0 {
        0
    } else {
        count_code(s.drop_last(), c) + if s.last().code == c {
            1nat
        } else {
            0nat
        }
    }
}

/// `mov rsp, vsp`.
pub open spec fn is_restore_rsp(insn: Insn, a: VmRegisterAllocation) -> bool {
    insn.code == code::MOV_R64_RM64 && insn.op0_register == REG_RSP && insn.op1_register
        == a.vsp.number()
}

/// `VmExit`: a `ret`, a `popfq`, `mov rsp, vsp`, and exactly fifteen `pop r64`.
pub open spec fn is_vm_exit(s: Seq<Insn>, a: VmRegisterAllocation) -> bool {
    &&& exists|i: int| 0 <= i < s.len() && (#[trigger] s[i]).code == code::RETNQ
    &&& exists|i: int| 0 <= i < s.len() && (#[trigger] s[i]).code == code::POPFQ
    &&& exists|i: int| 0 <= i < s.len() && is_restore_rsp(#[trigger] s[i], a)
    &&& count_code(s, code::POP_R64) == 15
}

pub open spec fn no_vip_change_instruction(s: Seq<Insn>, a: VmRegisterAllocation) -> HandlerVmInstruction {
    if is_vm_exit(s, a) {
        HandlerVmInstruction::VmExit
    } else {
        HandlerVmInstruction::UnknownNoVipChange
    }
}

pub open spec fn byte_operand_instruction(
    s: Seq<Insn>,
    a: VmRegisterAllocation,
    operand: u8,
) -> HandlerVmInstruction {
    if let Some(size) = reg_pop_size(s, a) {
        HandlerVmInstruction::Pop(size, operand)
    } else if let Some(size) = reg_push_size(s, a) {
        HandlerVmInstruction::Push(size, operand)
    } else {
        HandlerVmInstruction::UnknownByteOperand
    }
}

pub open spec fn no_operand_instruction(s: Seq<Insn>, a: VmRegisterAllocation) -> HandlerVmInstruction {
    if let Some(size) = push_vsp_size(s, a) {
        HandlerVmInstruction::PushVsp(size)
    } else if is_pop_vsp(s, a) {
        HandlerVmInstruction::PopVsp(8)
    } else if let Some(size) = add_size(s, a, false) {
        HandlerVmInstruction::Add(size)
    } else if let Some(size) = add_size(s, a, true) {
        HandlerVmInstruction::Add(size)
    } else if let Some(size) = shr_size(s, a, false) {
        HandlerVmInstruction::Shr(size)
    } else if let Some(size) = shr_size(s, a, true) {
        HandlerVmInstruction::Shr(size)
    } else if let Some(size) = not_combine_size(s, a, false, true) {
        HandlerVmInstruction::Nand(size)
    } else if let Some(size) = not_combine_size(s, a, true, true) {
        HandlerVmInstruction::Nand(size)
    } else if let Some(size) = not_combine_size(s, a, false, false) {
        HandlerVmInstruction::Nor(size)
    } else if let Some(size) = not_combine_size(s, a, true, false) {
        HandlerVmInstruction::Nor(size)
    } else if let Some(size) = vm_fetch_size(s, a, false) {
        HandlerVmInstruction::Fetch(size)
    } else if let Some(size) = vm_fetch_size(s, a, true) {
        HandlerVmInstruction::Fetch(size)
    } else if let Some(size) = vm_store_size(s, a) {
        HandlerVmInstruction::Store(size)
    } else {
        HandlerVmInstruction::UnknownNoOperand
    }
}

fn find_first(
    instructions: &Vec<Insn>,
    p: Pattern,
    alloc: &VmRegisterAllocation,
) -> (r: Option<usize>)
    ensures
        pos(r) == find_after(instructions@, 0, p, *alloc),
        r matches Some(i) ==> i < instructions@.len(),
{
    find_pattern(instructions, 0, p, alloc)
}

fn vm_match_vm_reg_pop(vm_handler: &VmHandler, reg_allocation: &VmRegisterAllocation) -> (r:
    Option<usize>)
    ensures
        r == reg_pop_size(vm_handler.instructions@, *reg_allocation),
{
    let insns = &vm_handler.instructions;
    let vsp = reg_allocation.vsp.register();
    let i1 = find_first(insns, Pattern::FetchFrom(vsp), reg_allocation);
    match find_next(insns, i1, Pattern::AddVsp, reg_allocation) {
        Some(j) => Some(insns[j].immediate32 as usize),
        None => None,
    }
}

fn vm_match_vm_reg_push(vm_handler: &VmHandler, reg_allocation: &VmRegisterAllocation) -> (r:
    Option<usize>)
    ensures
        r == reg_push_size(vm_handler.instructions@, *reg_allocation),
{
    let insns = &vm_handler.instructions;
    let vsp = reg_allocation.vsp.register();
    let i1 = find_first(insns, Pattern::SubVsp, reg_allocation);
    let i2 = find_next(insns, i1, Pattern::StoreTo(vsp), reg_allocation);
    match (i1, i2) {
        (Some(i), Some(j)) => if j < insns.len() - 1 {
            Some(insns[i].immediate32 as usize)
        } else {
            None
        },
        _ => None,
    }
}

fn vm_match_push_imm(
    vm_handler: &VmHandler,
    reg_allocation: &VmRegisterAllocation,
    size: u32,
) -> (r: bool)
    ensures
        r == is_push_imm(vm_handler.instructions@, *reg_allocation, size),
{
    let insns = &vm_handler.instructions;
    let i1 = find_first(insns, Pattern::SubVspBy(size), reg_allocation);
    find_next(insns, i1, Pattern::StoreTo(reg_allocation.vsp.register()), reg_allocation).is_some()
}

fn vm_match_pop_vsp_64(vm_handler: &VmHandler, reg_allocation: &VmRegisterAllocation) -> (r:
    bool)
    ensures
        r == is_pop_vsp(vm_handler.instructions@, *reg_allocation),
{
    let insns = &vm_handler.instructions;
    let vsp = reg_allocation.vsp.register();
    match find_first(insns, Pattern::FetchFrom(vsp), reg_allocation) {
        Some(i) => insns[i].op0_register == vsp,
        None => false,
    }
}

fn vm_match_add(vm_handler: &VmHandler, reg_allocation: &VmRegisterAllocation, zx: bool) -> (r:
    Option<usize>)
    ensures
        r == add_size(vm_handler.instructions@, *reg_allocation, zx),
{
    let insns = &vm_handler.instructions;
    let vsp = reg_allocation.vsp.register();
    let first = if zx {
        Pattern::FetchZxFrom(vsp)
    } else {
        Pattern::FetchFrom(vsp)
    };
    let i1 = find_first(insns, first, reg_allocation);
    let i2 = find_next(insns, i1, Pattern::FetchFrom(vsp), reg_allocation);
    match (i1, i2) {
        (Some(f1), Some(f2)) => {
            let reg1 = full_register(insns[f1].op0_register);
            let reg2 = full_register(insns[f2].op0_register);
            let i3 = find_next(insns, i2, Pattern::AddRegReg(reg1, reg2), reg_allocation);
            if find_next(insns, i3, Pattern::Pushfq, reg_allocation).is_some() {
                Some(insns[f1].memory_size)
            } else {
                None
            }
        },
        _ => None,
    }
}

fn vm_match_shr(vm_handler: &VmHandler, reg_allocation: &VmRegisterAllocation, zx: bool) -> (r:
    Option<usize>)
    ensures
        r == shr_size(vm_handler.instructions@, *reg_allocation, zx),
{
    let insns = &vm_handler.instructions;
    let vsp = reg_allocation.vsp.register();
    let first = if zx {
        Pattern::FetchZxFrom(vsp)
    } else {
        Pattern::FetchFrom(vsp)
    };
    let i1 = find_first(insns, first, reg_allocation);
    let i2 = find_next(insns, i1, Pattern::FetchFrom(vsp), reg_allocation);
    match (i1, i2) {
        (Some(f1), Some(_)) => {
            let reg = if zx {
                full_register(insns[f1].op0_register)
            } else {
                insns[f1].op0_register
            };
            let i3 = find_next(insns, i2, Pattern::ShrRegCl(reg), reg_allocation);
            if find_next(insns, i3, Pattern::Pushfq, reg_allocation).is_some() {
                Some(insns[f1].memory_size)
            } else {
                None
            }
        },
        _ => None,
    }
}

fn vm_match_not_combine(
    vm_handler: &VmHandler,
    reg_allocation: &VmRegisterAllocation,
    zx: bool,
    or: bool,
) -> (r: Option<usize>)
    ensures
        r == not_combine_size(vm_handler.instructions@, *reg_allocation, zx, or),
{
    let insns = &vm_handler.instructions;
    let vsp = reg_allocation.vsp.register();
    let first = if zx {
        Pattern::FetchZxFrom(vsp)
    } else {
        Pattern::FetchFrom(vsp)
    };
    let i1 = find_first(insns, first, reg_allocation);
    let i2 = find_next(insns, i1, Pattern::FetchFrom(vsp), reg_allocation);
    match (i1, i2) {
        (Some(f1), Some(f2)) => {
            let reg1 = full_register(insns[f1].op0_register);
            let reg2 = full_register(insns[f2].op0_register);
            let i3 = find_next(insns, i2, Pattern::NotReg(reg1), reg_allocation);
            let i4 = find_next(insns, i3, Pattern::NotReg(reg2), reg_allocation);
            let combine = if or {
                Pattern::OrRegReg(reg1, reg2)
            } else {
                Pattern::AndRegReg(reg1, reg2)
            };
            let i5 = find_next(insns, i4, combine, reg_allocation);
            if find_next(insns, i5, Pattern::Pushfq, reg_allocation).is_some() {
                Some(insns[f1].memory_size)
            } else {
                None
            }
        },
        _ => None,
    }
}

fn vm_match_store(vm_handler: &VmHandler, reg_allocation: &VmRegisterAllocation) -> (r: Option<
    usize,
>)
    ensures
        r == vm_store_size(vm_handler.instructions@, *reg_allocation),
{
    let insns = &vm_handler.instructions;
    let vsp = reg_allocation.vsp.register();
    let i1 = find_first(insns, Pattern::FetchFrom(vsp), reg_allocation);
    let i2 = find_next(insns, i1, Pattern::FetchFrom(vsp), reg_allocation);
    match (i1, i2) {
        (Some(f1), Some(f2)) => {
            let reg1 = insns[f1].op0_register;
            let reg2 = insns[f2].op0_register;
            let i3 = find_next(insns, i2, Pattern::AddVspBy(0x10), reg_allocation);
            match find_next(insns, i3, Pattern::StoreRegInReg(reg1, reg2), reg_allocation) {
                Some(j) => match_store_reg2_in_reg1(&insns[j], reg1, reg2),
                None => None,
            }
        },
        _ => None,
    }
}

fn vm_match_fetch(vm_handler: &VmHandler, reg_allocation: &VmRegisterAllocation, zx: bool) -> (r:
    Option<usize>)
    ensures
        r == vm_fetch_size(vm_handler.instructions@, *reg_allocation, zx),
{
    let insns = &vm_handler.instructions;
    let i1 = find_first(insns, Pattern::FetchFrom(reg_allocation.vsp.register()), reg_allocation);
    match i1 {
        Some(f1) => {
            let reg = if zx {
                full_register(insns[f1].op0_register)
            } else {
                insns[f1].op0_register
            };
            let second = if zx {
                Pattern::FetchZxFrom(reg)
            } else {
                Pattern::FetchFrom(reg)
            };
            match find_next(insns, i1, second, reg_allocation) {
                Some(j) => if zx {
                    match_fetch_zx_reg_any_size(&insns[j], reg)
                } else {
                    match_fetch_reg_any_size(&insns[j], reg)
                },
                None => None,
            }
        },
        None => None,
    }
}

fn vm_match_push_vsp(vm_handler: &VmHandler, reg_allocation: &VmRegisterAllocation) -> (r: Option<
    usize,
>)
    ensures
        r == push_vsp_size(vm_handler.instructions@, *reg_allocation),
{
    let insns = &vm_handler.instructions;
    let vsp = reg_allocation.vsp.register();
    let i1 = find_first(insns, Pattern::MovRegSource(vsp), reg_allocation);
    let i2 = find_next(insns, i1, Pattern::SubVsp, reg_allocation);
    match (i2, find_next(insns, i2, Pattern::StoreTo(vsp), reg_allocation)) {
        (Some(j), Some(_)) => Some(insns[j].immediate32 as usize),
        _ => None,
    }
}

fn vm_match_vm_exit(vm_handler: &VmHandler, reg_allocation: &VmRegisterAllocation) -> (r: bool)
    ensures
        r == is_vm_exit(vm_handler.instructions@, *reg_allocation),
{
    let insns = &vm_handler.instructions;
    let vsp = reg_allocation.vsp.register();
    let n = insns.len();
    let mut has_ret = false;
    let mut has_popfq = false;
    let mut has_restore = false;
    let mut pops: usize = 0;
    let mut k: usize = 0;
    while k < n
        invariant
            n == insns@.len(),
            0 <= k <= n,
            vsp == reg_allocation.vsp.number(),
            has_ret == exists|i: int| 0 <= i < k && (#[trigger] insns@[i]).code == code::RETNQ,
            has_popfq == exists|i: int| 0 <= i < k && (#[trigger] insns@[i]).code == code::POPFQ,
            has_restore == exists|i: int|
                0 <= i < k && is_restore_rsp(#[trigger] insns@[i], *reg_allocation),
            pops == count_code(insns@.subrange(0, k as int), code::POP_R64),
            pops <= k,
        decreases n - k,
    {
        let insn = &insns[k];
        proof {
            assert(insns@.subrange(0, k + 1).drop_last() =~= insns@.subrange(0, k as int));
        }
        if insn.code == code::RETNQ {
            has_ret = true;
        }
        if insn.code == code::POPFQ {
            has_popfq = true;
        }
        if insn.code == code::MOV_R64_RM64 && insn.op0_register == REG_RSP && insn.op1_register
            == vsp {
            has_restore = true;
        }
        if insn.code == code::POP_R64 {
            pops = pops + 1;
        }
        k = k + 1;
    }
    proof {
        assert(insns@.subrange(0, n as int) =~= insns@);
    }
    has_ret && has_popfq && has_restore && pops == 15
}

impl VmHandler {
    /// The handler's class, from how it writes the VIP register; an
    /// `UnknownClass` error when its VIP updates match no rule.
    pub fn match_handler_class(&self, reg_allocation: &VmRegisterAllocation) -> (r: Result<
        HandlerClass,
        VmError,
    >)
        ensures
            r == match class_of(self.instructions@, *reg_allocation) {
                Some(c) => Ok::<HandlerClass, VmError>(c),
                None => Err(VmError::UnknownClass),
            },
    {
        let insns = &self.instructions;
        let vip = reg_allocation.vip.register();
        let n = insns.len();
        let mut mov_writes: usize = 0;
        let mut updates: Vec<u32> = Vec::new();
        let mut k: usize = 0;
        while k < n
            invariant
                n == insns@.len(),
                0 <= k <= n,
                vip == reg_allocation.vip.number(),
                mov_writes == vip_mov_writes(insns@.subrange(0, k as int), *reg_allocation),
                mov_writes <= k,
                updates@ == vip_imm_updates(insns@.subrange(0, k as int), *reg_allocation),
            decreases n - k,
        {
            let insn = &insns[k];
            proof {
                assert(insns@.subrange(0, k + 1).drop_last() =~= insns@.subrange(0, k as int));
            }
            if check_full_reg_written(insn, vip) {
                if insn.code == code::MOV_R64_RM64 {
                    mov_writes = mov_writes + 1;
                }
                if insn.code == code::ADD_RM64_IMM32 || insn.code == code::SUB_RM64_IMM32 {
                    updates.push(insn.immediate32);
                }
            }
            k = k + 1;
        }
        proof {
            assert(insns@.subrange(0, n as int) =~= insns@);
        }
        let on_stream_register = reg_allocation.vip == Registers::Rsi || reg_allocation.vip
            == Registers::Rdi;
        if (!on_stream_register && mov_writes >= 1) || mov_writes >= 2 {
            return Ok(HandlerClass::UnconditionalBranch);
        }
        let u = updates.len();
        if u == 0 {
            Ok(HandlerClass::NoVipChange)
        } else if u == 1 && updates[0] == 4 {
            Ok(HandlerClass::NoOperand)
        } else if u == 2 && updates[0] == 8 && updates[1] == 4 {
            Ok(HandlerClass::QwordOperand)
        } else if u == 2 && updates[0] == 4 && updates[1] == 4 {
            Ok(HandlerClass::DwordOperand)
        } else if u == 2 && updates[0] == 2 && updates[1] == 4 {
            Ok(HandlerClass::WordOperand)
        } else if u == 2 && updates[0] == 1 && updates[1] == 4 {
            Ok(HandlerClass::ByteOperand)
        } else {
            Err(VmError::UnknownClass)
        }
    }

    pub fn match_no_vip_change_instructions(&self, reg_allocation: &VmRegisterAllocation) -> (r:
        HandlerVmInstruction)
        ensures
            r == no_vip_change_instruction(self.instructions@, *reg_allocation),
    {
        if vm_match_vm_exit(self, reg_allocation) {
            return HandlerVmInstruction::VmExit;
        }
        HandlerVmInstruction::UnknownNoVipChange
    }

    pub fn match_byte_operand_instructions(
        &self,
        reg_allocation: &VmRegisterAllocation,
        byte_operand: u8,
    ) -> (r: HandlerVmInstruction)
        ensures
            r == byte_operand_instruction(self.instructions@, *reg_allocation, byte_operand),
    {
        if let Some(size) = vm_match_vm_reg_pop(self, reg_allocation) {
            return HandlerVmInstruction::Pop(size, byte_operand);
        }
        if let Some(size) = vm_match_vm_reg_push(self, reg_allocation) {
            return HandlerVmInstruction::Push(size, byte_operand);
        }
        HandlerVmInstruction::UnknownByteOperand
    }

    pub fn match_word_operand_instructions(
        &self,
        reg_allocation: &VmRegisterAllocation,
        word_operand: u16,
    ) -> (r: HandlerVmInstruction)
        ensures
            r == if is_push_imm(self.instructions@, *reg_allocation, 2) {
                HandlerVmInstruction::PushImm16(word_operand)
            } else {
                HandlerVmInstruction::UnknownWordOperand
            },
    {
        if vm_match_push_imm(self, reg_allocation, 2) {
            return HandlerVmInstruction::PushImm16(word_operand);
        }
        HandlerVmInstruction::UnknownWordOperand
    }

    pub fn match_dword_operand_instructions(
        &self,
        reg_allocation: &VmRegisterAllocation,
        dword_operand: u32,
    ) -> (r: HandlerVmInstruction)
        ensures
            r == if is_push_imm(self.instructions@, *reg_allocation, 4) {
                HandlerVmInstruction::PushImm32(dword_operand)
            } else {
                HandlerVmInstruction::UnknownDwordOperand
            },
    {
        if vm_match_push_imm(self, reg_allocation, 4) {
            return HandlerVmInstruction::PushImm32(dword_operand);
        }
        HandlerVmInstruction::UnknownDwordOperand
    }

    pub fn match_qword_operand_instructions(
        &self,
        reg_allocation: &VmRegisterAllocation,
        qword_operand: u64,
    ) -> (r: HandlerVmInstruction)
        ensures
            r == if is_push_imm(self.instructions@, *reg_allocation, 8) {
                HandlerVmInstruction::PushImm64(qword_operand)
            } else {
                HandlerVmInstruction::UnknownQwordOperand
            },
    {
        if vm_match_push_imm(self, reg_allocation, 8) {
            return HandlerVmInstruction::PushImm64(qword_operand);
        }
        HandlerVmInstruction::UnknownQwordOperand
    }

    pub fn match_no_operand_instructions(&self, reg_allocation: &VmRegisterAllocation) -> (r:
        HandlerVmInstruction)
        ensures
            r == no_operand_instruction(self.instructions@, *reg_allocation),
    {
        if let Some(size) = vm_match_push_vsp(self, reg_allocation) {
            return HandlerVmInstruction::PushVsp(size);
        }
        if vm_match_pop_vsp_64(self, reg_allocation) {
            return HandlerVmInstruction::PopVsp(8);
        }
        if let Some(size) = vm_match_add(self, reg_allocation, false) {
            return HandlerVmInstruction::Add(size);
        }
        if let Some(size) = vm_match_add(self, reg_allocation, true) {
            return HandlerVmInstruction::Add(size);
        }
        if let Some(size) = vm_match_shr(self, reg_allocation, false) {
            return HandlerVmInstruction::Shr(size);
        }
        if let Some(size) = vm_match_shr(self, reg_allocation, true) {
            return HandlerVmInstruction::Shr(size);
        }
        if let Some(size) = vm_match_not_combine(self, reg_allocation, false, true) {
            return HandlerVmInstruction::Nand(size);
        }
        if let Some(size) = vm_match_not_combine(self, reg_allocation, true, true) {
            return HandlerVmInstruction::Nand(size);
        }
        if let Some(size) = vm_match_not_combine(self, reg_allocation, false, false) {
            return HandlerVmInstruction::Nor(size);
        }
        if let Some(size) = vm_match_not_combine(self, reg_allocation, true, false) {
            return HandlerVmInstruction::Nor(size);
        }
        if let Some(size) = vm_match_fetch(self, reg_allocation, false) {
            return HandlerVmInstruction::Fetch(size);
        }
        if let Some(size) = vm_match_fetch(self, reg_allocation, true) {
            return HandlerVmInstruction::Fetch(size);
        }
        if let Some(size) = vm_match_store(self, reg_allocation) {
            return HandlerVmInstruction::Store(size);
        }
        HandlerVmInstruction::UnknownNoOperand
    }
}

/// How many bytecode bytes a handler of class `c` consumes: its operand and
/// the 4-byte next-handler offset; none for the classes that stop.
pub open spec fn class_advance(c: HandlerClass) -> int {
    match c {
        HandlerClass::ByteOperand => 1int + 4,
        HandlerClass::WordOperand => 2int + 4,
        HandlerClass::DwordOperand => 4int + 4,
        HandlerClass::QwordOperand => 8int + 4,
        HandlerClass::NoOperand => 4int,
        HandlerClass::UnconditionalBranch => 0,
        HandlerClass::NoVipChange => 0,
    }
}

/// The sum of a sequence of immediates.
pub open spec fn sum_updates(u: Seq<u32>) -> int
    decreases u.len(),
{
    if u.len() == 0 {
        0
    } else {
        sum_updates(u.drop_last()) + u.last()
    }
}

/// For every class but `UnconditionalBranch`, the bytes the class consumes
/// are the sum of the handler's own VIP immediates.
pub proof fn lemma_vip_advance_is_update_sum(s: Seq<Insn>, a: VmRegisterAllocation)
    requires
        class_of(s, a) is Some,
        class_of(s, a) != Some(HandlerClass::UnconditionalBranch),
    ensures
        class_advance(class_of(s, a)->Some_0) == sum_updates(vip_imm_updates(s, a)),
{
    let u = vip_imm_updates(s, a);
    if u.len() == 2 {
        assert(sum_updates(u.drop_last().drop_last()) == 0);
        assert(u.drop_last().last() == u[0]);
        assert(sum_updates(u.drop_last()) == u[0]);
        assert(sum_updates(u) == u[0] + u[1]);
    } else if u.len() == 1 {
        assert(sum_updates(u.drop_last()) == 0);
        assert(sum_updates(u) == u[0]);
    }
}

/// The class is a function of the handler's instructions and the register
/// roles alone: classifying the same handler under the same roles twice
/// gives the same class.
pub proof fn lemma_class_is_deterministic(
    s1: Seq<Insn>,
    a1: VmRegisterAllocation,
    s2: Seq<Insn>,
    a2: VmRegisterAllocation,
)
    requires
        s1 == s2,
        a1 == a2,
    ensures
        class_of(s1, a1) == class_of(s2, a2),
{
}

/// A handler that neither reloads the VIP nor adds to or subtracts from it
/// is a `NoVipChange` handler, whatever else it does.
pub proof fn lemma_no_updates_no_vip_change(s: Seq<Insn>, a: VmRegisterAllocation)
    requires
        !is_branch(s, a),
        vip_imm_updates(s, a).len() == 0,
    ensures
        class_of(s, a) == Some(HandlerClass::NoVipChange),
{
}

/// Two `add vip, 4` make a `DwordOperand` handler, not two operandless steps.
pub proof fn lemma_four_four_is_dword(s: Seq<Insn>, a: VmRegisterAllocation)
    requires
        !is_branch(s, a),
        vip_imm_updates(s, a) == seq![4u32, 4u32],
    ensures
        class_of(s, a) == Some(HandlerClass::DwordOperand),
{
    assert(seq![4u32, 4u32][0] == 4 && seq![4u32, 4u32][1] == 4);
}

} // verus!
