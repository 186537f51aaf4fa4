//! Register roles, the VM context, and the handler reader with the operand
//! decoder.
use vstd::prelude::*;
use crate::code;
use crate::error::VmError;
use crate::image::{
    disassemble_instruction_at_va, handle_vm_call, bytes_at, PeImage, le_u16, le_u32, le_u64, le_value, read_bytes_at_va,
};
use crate::instruction::{
    Insn, KIND_MEMORY, REG_NONE, REG_RAX, REG_RBX, REG_RCX, REG_RDX, REG_RSI, REG_RDI, REG_RSP, REG_RBP, REG_R8,
    REG_R9, REG_R10, REG_R11, REG_R12, REG_R13, REG_R14, REG_R15,
};
use crate::match_assembly::{find_after, find_pattern, Pattern};
use crate::transforms::{
    all_of_width, apply_all, emulate_encryption, lemma_apply_keeps_width, transforms_in, truncate,
};
use crate::vm_matchers::{
    byte_operand_instruction, class_advance, class_of, is_push_imm, next_match, no_operand_instruction,
    no_vip_change_instruction, pos, HandlerClass, HandlerVmInstruction,
};

verus! {

/// The sixteen general-purpose 64-bit registers, and the flags register as a
/// pseudo-register for the push order.
#[derive(Clone, Copy, Debug, PartialEq, Eq, Structural)]
pub enum Registers {
    Rax,
    Rbx,
    Rcx,
    Rdx,
    Rsi,
    Rdi,
    Rsp,
    Rbp,
    R8,
    R9,
    R10,
    R11,
    R12,
    R13,
    R14,
    R15,
    Flags,
}

impl Registers {
    /// The decoder's number for the register; `Flags` has none and maps to
    /// the decoder's `None`.
    pub open spec fn number(self) -> u8 {
        match self {
            Registers::Rax => REG_RAX,
            Registers::Rbx => REG_RBX,
            Registers::Rcx => REG_RCX,
            Registers::Rdx => REG_RDX,
            Registers::Rsi => REG_RSI,
            Registers::Rdi => REG_RDI,
            Registers::Rsp => REG_RSP,
            Registers::Rbp => REG_RBP,
            Registers::R8 => REG_R8,
            Registers::R9 => REG_R9,
            Registers::R10 => REG_R10,
            Registers::R11 => REG_R11,
            Registers::R12 => REG_R12,
            Registers::R13 => REG_R13,
            Registers::R14 => REG_R14,
            Registers::R15 => REG_R15,
            Registers::Flags => REG_NONE,
        }
    }

    /// The register for a decoder number, if it names a general-purpose
    /// 64-bit register.
    pub open spec fn from_number(reg: u8) -> Option<Registers> {
        if reg == REG_RAX {
            Some(Registers::Rax)
        } else if reg == REG_RBX {
            Some(Registers::Rbx)
        } else if reg == REG_RCX {
            Some(Registers::Rcx)
        } else if reg == REG_RDX {
            Some(Registers::Rdx)
        } else if reg == REG_RSI {
            Some(Registers::Rsi)
        } else if reg == REG_RDI {
            Some(Registers::Rdi)
        } else if reg == REG_RSP {
            Some(Registers::Rsp)
        } else if reg == REG_RBP {
            Some(Registers::Rbp)
        } else if reg == REG_R8 {
            Some(Registers::R8)
        } else if reg == REG_R9 {
            Some(Registers::R9)
        } else if reg == REG_R10 {
            Some(Registers::R10)
        } else if reg == REG_R11 {
            Some(Registers::R11)
        } else if reg == REG_R12 {
            Some(Registers::R12)
        } else if reg == REG_R13 {
            Some(Registers::R13)
        } else if reg == REG_R14 {
            Some(Registers::R14)
        } else if reg == REG_R15 {
            Some(Registers::R15)
        } else {
            None
        }
    }

    /// The decoder's number for the register (the decoder's `None` for `Flags`).
    pub fn register(&self) -> (r: u8)
        ensures
            r == self.number(),
    {
        match self {
            Registers::Rax => REG_RAX,
            Registers::Rbx => REG_RBX,
            Registers::Rcx => REG_RCX,
            Registers::Rdx => REG_RDX,
            Registers::Rsi => REG_RSI,
            Registers::Rdi => REG_RDI,
            Registers::Rsp => REG_RSP,
            Registers::Rbp => REG_RBP,
            Registers::R8 => REG_R8,
            Registers::R9 => REG_R9,
            Registers::R10 => REG_R10,
            Registers::R11 => REG_R11,
            Registers::R12 => REG_R12,
            Registers::R13 => REG_R13,
            Registers::R14 => REG_R14,
            Registers::R15 => REG_R15,
            Registers::Flags => REG_NONE,
        }
    }

    /// The general-purpose 64-bit register that a decoder number names, if any.
    pub fn from_register(reg: u8) -> (r: Option<Registers>)
        ensures
            r == Self::from_number(reg),
            r matches Some(x) ==> x.number() == reg && x != Registers::Flags,
    {
        if reg == REG_RAX {
            Some(Registers::Rax)
        } else if reg == REG_RBX {
            Some(Registers::Rbx)
        } else if reg == REG_RCX {
            Some(Registers::Rcx)
        } else if reg == REG_RDX {
            Some(Registers::Rdx)
        } else if reg == REG_RSI {
            Some(Registers::Rsi)
        } else if reg == REG_RDI {
            Some(Registers::Rdi)
        } else if reg == REG_RSP {
            Some(Registers::Rsp)
        } else if reg == REG_RBP {
            Some(Registers::Rbp)
        } else if reg == REG_R8 {
            Some(Registers::R8)
        } else if reg == REG_R9 {
            Some(Registers::R9)
        } else if reg == REG_R10 {
            Some(Registers::R10)
        } else if reg == REG_R11 {
            Some(Registers::R11)
        } else if reg == REG_R12 {
            Some(Registers::R12)
        } else if reg == REG_R13 {
            Some(Registers::R13)
        } else if reg == REG_R14 {
            Some(Registers::R14)
        } else if reg == REG_R15 {
            Some(Registers::R15)
        } else {
            None
        }
    }
}

/// Kinds of handler that are recognised by their place rather than by their
/// shape.
#[derive(Clone, Copy, Debug, PartialEq, Eq, Structural)]
pub enum HandlerType {
    VmEntry,
}

/// Which native register plays each role of the virtual machine.
#[derive(Clone, Copy, Debug, PartialEq, Eq, Structural)]
pub struct VmRegisterAllocation {
    /// Virtual instruction pointer.
    pub vip: Registers,
    /// Virtual stack pointer.
    pub vsp: Registers,
    /// Rolling key of the bytecode cipher.
    pub key: Registers,
    /// Address of the next handler.
    pub handler_address: Registers,
}

impl VmRegisterAllocation {
    /// The four roles sit in four different general-purpose registers.
    pub open spec fn wf(self) -> bool {
        &&& self.vip != Registers::Flags
        &&& self.vsp != Registers::Flags
        &&& self.key != Registers::Flags
        &&& self.handler_address != Registers::Flags
        &&& self.vip != self.vsp
        &&& self.vip != self.key
        &&& self.vip != self.handler_address
        &&& self.vsp != self.key
        &&& self.vsp != self.handler_address
        &&& self.key != self.handler_address
    }
}

/// The instructions of one handler, in execution order, with direct jumps
/// between its pieces left out. The last one is a `ret` or a `jmp r/m64`.
pub struct VmHandler {
    pub instructions: Vec<Insn>,
}

/// The most handlers one simulation interprets before it gives up.
pub const MAX_HANDLERS: usize = 1_000_000;

/// The most instructions the reader decodes for one handler, jumps included.
pub const MAX_HANDLER_INSTRUCTIONS: usize = 4096;

/// A handler body as the reader produces it: nonempty, within the bound,
/// ending in its only `ret` or `jmp r/m64`, with no direct jump left in it.
pub open spec fn is_handler_body(s: Seq<Insn>) -> bool {
    &&& 0 < s.len() <= MAX_HANDLER_INSTRUCTIONS
    &&& (s.last().code == code::RETNQ || s.last().code == code::JMP_RM64)
    &&& forall|i: int|
        0 <= i < s.len() - 1 ==> (#[trigger] s[i]).code != code::RETNQ && s[i].code
            != code::JMP_RM64 && s[i].code != code::JMP_REL32_64
}

/// `mov r64, rsp`: the register that becomes the VSP.
pub open spec fn is_mov_from_rsp(insn: Insn) -> bool {
    insn.code == code::MOV_R64_RM64 && insn.op1_register == REG_RSP
}

/// `mov r64, [rsp + 0x90]`: the register that becomes the VIP.
pub open spec fn is_load_vip_slot(insn: Insn) -> bool {
    insn.code == code::MOV_R64_RM64 && insn.op1_kind == KIND_MEMORY && insn.memory_base == REG_RSP
        && insn.memory_displacement == 0x90
}

/// The first position in `s` whose instruction satisfies `is_mov_from_rsp`
/// (when `vip_slot` is false) or `is_load_vip_slot` (when it is true).
pub open spec fn first_entry_mov(s: Seq<Insn>, vip_slot: bool) -> Option<int>
    decreases s.len(),
{
    if s.len() == 0 {
        None
    } else {
        match first_entry_mov(s.drop_last(), vip_slot) {
            Some(i) => Some(i),
            None => if (vip_slot && is_load_vip_slot(s.last())) || (!vip_slot && is_mov_from_rsp(
                s.last(),
            )) {
                Some(s.len() - 1)
            } else {
                None
            },
        }
    }
}

/// The last position in `s` with opcode `c`.
pub open spec fn last_with_code(s: Seq<Insn>, c: u16) -> Option<int>
    decreases s.len(),
{
    if s.len() == 0 {
        None
    } else if s.last().code == c {
        Some(s.len() - 1)
    } else {
        last_with_code(s.drop_last(), c)
    }
}

pub open spec fn operand_register(s: Seq<Insn>, i: Option<int>) -> Option<Registers> {
    match i {
        Some(k) => Registers::from_number(s[k].op0_register),
        None => None,
    }
}

/// The register allocation a VM entry sets up: the handler register from its
/// final `jmp r64` (or, ending in `ret`, from its last `push r64`), the key
/// from its last `pop r64`, the VSP from its first `mov r64, rsp` and the VIP
/// from its first `mov r64, [rsp + 0x90]`; none unless all four are distinct
/// general-purpose registers.
pub open spec fn entry_allocation(s: Seq<Insn>) -> Option<VmRegisterAllocation> {
    let handler = if s.len() > 0 && s.last().code == code::JMP_RM64 {
        Registers::from_number(s.last().op0_register)
    } else {
        operand_register(s, last_with_code(s, code::PUSH_R64))
    };
    let key = operand_register(s, last_with_code(s, code::POP_R64));
    let vsp = operand_register(s, first_entry_mov(s, false));
    let vip = operand_register(s, first_entry_mov(s, true));
    match (vip, vsp, key, handler) {
        (Some(vip), Some(vsp), Some(key), Some(handler_address)) => {
            let a = VmRegisterAllocation { vip, vsp, key, handler_address };
            if a.wf() {
                Some(a)
            } else {
                None
            }
        },
        _ => None,
    }
}

/// The registers saved by `s` in order: each `push r64` and each `pushfq`
/// (as `Flags`); none if a push names no general-purpose register.
pub open spec fn pushes(s: Seq<Insn>) -> Option<Seq<Registers>>
    decreases s.len(),
{
    if s.len() == 0 {
        Some(Seq::empty())
    } else {
        match pushes(s.drop_last()) {
            None => None,
            Some(earlier) => if s.last().code == code::PUSH_R64 {
                match Registers::from_number(s.last().op0_register) {
                    Some(r) => Some(earlier.push(r)),
                    None => None,
                }
            } else if s.last().code == code::PUSHFQ {
                Some(earlier.push(Registers::Flags))
            } else {
                Some(earlier)
            },
        }
    }
}

/// Where the register saves of a VM entry end: the first `mov r64, imm64`.
pub open spec fn push_order_end(s: Seq<Insn>) -> int
    decreases s.len(),
{
    if s.len() == 0 {
        0
    } else if push_order_end(s.drop_last()) < s.len() - 1 {
        push_order_end(s.drop_last())
    } else if s.last().code == code::MOV_R64_IMM64 {
        s.len() - 1
    } else {
        s.len() as int
    }
}

/// `add vip, 4` (true) or `sub vip, 4` (false).
pub open spec fn vip_step(insn: Insn, a: VmRegisterAllocation) -> Option<bool> {
    if (insn.code == code::ADD_RM64_IMM32 || insn.code == code::SUB_RM64_IMM32)
        && Registers::from_number(insn.op0_register) == Some(a.vip) && insn.immediate32 == 4 {
        Some(insn.code == code::ADD_RM64_IMM32)
    } else {
        None
    }
}

/// The direction of the first `add vip, 4` or `sub vip, 4` in `s`.
pub open spec fn direction_of(s: Seq<Insn>, a: VmRegisterAllocation) -> Option<bool>
    decreases s.len(),
{
    if s.len() == 0 {
        None
    } else {
        match direction_of(s.drop_last(), a) {
            Some(d) => Some(d),
            None => vip_step(s.last(), a),
        }
    }
}

/// The first position at or after `from` matching `p`, or the end of `s`.
pub open spec fn find_or_end(s: Seq<Insn>, from: int, p: Pattern, a: VmRegisterAllocation) -> int {
    match find_after(s, from, p, a) {
        Some(i) => i,
        None => s.len() as int,
    }
}

/// The instructions that decrypt the initial VIP: from the first
/// `mov vip, [rsp + 0x90]` up to the first `lea vip, m` or `add vip, r64`.
pub open spec fn initial_vip_window(s: Seq<Insn>, a: VmRegisterAllocation) -> Seq<Insn> {
    let start = find_or_end(s, 0, Pattern::FetchEncryptedVip, a);
    s.subrange(start, find_or_end(s, start, Pattern::VipRebase, a))
}

fn find_or_len(instructions: &Vec<Insn>, from: usize, p: Pattern, alloc: &VmRegisterAllocation) -> (r:
    usize)
    requires
        from <= instructions@.len(),
    ensures
        r == find_or_end(instructions@, from as int, p, *alloc),
        from <= r <= instructions@.len(),
{
    match find_pattern(instructions, from, p, alloc) {
        Some(i) => i,
        None => instructions.len(),
    }
}

impl VmHandler {
    /// Reads the handler at `address`: decodes instruction after instruction,
    /// following direct jumps (which it leaves out), until a `ret` or
    /// `jmp r/m64`, which it keeps. `HandlerTooLong` past
    /// `MAX_HANDLER_INSTRUCTIONS` decoded instructions.
    pub fn new(address: u64, image: &PeImage) -> (r: Result<VmHandler, VmError>)
        ensures
            r matches Ok(h) ==> is_handler_body(h.instructions@),
            r matches Err(e) ==> e == VmError::OutOfImage || e == VmError::Unreadable || e
                == VmError::HandlerTooLong,
    {
        let mut instruction_address = address;
        let mut instructions: Vec<Insn> = Vec::new();
        let mut decoded: usize = 0;
        while decoded < MAX_HANDLER_INSTRUCTIONS
            invariant
                instructions@.len() <= decoded <= MAX_HANDLER_INSTRUCTIONS,
                forall|i: int|
                    0 <= i < instructions@.len() ==> (#[trigger] instructions@[i]).code
                        != code::RETNQ && instructions@[i].code != code::JMP_RM64
                        && instructions@[i].code != code::JMP_REL32_64,
            decreases MAX_HANDLER_INSTRUCTIONS - decoded,
        {
            let instruction = disassemble_instruction_at_va(image, instruction_address)?;
            decoded = decoded + 1;
            if instruction.code == code::RETNQ || instruction.code == code::JMP_RM64 {
                instructions.push(instruction);
                return Ok(VmHandler { instructions });
            } else if instruction.code == code::JMP_REL32_64 {
                instruction_address = instruction.near_branch;
            } else {
                instruction_address = match instruction_address.checked_add(instruction.len as u64) {
                    Some(a) => a,
                    None => return Err(VmError::OutOfImage),
                };
                instructions.push(instruction);
            }
        }
        Err(VmError::HandlerTooLong)
    }

    /// The register allocation of a VM entry handler (see `entry_allocation`);
    /// `AmbiguousAllocation` when it yields no four distinct registers.
    pub fn get_register_allocation_vm_entry(&self) -> (r: Result<VmRegisterAllocation, VmError>)
        ensures
            r == match entry_allocation(self.instructions@) {
                Some(a) => Ok::<VmRegisterAllocation, VmError>(a),
                None => Err(VmError::AmbiguousAllocation),
            },
            r matches Ok(a) ==> a.wf(),
    {
        let insns = &self.instructions;
        let n = insns.len();
        let mut vsp_at: Option<usize> = None;
        let mut vip_at: Option<usize> = None;
        let mut pop_at: Option<usize> = None;
        let mut push_at: Option<usize> = None;
        let mut k: usize = 0;
        while k < n
            invariant
                insns@ == self.instructions@,
                n == insns@.len(),
                0 <= k <= n,
                pos(vsp_at) == first_entry_mov(insns@.subrange(0, k as int), false),
                pos(vip_at) == first_entry_mov(insns@.subrange(0, k as int), true),
                pos(pop_at) == last_with_code(insns@.subrange(0, k as int), code::POP_R64),
                pos(push_at) == last_with_code(insns@.subrange(0, k as int), code::PUSH_R64),
                vsp_at matches Some(i) ==> i < k,
                vip_at matches Some(i) ==> i < k,
                pop_at matches Some(i) ==> i < k,
                push_at matches Some(i) ==> i < k,
            decreases n - k,
        {
            let insn = &insns[k];
            proof {
                assert(insns@.subrange(0, k + 1).drop_last() =~= insns@.subrange(0, k as int));
            }
            if vsp_at.is_none() && insn.code == code::MOV_R64_RM64 && insn.op1_register == REG_RSP {
                vsp_at = Some(k);
            }
            if vip_at.is_none() && insn.code == code::MOV_R64_RM64 && insn.op1_kind == KIND_MEMORY
                && insn.memory_base == REG_RSP && insn.memory_displacement == 0x90 {
                vip_at = Some(k);
            }
            if insn.code == code::POP_R64 {
                pop_at = Some(k);
            }
            if insn.code == code::PUSH_R64 {
                push_at = Some(k);
            }
            k = k + 1;
        }
        proof {
            assert(insns@.subrange(0, n as int) =~= insns@);
        }
        let handler = if n > 0 && insns[n - 1].code == code::JMP_RM64 {
            Registers::from_register(insns[n - 1].op0_register)
        } else {
            operand_register_at(insns, push_at)
        };
        let key = operand_register_at(insns, pop_at);
        let vsp = operand_register_at(insns, vsp_at);
        let vip = operand_register_at(insns, vip_at);
        match (vip, vsp, key, handler) {
            (Some(vip), Some(vsp), Some(key), Some(handler_address)) => {
                if vip == vsp || vip == key || vip == handler_address || vsp == key || vsp
                    == handler_address || key == handler_address {
                    return Err(VmError::AmbiguousAllocation);
                }
                Ok(VmRegisterAllocation { vip, vsp, key, handler_address })
            },
            _ => Err(VmError::AmbiguousAllocation),
        }
    }

    /// The order in which the VM entry saves registers (see `pushes`), up to
    /// its first `mov r64, imm64`; `AmbiguousAllocation` when a push names no
    /// general-purpose register.
    pub fn get_push_order_vm_entry(&self) -> (r: Result<Vec<Registers>, VmError>)
        ensures
            r matches Ok(v) ==> pushes(self.instructions@.subrange(0, push_order_end(self.instructions@))) == Some(v@),
            r is Err <==> pushes(self.instructions@.subrange(0, push_order_end(self.instructions@))) is None,
            r matches Err(e) ==> e == VmError::AmbiguousAllocation,
    {
        let insns = &self.instructions;
        let n = insns.len();
        let mut registers: Vec<Registers> = Vec::new();
        let mut k: usize = 0;
        while k < n
            invariant
                insns@ == self.instructions@,
                n == insns@.len(),
                0 <= k <= n,
                push_order_end(insns@.subrange(0, k as int)) == k,
                pushes(insns@.subrange(0, k as int)) == Some(registers@),
            decreases n - k,
        {
            let insn = &insns[k];
            proof {
                assert(insns@.subrange(0, k + 1).drop_last() =~= insns@.subrange(0, k as int));
                assert(insns@.subrange(0, k + 1).last() == insns@[k as int]);
            }
            if insn.code == code::MOV_R64_IMM64 {
                proof {
                    let p = insns@.subrange(0, k + 1);
                    assert(push_order_end(p) == k);
                    lemma_push_order_end_stays(insns@, k as int + 1);
                }
                return Ok(registers);
            }
            if insn.code == code::PUSH_R64 {
                match Registers::from_register(insn.op0_register) {
                    Some(reg) => registers.push(reg),
                    None => {
                        proof {
                            lemma_pushes_fail_stays(insns@, k as int + 1);
                        }
                        return Err(VmError::AmbiguousAllocation);
                    },
                }
            } else if insn.code == code::PUSHFQ {
                registers.push(Registers::Flags);
            }
            k = k + 1;
        }
        proof {
            assert(insns@.subrange(0, n as int) =~= insns@);
        }
        Ok(registers)
    }

    /// Whether the VIP moves forwards (`add vip, 4` comes first) or
    /// backwards (`sub vip, 4`); `DirectionUnknown` when neither occurs.
    pub fn determine_is_forwards(&self, reg_allocation: &VmRegisterAllocation) -> (r: Result<
        bool,
        VmError,
    >)
        ensures
            r == match direction_of(self.instructions@, *reg_allocation) {
                Some(d) => Ok::<bool, VmError>(d),
                None => Err(VmError::DirectionUnknown),
            },
    {
        let insns = &self.instructions;
        let n = insns.len();
        let mut k: usize = 0;
        while k < n
            invariant
                insns@ == self.instructions@,
                n == insns@.len(),
                0 <= k <= n,
                direction_of(insns@.subrange(0, k as int), *reg_allocation) is None,
            decreases n - k,
        {
            let insn = &insns[k];
            proof {
                assert(insns@.subrange(0, k + 1).drop_last() =~= insns@.subrange(0, k as int));
            }
            let is_vip = match Registers::from_register(insn.op0_register) {
                Some(reg) => reg == reg_allocation.vip,
                None => false,
            };
            if (insn.code == code::ADD_RM64_IMM32 || insn.code == code::SUB_RM64_IMM32) && is_vip
                && insn.immediate32 == 4 {
                proof {
                    let p = insns@.subrange(0, k + 1);
                    assert(p.last() == insns@[k as int]);
                    assert(p.drop_last() =~= insns@.subrange(0, k as int));
                    lemma_direction_stays(insns@, k as int + 1, *reg_allocation);
                }
                return Ok(insn.code == code::ADD_RM64_IMM32);
            }
            k = k + 1;
        }
        proof {
            assert(insns@.subrange(0, n as int) =~= insns@);
        }
        Err(VmError::DirectionUnknown)
    }

    /// The initial VIP offset: the 32-bit value pushed at the call site, run
    /// through the transforms that `initial_vip_window` applies to the VIP
    /// register. `WidthMismatch` if one of them is not 32 bits wide.
    pub fn get_initial_vip(&self, reg_allocation: &VmRegisterAllocation, pushed_val: u64) -> (r:
        Result<u64, VmError>)
        ensures
            ({
                let ts = transforms_in(
                    initial_vip_window(self.instructions@, *reg_allocation),
                    reg_allocation.vip.number(),
                );
                r == if all_of_width(ts, 32) {
                    Ok::<u64, VmError>(apply_all(ts, truncate(pushed_val, 32)))
                } else {
                    Err(VmError::WidthMismatch)
                }
            }),
    {
        let insns = &self.instructions;
        let start = find_or_len(insns, 0, Pattern::FetchEncryptedVip, reg_allocation);
        let end = find_or_len(insns, start, Pattern::VipRebase, reg_allocation);
        let window = slice_of(insns, start, end);
        let mut scratch_key: u64 = 0;
        proof {
            lemma_xor_zero(pushed_val);
        }
        emulate_encryption(32, pushed_val, window, &mut scratch_key, reg_allocation.vip.register())
    }
}

fn slice_of(instructions: &Vec<Insn>, start: usize, end: usize) -> (r: &[Insn])
    requires
        start <= end <= instructions@.len(),
    ensures
        r@ == instructions@.subrange(start as int, end as int),
{
    let all = instructions.as_slice();
    &all[start..end]
}

fn operand_register_at(instructions: &Vec<Insn>, at: Option<usize>) -> (r: Option<Registers>)
    requires
        at matches Some(i) ==> i < instructions@.len(),
    ensures
        r == operand_register(instructions@, pos(at)),
{
    match at {
        Some(i) => Registers::from_register(instructions[i].op0_register),
        None => None,
    }
}

proof fn lemma_xor_zero(x: u64)
    by (bit_vector)
    ensures
        x ^ 0 == x,
{
}

/// Once the register saves of a prefix fail, so do those of every longer
/// prefix, up to where the saves end.
proof fn lemma_pushes_fail_stays(s: Seq<Insn>, k: int)
    requires
        0 < k <= s.len(),
        push_order_end(s.subrange(0, k)) == k,
        pushes(s.subrange(0, k)) is None,
    ensures
        pushes(s.subrange(0, push_order_end(s))) is None,
    decreases s.len() - k,
{
    if k < s.len() {
        let p = s.subrange(0, k + 1);
        assert(p.drop_last() =~= s.subrange(0, k));
        if s[k].code == code::MOV_R64_IMM64 {
            assert(push_order_end(p) == k);
            lemma_push_order_end_stays(s, k + 1);
        } else {
            assert(push_order_end(p) == k + 1);
            lemma_pushes_fail_stays(s, k + 1);
        }
    } else {
        assert(s.subrange(0, k) =~= s);
    }
}

proof fn lemma_push_order_end_stays(s: Seq<Insn>, k: int)
    requires
        0 < k <= s.len(),
        push_order_end(s.subrange(0, k)) < k,
    ensures
        push_order_end(s) == push_order_end(s.subrange(0, k)),
    decreases s.len() - k,
{
    if k < s.len() {
        assert(s.subrange(0, k + 1).drop_last() =~= s.subrange(0, k));
        lemma_push_order_end_stays(s, k + 1);
    } else {
        assert(s.subrange(0, k) =~= s);
    }
}

proof fn lemma_direction_stays(s: Seq<Insn>, k: int, a: VmRegisterAllocation)
    requires
        0 < k <= s.len(),
        direction_of(s.subrange(0, k), a) is Some,
    ensures
        direction_of(s, a) == direction_of(s.subrange(0, k), a),
    decreases s.len() - k,
{
    if k < s.len() {
        assert(s.subrange(0, k + 1).drop_last() =~= s.subrange(0, k));
        lemma_direction_stays(s, k + 1, a);
    } else {
        assert(s.subrange(0, k) =~= s);
    }
}

/// Mutable state of the simulated interpreter.
#[derive(Debug)]
pub struct VmContext {
    /// Register allocation of the VM.
    pub register_allocation: VmRegisterAllocation,
    /// Address of the VM entry handler.
    pub vm_entry_address: u64,
    /// Value pushed at the call site.
    pub pushed_val: u64,
    /// Whether the VIP moves towards higher addresses.
    pub vip_direction_forwards: bool,
    /// Order in which the VM entry saves registers.
    pub push_order: Vec<Registers>,
    /// Rolling key of the bytecode cipher.
    pub rolling_key: u64,
    /// Current VIP.
    pub vip_value: u64,
    /// Address of the next handler.
    pub handler_address: u64,
}

/// Offset added at the VM entry to the decrypted VIP, which places it in the
/// mapped image of the binaries this targets.
pub const VIP_IMAGE_OFFSET: u64 = 0x1_0000_0000;

/// The bytes consumed from the bytecode by reading `size` bytes at `vip`:
/// where the read starts and where the VIP ends up. Forwards the read starts
/// at the VIP, backwards the VIP first moves down by `size`. None on overflow.
pub open spec fn fetch_window(vip: u64, size: u64, forwards: bool) -> Option<(u64, u64)> {
    if forwards {
        if vip + size <= u64::MAX {
            Some((vip, (vip + size) as u64))
        } else {
            None
        }
    } else if vip >= size {
        Some(((vip - size) as u64, (vip - size) as u64))
    } else {
        None
    }
}

/// See `fetch_window`.
pub fn vip_fetch_window(vip: u64, size: u64, forwards: bool) -> (r: Option<(u64, u64)>)
    ensures
        r == fetch_window(vip, size, forwards),
{
    if forwards {
        match vip.checked_add(size) {
            Some(next) => Some((vip, next)),
            None => None,
        }
    } else if vip >= size {
        Some((vip - size, vip - size))
    } else {
        None
    }
}

/// Reading a `size`-byte value backwards first lowers the VIP by `size`,
/// then reads at the lowered VIP: the bytes `[vip - size, vip)`.
pub proof fn lemma_backward_fetch_reads_below(image: Seq<u8>, vip: u64, size: u64)
    requires
        vip >= size,
    ensures
        fetch_window(vip, size, false) == Some(((vip - size) as u64, (vip - size) as u64)),
        moved(vip, size as int, false) == vip - size,
        vip_fetch(image, vip, size, size as nat, false) == match bytes_at(
            image,
            (vip - size) as u64,
            size as nat,
        ) {
            Some(b) => Some((b, (vip - size) as u64)),
            None => None,
        },
{
}

/// The VIP after `n` bytes were consumed in the given direction.
pub open spec fn moved(vip: u64, n: int, forwards: bool) -> int {
    if forwards {
        vip + n
    } else {
        vip - n
    }
}

/// A fetch of `size` bytes at `vip` that reads `read` bytes where it starts:
/// the bytes read and the VIP after it; none when the window overflows or
/// the bytes are not mapped.
pub open spec fn vip_fetch(image: Seq<u8>, vip: u64, size: u64, read: nat, forwards: bool) -> Option<
    (Seq<u8>, u64),
> {
    match fetch_window(vip, size, forwards) {
        Some((start, next)) => match bytes_at(image, start, read) {
            Some(b) => Some((b, next)),
            None => None,
        },
        None => None,
    }
}

/// Reads `read` bytes where a fetch of `size` bytes starts and moves the VIP
/// past those `size` bytes; on failure the VIP stays.
fn fetch_vip_bytes<'a>(image: &PeImage<'a>, vip: &mut u64, forwards: bool, size: u64, read: usize) -> (r:
    Result<&'a [u8], VmError>)
    ensures
        r is Ok <==> vip_fetch(image.image(), *old(vip), size, read as nat, forwards) is Some,
        r matches Ok(b) ==> vip_fetch(image.image(), *old(vip), size, read as nat, forwards) == Some(
            (b@, *final(vip)),
        ),
        r matches Err(e) ==> e == VmError::OutOfImage && *final(vip) == *old(vip),
{
    let (start, next) = match vip_fetch_window(*vip, size, forwards) {
        Some(w) => w,
        None => return Err(VmError::OutOfImage),
    };
    let bytes = read_bytes_at_va(image, start, read)?;
    *vip = next;
    Ok(bytes)
}

/// Reads the 64-bit little-endian word at the VIP and moves the VIP past it.
pub fn fetch_qword_vip(image: &PeImage, vip: &mut u64, direction_is_forwards: bool) -> (r: Result<
    u64,
    VmError,
>)
    ensures
        r is Ok <==> vip_fetch(image.image(), *old(vip), 8, 8, direction_is_forwards) is Some,
        r matches Ok(v) ==> vip_fetch(image.image(), *old(vip), 8, 8, direction_is_forwards)
            matches Some((b, next)) && v as nat == le_value(b) && *final(vip) == next,
        r matches Err(e) ==> e == VmError::OutOfImage && *final(vip) == *old(vip),
{
    let bytes = fetch_vip_bytes(image, vip, direction_is_forwards, 8, 8)?;
    Ok(le_u64(bytes))
}

/// Reads the 32-bit little-endian word at the VIP and moves the VIP past it.
pub fn fetch_dword_vip(image: &PeImage, vip: &mut u64, direction_is_forwards: bool) -> (r: Result<
    u32,
    VmError,
>)
    ensures
        r is Ok <==> vip_fetch(image.image(), *old(vip), 4, 4, direction_is_forwards) is Some,
        r matches Ok(v) ==> vip_fetch(image.image(), *old(vip), 4, 4, direction_is_forwards)
            matches Some((b, next)) && v as nat == le_value(b) && *final(vip) == next,
        r matches Err(e) ==> e == VmError::OutOfImage && *final(vip) == *old(vip),
{
    let bytes = fetch_vip_bytes(image, vip, direction_is_forwards, 4, 4)?;
    Ok(le_u32(bytes))
}

/// Reads the 16-bit little-endian word at the VIP and moves the VIP past it.
pub fn fetch_word_vip(image: &PeImage, vip: &mut u64, direction_is_forwards: bool) -> (r: Result<
    u16,
    VmError,
>)
    ensures
        r is Ok <==> vip_fetch(image.image(), *old(vip), 2, 2, direction_is_forwards) is Some,
        r matches Ok(v) ==> vip_fetch(image.image(), *old(vip), 2, 2, direction_is_forwards)
            matches Some((b, next)) && v as nat == le_value(b) && *final(vip) == next,
        r matches Err(e) ==> e == VmError::OutOfImage && *final(vip) == *old(vip),
{
    let bytes = fetch_vip_bytes(image, vip, direction_is_forwards, 2, 2)?;
    Ok(le_u16(bytes))
}

/// Reads the byte at the VIP and moves the VIP past it. Four bytes must be
/// mapped there, as for a word.
pub fn fetch_byte_vip(image: &PeImage, vip: &mut u64, direction_is_forwards: bool) -> (r: Result<
    u8,
    VmError,
>)
    ensures
        r is Ok <==> vip_fetch(image.image(), *old(vip), 1, 4, direction_is_forwards) is Some,
        r matches Ok(v) ==> vip_fetch(image.image(), *old(vip), 1, 4, direction_is_forwards)
            matches Some((b, next)) && v == b[0] && *final(vip) == next,
        r matches Err(e) ==> e == VmError::OutOfImage && *final(vip) == *old(vip),
{
    let bytes = fetch_vip_bytes(image, vip, direction_is_forwards, 1, 4)?;
    Ok(bytes[0])
}

/// The instructions of a cipher pass: after the match of `start` (the
/// second one when `second`) at or after `from`, up to the first match of
/// `end` or the end of the handler. The position of the start match comes
/// first; its destination holds the encrypted value.
pub open spec fn key_window(
    s: Seq<Insn>,
    a: VmRegisterAllocation,
    from: int,
    start: Pattern,
    second: bool,
    end: Pattern,
) -> Option<(int, int)> {
    let first = find_after(s, from, start, a);
    let at = if second {
        next_match(s, first, start, a)
    } else {
        first
    };
    match at {
        Some(i) => Some((i, find_or_end(s, i + 1, end, a))),
        None => None,
    }
}

/// One cipher pass over a window: the plaintext of `ciphertext`.
pub open spec fn cipher_pass(
    s: Seq<Insn>,
    window: Option<(int, int)>,
    width: usize,
    ciphertext: u64,
    key: u64,
) -> Result<u64, VmError> {
    match window {
        None => Err(VmError::PatternNotFound),
        Some((i, e)) => {
            let ts = transforms_in(s.subrange(i + 1, e), s[i].op0_register);
            if all_of_width(ts, width) {
                Ok(apply_all(ts, truncate(ciphertext ^ key, width)))
            } else {
                Err(VmError::WidthMismatch)
            }
        },
    }
}

/// The `xor r, r/m` opcode of an operand of `size` bytes.
pub open spec fn xor_code(size: usize) -> u16 {
    if size == 1 {
        code::XOR_R8_RM8
    } else if size == 2 {
        code::XOR_R16_RM16
    } else if size == 4 {
        code::XOR_R32_RM32
    } else {
        code::XOR_R64_RM64
    }
}

/// The window of the operand pass for an operand of `size` bytes: from the
/// `xor r, key` of that width up to the matching `xor key, r`, or, for a
/// dword, up to `push key`.
pub open spec fn operand_window(s: Seq<Insn>, a: VmRegisterAllocation, size: usize) -> Option<(int, int)> {
    let end = if size == 4 {
        Pattern::PushKey
    } else {
        Pattern::XorKeyDest(xor_code(size))
    };
    key_window(s, a, 0, Pattern::XorKeySource(xor_code(size)), false, end)
}

/// The window of the next-handler pass: from the first `xor r32, key` (the
/// second for a dword handler, whose operand pass used the first) up to
/// `push key`.
pub open spec fn offset_window(s: Seq<Insn>, a: VmRegisterAllocation, second: bool) -> Option<(int, int)> {
    key_window(s, a, 0, Pattern::XorKeySource(code::XOR_R32_RM32), second, Pattern::PushKey)
}

/// A 32-bit offset sign-extended to 64 bits.
pub open spec fn sign_extend32(x: u64) -> u64 {
    x as u32 as i32 as i64 as u64
}

fn sign_extend(x: u64) -> (r: u64)
    ensures
        r == sign_extend32(x),
{
    #[verifier::truncate] (#[verifier::truncate] (x as u32) as i32) as i64 as u64
}

fn find_key_window(
    instructions: &Vec<Insn>,
    a: &VmRegisterAllocation,
    from: usize,
    start: Pattern,
    second: bool,
    end: Pattern,
) -> (r: Option<(usize, usize)>)
    requires
        from <= instructions@.len(),
    ensures
        r is None ==> key_window(instructions@, *a, from as int, start, second, end) is None,
        r matches Some((i, e)) ==> i < instructions@.len() && i + 1 <= e <= instructions@.len()
            && key_window(instructions@, *a, from as int, start, second, end) == Some(
            (i as int, e as int),
        ),
{
    let n = instructions.len();
    let first = find_pattern(instructions, from, start, a);
    let at = if second {
        match first {
            Some(i) => {
                assert(i < n);
                find_pattern(instructions, i + 1, start, a)
            },
            None => None,
        }
    } else {
        first
    };
    match at {
        Some(i) => {
            assert(i < n);
            let e = find_or_len(instructions, i + 1, end, a);
            Some((i, e))
        },
        None => None,
    }
}

/// The VM state outside the cipher and the VIP is the same in both.
pub open spec fn same_setup(c1: VmContext, c2: VmContext) -> bool {
    &&& c1.register_allocation == c2.register_allocation
    &&& c1.vm_entry_address == c2.vm_entry_address
    &&& c1.pushed_val == c2.pushed_val
    &&& c1.vip_direction_forwards == c2.vip_direction_forwards
    &&& c1.push_order@ == c2.push_order@
}

impl VmContext {
    /// The register roles are four distinct general-purpose registers.
    pub open spec fn wf(self) -> bool {
        self.register_allocation.wf()
    }

    /// Runs one cipher pass over `window` of `instructions`, updating the
    /// rolling key.
    fn run_pass(
        &mut self,
        instructions: &Vec<Insn>,
        window: Option<(usize, usize)>,
        width: usize,
        ciphertext: u64,
    ) -> (r: Result<u64, VmError>)
        requires
            width == 8 || width == 16 || width == 32 || width == 64,
            window matches Some((i, e)) ==> i < instructions@.len() && i + 1 <= e
                <= instructions@.len(),
        ensures
            r == cipher_pass(instructions@, pos2(window), width, ciphertext, old(self).rolling_key),
            r matches Ok(p) ==> final(self).rolling_key == old(self).rolling_key ^ p,
            r is Err ==> final(self).rolling_key == old(self).rolling_key,
            same_setup(*old(self), *final(self)),
            final(self).vip_value == old(self).vip_value,
            final(self).handler_address == old(self).handler_address,
    {
        match window {
            None => Err(VmError::PatternNotFound),
            Some((i, e)) => {
                let all = instructions.as_slice();
                let slice = &all[i + 1..e];
                assert(slice@ == instructions@.subrange(i + 1, e as int));
                emulate_encryption(width, ciphertext, slice, &mut self.rolling_key, instructions[i].op0_register)
            },
        }
    }
}

/// A window of positions, as integers.
pub open spec fn pos2(o: Option<(usize, usize)>) -> Option<(int, int)> {
    match o {
        Some((i, e)) => Some((i as int, e as int)),
        None => None,
    }
}

/// The result of the next-handler pass: the decrypted offset and the new
/// handler address and key, or the error of the pass.
pub open spec fn next_handler_step(
    s: Seq<Insn>,
    a: VmRegisterAllocation,
    second: bool,
    encrypted_offset: u32,
    key: u64,
    handler_address: u64,
) -> Result<(u64, u64, u64), VmError> {
    match cipher_pass(s, offset_window(s, a, second), 32, encrypted_offset as u64, key) {
        Ok(p) => Ok((p, key ^ p, handler_address.wrapping_add(sign_extend32(p)))),
        Err(e) => Err(e),
    }
}

/// Both passes of a handler with an operand of `size` bytes: the operand,
/// then the key and handler address after the next-handler pass.
pub open spec fn operand_and_offset(
    s: Seq<Insn>,
    a: VmRegisterAllocation,
    size: usize,
    encrypted_operand: u64,
    encrypted_offset: u32,
    key: u64,
    handler_address: u64,
) -> Result<(u64, u64, u64), VmError> {
    match cipher_pass(s, operand_window(s, a, size), (8 * size) as usize, encrypted_operand, key) {
        Err(e) => Err(e),
        Ok(v) => match next_handler_step(s, a, size == 4, encrypted_offset, key ^ v, handler_address) {
            Err(e) => Err(e),
            Ok((_, k, h)) => Ok((v, k, h)),
        },
    }
}

/// The operand width in bytes of a class (0 when it has none).
pub open spec fn operand_size(c: HandlerClass) -> usize {
    match c {
        HandlerClass::ByteOperand => 1,
        HandlerClass::WordOperand => 2,
        HandlerClass::DwordOperand => 4,
        HandlerClass::QwordOperand => 8,
        _ => 0,
    }
}

/// How many bytes the operand fetch reads: a byte operand needs four mapped.
pub open spec fn operand_read(size: usize) -> nat {
    if size == 1 {
        4
    } else {
        size as nat
    }
}

/// The encrypted operand held by the fetched bytes.
pub open spec fn operand_value(b: Seq<u8>, size: usize) -> u64 {
    if size == 1 {
        b[0] as u64
    } else {
        le_value(b) as u64
    }
}

/// The fetches a handler of class `c` makes from the bytecode: the encrypted
/// operand (0 without one), the encrypted offset, and the VIP after them;
/// none when a fetch fails. Halting classes fetch nothing.
pub open spec fn class_fetches(c: HandlerClass, image: Seq<u8>, vip: u64, forwards: bool) -> Option<
    (u64, u32, u64),
> {
    let w = operand_size(c);
    if c.is_halting() {
        Some((0, 0, vip))
    } else if w == 0 {
        match vip_fetch(image, vip, 4, 4, forwards) {
            Some((b, v)) => Some((0, le_value(b) as u32, v)),
            None => None,
        }
    } else {
        match vip_fetch(image, vip, w as u64, operand_read(w), forwards) {
            Some((b1, v1)) => match vip_fetch(image, v1, 4, 4, forwards) {
                Some((b2, v2)) => Some((operand_value(b1, w), le_value(b2) as u32, v2)),
                None => None,
            },
            None => None,
        }
    }
}

/// What interpreting a handler of class `c` does to the cipher state: the
/// decrypted operand (0 without one), the new key, handler address and VIP.
pub open spec fn advance(
    c: HandlerClass,
    s: Seq<Insn>,
    a: VmRegisterAllocation,
    image: Seq<u8>,
    vip: u64,
    forwards: bool,
    key: u64,
    handler_address: u64,
) -> Result<(u64, u64, u64, u64), VmError> {
    match class_fetches(c, image, vip, forwards) {
        None => Err(VmError::OutOfImage),
        Some((c1, c2, v)) => if c.is_halting() {
            Ok((0, key, handler_address, vip))
        } else if operand_size(c) == 0 {
            match next_handler_step(s, a, false, c2, key, handler_address) {
                Ok((_, k, h)) => Ok((0, k, h, v)),
                Err(e) => Err(e),
            }
        } else {
            match operand_and_offset(s, a, operand_size(c), c1, c2, key, handler_address) {
                Ok((o, k, h)) => Ok((o, k, h, v)),
                Err(e) => Err(e),
            }
        },
    }
}

/// An operand decoder of class `c` went from `old` to `new` with result `r`:
/// the state `advance` gives, and, whenever its fetches succeed, the VIP
/// moved past the operand and the offset.
pub open spec fn disassembled(
    c: HandlerClass,
    s: Seq<Insn>,
    image: Seq<u8>,
    old: VmContext,
    new: VmContext,
    r: Result<u64, VmError>,
) -> bool {
    &&& match advance(
        c,
        s,
        old.register_allocation,
        image,
        old.vip_value,
        old.vip_direction_forwards,
        old.rolling_key,
        old.handler_address,
    ) {
        Ok((o, k, h, v)) => r == Ok::<u64, VmError>(o) && new.rolling_key == k
            && new.handler_address == h && new.vip_value == v,
        Err(e) => r == Err::<u64, VmError>(e),
    }
    &&& class_fetches(c, image, old.vip_value, old.vip_direction_forwards) matches Some((_, _, v))
        ==> new.vip_value == v && v == moved(
        old.vip_value,
        class_advance(c),
        old.vip_direction_forwards,
    )
}

/// The virtual instruction of a handler of class `c` whose decrypted
/// operand is `o`.
pub open spec fn instruction_for(
    s: Seq<Insn>,
    a: VmRegisterAllocation,
    c: HandlerClass,
    o: u64,
) -> HandlerVmInstruction {
    match c {
        HandlerClass::UnconditionalBranch => HandlerVmInstruction::Unknown,
        HandlerClass::NoVipChange => no_vip_change_instruction(s, a),
        HandlerClass::NoOperand => no_operand_instruction(s, a),
        HandlerClass::ByteOperand => byte_operand_instruction(s, a, o as u8),
        HandlerClass::WordOperand => if is_push_imm(s, a, 2) {
            HandlerVmInstruction::PushImm16(o as u16)
        } else {
            HandlerVmInstruction::UnknownWordOperand
        },
        HandlerClass::DwordOperand => if is_push_imm(s, a, 4) {
            HandlerVmInstruction::PushImm32(o as u32)
        } else {
            HandlerVmInstruction::UnknownDwordOperand
        },
        HandlerClass::QwordOperand => if is_push_imm(s, a, 8) {
            HandlerVmInstruction::PushImm64(o)
        } else {
            HandlerVmInstruction::UnknownQwordOperand
        },
    }
}

impl VmContext {
    /// The next-handler pass: decrypts the 32-bit offset (see
    /// `offset_window`) and adds it, sign-extended, to the handler address.
    /// Returns the decrypted offset.
    pub fn decrypt_next_handler(
        &mut self,
        vm_handler: &VmHandler,
        second: bool,
        encrypted_offset: u32,
    ) -> (r: Result<u64, VmError>)
        ensures
            r == match next_handler_step(
                vm_handler.instructions@,
                old(self).register_allocation,
                second,
                encrypted_offset,
                old(self).rolling_key,
                old(self).handler_address,
            ) {
                Ok((p, _, _)) => Ok::<u64, VmError>(p),
                Err(e) => Err(e),
            },
            r is Ok ==> next_handler_step(
                vm_handler.instructions@,
                old(self).register_allocation,
                second,
                encrypted_offset,
                old(self).rolling_key,
                old(self).handler_address,
            ) == Ok::<(u64, u64, u64), VmError>(
                (r->Ok_0, final(self).rolling_key, final(self).handler_address),
            ),
            same_setup(*old(self), *final(self)),
            final(self).vip_value == old(self).vip_value,
    {
        let insns = &vm_handler.instructions;
        let window = find_key_window(
            insns,
            &self.register_allocation,
            0,
            Pattern::XorKeySource(code::XOR_R32_RM32),
            second,
            Pattern::PushKey,
        );
        let p = self.run_pass(insns, window, 32, encrypted_offset as u64)?;
        self.handler_address = self.handler_address.wrapping_add(sign_extend(p));
        Ok(p)
    }

    /// Both passes of a handler with an operand of `operand_size` bytes: the
    /// operand pass (see `operand_window`) gives the operand, which is
    /// returned; the next-handler pass follows with the key as the first
    /// left it.
    pub fn decrypt_operand_and_offset(
        &mut self,
        vm_handler: &VmHandler,
        operand_size: usize,
        encrypted_operand: u64,
        encrypted_offset: u32,
    ) -> (r: Result<u64, VmError>)
        requires
            operand_size == 1 || operand_size == 2 || operand_size == 4 || operand_size == 8,
        ensures
            match operand_and_offset(
                vm_handler.instructions@,
                old(self).register_allocation,
                operand_size,
                encrypted_operand,
                encrypted_offset,
                old(self).rolling_key,
                old(self).handler_address,
            ) {
                Ok((v, k, h)) => r == Ok::<u64, VmError>(v) && final(self).rolling_key == k
                    && final(self).handler_address == h,
                Err(e) => r == Err::<u64, VmError>(e),
            },
            r matches Ok(v) ==> v == truncate(v, (8 * operand_size) as usize),
            same_setup(*old(self), *final(self)),
            final(self).vip_value == old(self).vip_value,
    {
        let insns = &vm_handler.instructions;
        let xor = if operand_size == 1 {
            code::XOR_R8_RM8
        } else if operand_size == 2 {
            code::XOR_R16_RM16
        } else if operand_size == 4 {
            code::XOR_R32_RM32
        } else {
            code::XOR_R64_RM64
        };
        let end = if operand_size == 4 {
            Pattern::PushKey
        } else {
            Pattern::XorKeyDest(xor)
        };
        let window = find_key_window(
            insns,
            &self.register_allocation,
            0,
            Pattern::XorKeySource(xor),
            false,
            end,
        );
        let ghost key = self.rolling_key;
        let operand = self.run_pass(insns, window, 8 * operand_size, encrypted_operand)?;
        proof {
            let (i, e) = pos2(window)->Some_0;
            let ts = transforms_in(insns@.subrange(i + 1, e), insns@[i].op0_register);
            let w = (8 * operand_size) as usize;
            lemma_apply_keeps_width(ts, truncate(encrypted_operand ^ key, w), w);
        }
        self.decrypt_next_handler(vm_handler, operand_size == 4, encrypted_offset)?;
        Ok(operand)
    }

    /// Fetches and decrypts the byte operand and the next-handler offset.
    pub fn disassemble_single_byte_operand(
        &mut self,
        vm_handler: &VmHandler,
        image: &PeImage,
    ) -> (r: Result<u8, VmError>)
        ensures
            same_setup(*old(self), *final(self)),
            disassembled(
                HandlerClass::ByteOperand,
                vm_handler.instructions@,
                image.image(),
                *old(self),
                *final(self),
                match r {
                    Ok(v) => Ok::<u64, VmError>(v as u64),
                    Err(e) => Err(e),
                },
            ),
    {
        let forwards = self.vip_direction_forwards;
        let encrypted_byte = fetch_byte_vip(image, &mut self.vip_value, forwards)?;
        let encrypted_offset = fetch_dword_vip(image, &mut self.vip_value, forwards)?;
        let operand = self.decrypt_operand_and_offset(vm_handler, 1, encrypted_byte as u64, encrypted_offset)?;
        Ok(operand as u8)
    }

    /// Fetches and decrypts the word operand and the next-handler offset.
    pub fn disassemble_single_word_operand(
        &mut self,
        vm_handler: &VmHandler,
        image: &PeImage,
    ) -> (r: Result<u16, VmError>)
        ensures
            same_setup(*old(self), *final(self)),
            disassembled(
                HandlerClass::WordOperand,
                vm_handler.instructions@,
                image.image(),
                *old(self),
                *final(self),
                match r {
                    Ok(v) => Ok::<u64, VmError>(v as u64),
                    Err(e) => Err(e),
                },
            ),
    {
        let forwards = self.vip_direction_forwards;
        let encrypted_word = fetch_word_vip(image, &mut self.vip_value, forwards)?;
        let encrypted_offset = fetch_dword_vip(image, &mut self.vip_value, forwards)?;
        let operand = self.decrypt_operand_and_offset(vm_handler, 2, encrypted_word as u64, encrypted_offset)?;
        Ok(operand as u16)
    }

    /// Fetches and decrypts the dword operand and the next-handler offset.
    pub fn disassemble_single_dword_operand(
        &mut self,
        vm_handler: &VmHandler,
        image: &PeImage,
    ) -> (r: Result<u32, VmError>)
        ensures
            same_setup(*old(self), *final(self)),
            disassembled(
                HandlerClass::DwordOperand,
                vm_handler.instructions@,
                image.image(),
                *old(self),
                *final(self),
                match r {
                    Ok(v) => Ok::<u64, VmError>(v as u64),
                    Err(e) => Err(e),
                },
            ),
    {
        let forwards = self.vip_direction_forwards;
        let encrypted_dword = fetch_dword_vip(image, &mut self.vip_value, forwards)?;
        let encrypted_offset = fetch_dword_vip(image, &mut self.vip_value, forwards)?;
        let operand = self.decrypt_operand_and_offset(vm_handler, 4, encrypted_dword as u64, encrypted_offset)?;
        Ok(operand as u32)
    }

    /// Fetches and decrypts the qword operand and the next-handler offset.
    pub fn disassemble_single_qword_operand(
        &mut self,
        vm_handler: &VmHandler,
        image: &PeImage,
    ) -> (r: Result<u64, VmError>)
        ensures
            same_setup(*old(self), *final(self)),
            disassembled(
                HandlerClass::QwordOperand,
                vm_handler.instructions@,
                image.image(),
                *old(self),
                *final(self),
                match r {
                    Ok(v) => Ok::<u64, VmError>(v),
                    Err(e) => Err(e),
                },
            ),
    {
        let forwards = self.vip_direction_forwards;
        let encrypted_qword = fetch_qword_vip(image, &mut self.vip_value, forwards)?;
        let encrypted_offset = fetch_dword_vip(image, &mut self.vip_value, forwards)?;
        self.decrypt_operand_and_offset(vm_handler, 8, encrypted_qword, encrypted_offset)
    }

    /// Fetches and decrypts the next-handler offset of a handler without
    /// operand.
    pub fn disassemble_no_operand(
        &mut self,
        vm_handler: &VmHandler,
        image: &PeImage,
    ) -> (r: Result<(), VmError>)
        ensures
            same_setup(*old(self), *final(self)),
            disassembled(
                HandlerClass::NoOperand,
                vm_handler.instructions@,
                image.image(),
                *old(self),
                *final(self),
                match r {
                    Ok(v) => Ok::<u64, VmError>(0),
                    Err(e) => Err(e),
                },
            ),
    {
        let forwards = self.vip_direction_forwards;
        let encrypted_offset = fetch_dword_vip(image, &mut self.vip_value, forwards)?;
        self.decrypt_next_handler(vm_handler, false, encrypted_offset)?;
        Ok(())
    }
}

/// The position of the first `lea r64, [... + disp]` with a nonzero
/// displacement: the handler table base.
pub open spec fn table_base_at(s: Seq<Insn>, a: VmRegisterAllocation) -> Option<int> {
    find_after(s, 0, Pattern::LeaWithDisplacement, a)
}

/// The window of the VM entry's own offset pass: from the first
/// `mov r32, [vip ...]` after the table base up to `push key`.
pub open spec fn entry_offset_window(s: Seq<Insn>, a: VmRegisterAllocation) -> Option<(int, int)> {
    match table_base_at(s, a) {
        Some(b) => key_window(s, a, b + 1, Pattern::FetchVip, false, Pattern::PushKey),
        None => None,
    }
}

/// Why a VM entry handler sets up no context, checked in this order: a push
/// or a role that names no distinct general-purpose register, no VIP step,
/// a transform of the initial VIP that is not 32 bits wide.
pub open spec fn entry_error(s: Seq<Insn>) -> Option<VmError> {
    match entry_allocation(s) {
        None => Some(VmError::AmbiguousAllocation),
        Some(a) => if pushes(s.subrange(0, push_order_end(s))) is None {
            Some(VmError::AmbiguousAllocation)
        } else if direction_of(s, a) is None {
            Some(VmError::DirectionUnknown)
        } else if !all_of_width(transforms_in(initial_vip_window(s, a), a.vip.number()), 32) {
            Some(VmError::WidthMismatch)
        } else {
            None
        },
    }
}

/// The VIP, key and handler address after the VM entry handler `s`, for the
/// value `pushed_val` pushed at the call site: the initial VIP (also the
/// initial key) moved past the first 32-bit word, the key XORed with that
/// word's plaintext, and the handler address the table base plus the
/// sign-extended plaintext.
pub open spec fn bootstrap_result(s: Seq<Insn>, image: Seq<u8>, pushed_val: u64) -> Result<
    (u64, u64, u64),
    VmError,
> {
    match entry_error(s) {
        Some(e) => Err(e),
        None => {
            let a = entry_allocation(s)->Some_0;
            let forwards = direction_of(s, a)->Some_0;
            let ts = transforms_in(initial_vip_window(s, a), a.vip.number());
            let initial = (apply_all(ts, truncate(pushed_val, 32)) + VIP_IMAGE_OFFSET) as u64;
            match vip_fetch(image, initial, 4, 4, forwards) {
                None => Err(VmError::OutOfImage),
                Some((b, vip)) => match cipher_pass(
                    s,
                    entry_offset_window(s, a),
                    32,
                    (le_value(b) as u32) as u64,
                    initial,
                ) {
                    Err(e) => Err(e),
                    Ok(p) => Ok(
                        (
                            vip,
                            initial ^ p,
                            s[table_base_at(s, a)->Some_0].memory_displacement.wrapping_add(
                                sign_extend32(p),
                            ),
                        ),
                    ),
                },
            }
        },
    }
}

impl VmContext {
    /// The context a VM entry handler sets up, before its first offset is
    /// decrypted: register roles, push order, VIP direction, and the initial
    /// VIP (also the initial rolling key), which is the decrypted pushed
    /// value plus `VIP_IMAGE_OFFSET`. The handler address is 0 until
    /// `decrypt_entry_offset`.
    pub fn from_entry_handler(
        vm_entry_handler: &VmHandler,
        vm_entry_address: u64,
        pushed_val: u64,
    ) -> (r: Result<VmContext, VmError>)
        ensures
            r matches Ok(ctx) ==> {
                let s = vm_entry_handler.instructions@;
                let a = ctx.register_allocation;
                let ts = transforms_in(initial_vip_window(s, a), a.vip.number());
                &&& ctx.wf()
                &&& entry_allocation(s) == Some(a)
                &&& pushes(s.subrange(0, push_order_end(s))) == Some(ctx.push_order@)
                &&& direction_of(s, a) == Some(ctx.vip_direction_forwards)
                &&& all_of_width(ts, 32)
                &&& ctx.vip_value == apply_all(ts, truncate(pushed_val, 32)) + VIP_IMAGE_OFFSET
                &&& ctx.rolling_key == ctx.vip_value
                &&& ctx.vm_entry_address == vm_entry_address
                &&& ctx.pushed_val == pushed_val
                &&& ctx.handler_address == 0
            },
            r is Ok <==> entry_error(vm_entry_handler.instructions@) is None,
            r matches Err(e) ==> entry_error(vm_entry_handler.instructions@) == Some(e),
    {
        let push_order = vm_entry_handler.get_push_order_vm_entry()?;
        let register_allocation = vm_entry_handler.get_register_allocation_vm_entry()?;
        let forwards = vm_entry_handler.determine_is_forwards(&register_allocation)?;
        let decrypted = vm_entry_handler.get_initial_vip(&register_allocation, pushed_val)?;
        proof {
            let ts = transforms_in(
                initial_vip_window(vm_entry_handler.instructions@, register_allocation),
                register_allocation.vip.number(),
            );
            lemma_apply_keeps_width(ts, truncate(pushed_val, 32), 32);
        }
        let initial_vip = decrypted + VIP_IMAGE_OFFSET;
        Ok(VmContext {
            register_allocation,
            vm_entry_address,
            pushed_val,
            vip_direction_forwards: forwards,
            push_order,
            rolling_key: initial_vip,
            vip_value: initial_vip,
            handler_address: 0,
        })
    }

    /// The VM entry's own offset pass (see `entry_offset_window`): the
    /// handler address becomes the table base plus the sign-extended
    /// decrypted offset. Returns the decrypted offset.
    pub fn decrypt_entry_offset(&mut self, vm_entry_handler: &VmHandler, encrypted_offset: u32) -> (r:
        Result<u64, VmError>)
        ensures
            ({
                let s = vm_entry_handler.instructions@;
                let a = old(self).register_allocation;
                match cipher_pass(
                    s,
                    entry_offset_window(s, a),
                    32,
                    encrypted_offset as u64,
                    old(self).rolling_key,
                ) {
                    Err(e) => r == Err::<u64, VmError>(e),
                    Ok(p) => r == Ok::<u64, VmError>(p) && final(self).rolling_key == old(
                        self,
                    ).rolling_key ^ p && final(self).handler_address == s[table_base_at(
                        s,
                        a,
                    )->Some_0].memory_displacement.wrapping_add(sign_extend32(p)),
                }
            }),
            same_setup(*old(self), *final(self)),
            final(self).vip_value == old(self).vip_value,
    {
        let insns = &vm_entry_handler.instructions;
        let base_at = match find_pattern(insns, 0, Pattern::LeaWithDisplacement, &self.register_allocation) {
            Some(b) => b,
            None => return Err(VmError::PatternNotFound),
        };
        let base = insns[base_at].memory_displacement;
        let n = insns.len();
        assert(base_at < n);
        let window = find_key_window(
            insns,
            &self.register_allocation,
            base_at + 1,
            Pattern::FetchVip,
            false,
            Pattern::PushKey,
        );
        let p = self.run_pass(insns, window, 32, encrypted_offset as u64)?;
        self.handler_address = base.wrapping_add(sign_extend(p));
        Ok(p)
    }

    /// Bootstraps the simulation at the call site `vm_call_address`
    /// (`push imm32; call vm_entry`): reads the VM entry handler and hands it
    /// to `bootstrap`.
    pub fn new(image: &PeImage, vm_call_address: u64) -> (r: Result<VmContext, VmError>)
        ensures
            r matches Ok(ctx) ==> ctx.wf(),
            r matches Ok(ctx) ==> exists|s: Seq<Insn>|
                is_handler_body(s) && entry_allocation(s) == Some(ctx.register_allocation)
                    && #[trigger] bootstrap_result(s, image.image(), ctx.pushed_val) == Ok::<
                    (u64, u64, u64),
                    VmError,
                >((ctx.vip_value, ctx.rolling_key, ctx.handler_address)),
    {
        let (pushed_val, vm_entry_address) = handle_vm_call(image, vm_call_address)?;
        let vm_entry_handler = VmHandler::new(vm_entry_address, image)?;
        VmContext::bootstrap(&vm_entry_handler, image, vm_entry_address, pushed_val)
    }

    /// The context after the VM entry handler: `from_entry_handler`, then
    /// the first 32-bit word fetched at the initial VIP, decrypted by
    /// `decrypt_entry_offset` (see `bootstrap_result`).
    pub fn bootstrap(
        vm_entry_handler: &VmHandler,
        image: &PeImage,
        vm_entry_address: u64,
        pushed_val: u64,
    ) -> (r: Result<VmContext, VmError>)
        ensures
            ({
                let s = vm_entry_handler.instructions@;
                match bootstrap_result(s, image.image(), pushed_val) {
                    Err(e) => r == Err::<VmContext, VmError>(e),
                    Ok((vip, key, address)) => r matches Ok(ctx) && {
                        let a = entry_allocation(s)->Some_0;
                        &&& ctx.wf()
                        &&& ctx.register_allocation == a
                        &&& pushes(s.subrange(0, push_order_end(s))) == Some(ctx.push_order@)
                        &&& direction_of(s, a) == Some(ctx.vip_direction_forwards)
                        &&& ctx.vm_entry_address == vm_entry_address
                        &&& ctx.pushed_val == pushed_val
                        &&& ctx.vip_value == vip
                        &&& ctx.rolling_key == key
                        &&& ctx.handler_address == address
                    },
                }
            }),
    {
        let mut ctx = VmContext::from_entry_handler(vm_entry_handler, vm_entry_address, pushed_val)?;
        let forwards = ctx.vip_direction_forwards;
        let encrypted_offset = fetch_dword_vip(image, &mut ctx.vip_value, forwards)?;
        ctx.decrypt_entry_offset(vm_entry_handler, encrypted_offset)?;
        Ok(ctx)
    }

    /// Interprets one handler that was read at `handler_address`: classifies
    /// it, decrypts its operand and the next handler's address when it has
    /// them, and recognises its virtual instruction. After an
    /// `UnconditionalBranch` or a `NoVipChange` handler the simulation stops
    /// (see `HandlerClass::halts`) and the context stays as it was; the
    /// former yields `Unknown`.
    pub fn interpret(&mut self, vm_handler: &VmHandler, image: &PeImage) -> (r:
        Result<(HandlerClass, HandlerVmInstruction), VmError>)
        requires
            old(self).wf(),
        ensures
            final(self).wf(),
            same_setup(*old(self), *final(self)),
            class_of(vm_handler.instructions@, old(self).register_allocation) is None ==> r == Err::<
                (HandlerClass, HandlerVmInstruction),
                VmError,
            >(VmError::UnknownClass),
            class_of(vm_handler.instructions@, old(self).register_allocation) matches Some(c) ==> {
                let s = vm_handler.instructions@;
                let a = old(self).register_allocation;
                match advance(
                    c,
                    s,
                    a,
                    image.image(),
                    old(self).vip_value,
                    old(self).vip_direction_forwards,
                    old(self).rolling_key,
                    old(self).handler_address,
                ) {
                    Ok((o, k, h, v)) => r == Ok::<(HandlerClass, HandlerVmInstruction), VmError>(
                        (c, instruction_for(s, a, c, o)),
                    ) && final(self).rolling_key == k && final(self).handler_address == h
                        && final(self).vip_value == v,
                    Err(e) => r == Err::<(HandlerClass, HandlerVmInstruction), VmError>(e),
                }
            },
            r matches Ok((c, _)) ==> final(self).vip_value == moved(
                old(self).vip_value,
                class_advance(c),
                old(self).vip_direction_forwards,
            ),
    {
        let class = vm_handler.match_handler_class(&self.register_allocation)?;
        let instruction = match class {
            HandlerClass::UnconditionalBranch => HandlerVmInstruction::Unknown,
            HandlerClass::NoVipChange => vm_handler.match_no_vip_change_instructions(
                &self.register_allocation,
            ),
            HandlerClass::ByteOperand => {
                let operand = self.disassemble_single_byte_operand(vm_handler, image)?;
                vm_handler.match_byte_operand_instructions(&self.register_allocation, operand)
            },
            HandlerClass::WordOperand => {
                let operand = self.disassemble_single_word_operand(vm_handler, image)?;
                vm_handler.match_word_operand_instructions(&self.register_allocation, operand)
            },
            HandlerClass::DwordOperand => {
                let operand = self.disassemble_single_dword_operand(vm_handler, image)?;
                vm_handler.match_dword_operand_instructions(&self.register_allocation, operand)
            },
            HandlerClass::QwordOperand => {
                let operand = self.disassemble_single_qword_operand(vm_handler, image)?;
                vm_handler.match_qword_operand_instructions(&self.register_allocation, operand)
            },
            HandlerClass::NoOperand => {
                self.disassemble_no_operand(vm_handler, image)?;
                vm_handler.match_no_operand_instructions(&self.register_allocation)
            },
        };
        Ok((class, instruction))
    }

    /// Reads the handler at `handler_address` and interprets it (see
    /// `interpret`).
    pub fn step(&mut self, image: &PeImage) -> (r: Result<
        (HandlerClass, HandlerVmInstruction),
        VmError,
    >)
        requires
            old(self).wf(),
        ensures
            final(self).wf(),
            same_setup(*old(self), *final(self)),
            r matches Ok((c, _)) ==> final(self).vip_value == moved(
                old(self).vip_value,
                class_advance(c),
                old(self).vip_direction_forwards,
            ),
    {
        let vm_handler = VmHandler::new(self.handler_address, image)?;
        self.interpret(&vm_handler, image)
    }
}

} // verus!
