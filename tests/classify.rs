use iced_x86::{Code, Instruction, MemoryOperand, Register};
use vm_devirt::error::VmError;
use vm_devirt::instruction::Insn;
use vm_devirt::vm_handler::{Registers, VmContext, VmHandler, VmRegisterAllocation};
use vm_devirt::vm_matchers::{HandlerClass, HandlerVmInstruction};

fn i0(code: Code) -> Insn {
    Insn::from_instruction(&Instruction::with(code))
}

fn i1(code: Code, r: Register) -> Insn {
    Insn::from_instruction(&Instruction::with1(code, r).unwrap())
}

fn rr(code: Code, a: Register, b: Register) -> Insn {
    Insn::from_instruction(&Instruction::with2(code, a, b).unwrap())
}

fn ri(code: Code, a: Register, imm: u32) -> Insn {
    Insn::from_instruction(&Instruction::with2(code, a, imm).unwrap())
}

fn rm(code: Code, a: Register, base: Register, displ: i64) -> Insn {
    Insn::from_instruction(&Instruction::with2(code, a, MemoryOperand::with_base_displ(base, displ)).unwrap())
}

fn mr(code: Code, base: Register, displ: i64, b: Register) -> Insn {
    Insn::from_instruction(&Instruction::with2(code, MemoryOperand::with_base_displ(base, displ), b).unwrap())
}

/// vip = rsi, vsp = rdi, key = rbp, handler = rbx.
fn roles() -> VmRegisterAllocation {
    VmRegisterAllocation {
        vip: Registers::Rsi,
        vsp: Registers::Rdi,
        key: Registers::Rbp,
        handler_address: Registers::Rbx,
    }
}

fn handler(instructions: Vec<Insn>) -> VmHandler {
    VmHandler { instructions }
}

fn context(key: u64, handler_address: u64) -> VmContext {
    VmContext {
        register_allocation: roles(),
        vm_entry_address: 0x1000,
        pushed_val: 0,
        vip_direction_forwards: true,
        push_order: Vec::new(),
        rolling_key: key,
        vip_value: 0x2000,
        handler_address,
    }
}

/// The next-handler tail shared by the handlers below.
fn offset_tail(out: &mut Vec<Insn>) {
    out.push(rm(Code::Mov_r32_rm32, Register::R9D, Register::RSI, 0));
    out.push(rr(Code::Xor_r32_rm32, Register::R9D, Register::EBP));
    out.push(i1(Code::Bswap_r32, Register::R9D));
    out.push(rr(Code::Add_r64_rm64, Register::R9, Register::RBX));
    out.push(i1(Code::Push_r64, Register::R9));
    out.push(ri(Code::Add_rm64_imm32, Register::RSI, 4));
    out.push(i0(Code::Retnq));
}

#[test]
fn minimal_no_operand_handler() {
    let mut body = Vec::new();
    offset_tail(&mut body);
    let h = handler(body);
    assert_eq!(h.match_handler_class(&roles()), Ok(HandlerClass::NoOperand));

    let mut ctx = context(0x1234_5678, 0x14000_1000);
    assert_eq!(ctx.decrypt_next_handler(&h, false, 0x1234_5678), Ok(0));
    assert_eq!(ctx.handler_address, 0x14000_1000);
    assert_eq!(ctx.rolling_key, 0x1234_5678);

    let mut ctx = context(0x1234_5678, 0x14000_1000);
    assert_eq!(ctx.decrypt_next_handler(&h, false, 0), Ok(0x7856_3412));
    assert_eq!(ctx.handler_address, 0x14000_1000 + 0x7856_3412);
    assert_eq!(ctx.rolling_key, 0x1234_5678 ^ 0x7856_3412);
}

#[test]
fn negative_offsets_are_sign_extended() {
    let mut body = Vec::new();
    offset_tail(&mut body);
    let h = handler(body);
    let mut ctx = context(0, 0x14000_1000);
    // bswap gives 0xfffffff0, i.e. -16
    assert_eq!(ctx.decrypt_next_handler(&h, false, 0xf0ff_ffff), Ok(0xffff_fff0));
    assert_eq!(ctx.handler_address, 0x14000_0ff0);
}

fn byte_pop_handler() -> VmHandler {
    let mut body = vec![
        rm(Code::Movzx_r32_rm8, Register::EAX, Register::RSI, 0),
        rr(Code::Xor_r8_rm8, Register::AL, Register::BPL),
        ri(Code::Add_rm8_imm8, Register::AL, 3),
        rr(Code::Xor_r8_rm8, Register::BPL, Register::AL),
        ri(Code::Add_rm64_imm32, Register::RSI, 1),
        rm(Code::Mov_r64_rm64, Register::RDX, Register::RDI, 0),
        ri(Code::Add_rm64_imm32, Register::RDI, 8),
        mr(Code::Mov_rm64_r64, Register::RSP, 0, Register::RDX),
    ];
    offset_tail(&mut body);
    handler(body)
}

#[test]
fn byte_operand_pop() {
    let h = byte_pop_handler();
    assert_eq!(h.match_handler_class(&roles()), Ok(HandlerClass::ByteOperand));
    let key = 0x55u64;
    let mut ctx = context(key, 0x14000_0000);
    let operand = ctx.decrypt_operand_and_offset(&h, 1, 4 ^ key, 0).unwrap();
    assert_eq!(operand, 7);
    assert_eq!(h.match_byte_operand_instructions(&roles(), operand as u8), HandlerVmInstruction::Pop(8, 7));
}

#[test]
fn qword_operand_push_imm64() {
    let mut body = vec![
        rm(Code::Mov_r64_rm64, Register::RAX, Register::RSI, 0),
        rr(Code::Xor_r64_rm64, Register::RAX, Register::RBP),
        rr(Code::Xor_r64_rm64, Register::RBP, Register::RAX),
        ri(Code::Add_rm64_imm32, Register::RSI, 8),
        ri(Code::Sub_rm64_imm32, Register::RDI, 8),
        mr(Code::Mov_rm64_r64, Register::RDI, 0, Register::RAX),
    ];
    offset_tail(&mut body);
    let h = handler(body);
    assert_eq!(h.match_handler_class(&roles()), Ok(HandlerClass::QwordOperand));
    let key = 0x0123_4567_89ab_cdefu64;
    let mut ctx = context(key, 0);
    let operand = ctx.decrypt_operand_and_offset(&h, 8, 0xCAFE_BABE_DEAD_BEEF ^ key, 0).unwrap();
    assert_eq!(operand, 0xCAFE_BABE_DEAD_BEEF);
    assert_eq!(
        h.match_qword_operand_instructions(&roles(), operand),
        HandlerVmInstruction::PushImm64(0xCAFE_BABE_DEAD_BEEF)
    );
}

#[test]
fn operand_and_offset_both_move_the_key() {
    let h = byte_pop_handler();
    let key = 0x1_0000_0055u64;
    let mut ctx = context(key, 0x100);
    let operand = ctx.decrypt_operand_and_offset(&h, 1, 4 ^ 0x55, 0).unwrap();
    assert_eq!(operand, 7);
    let key_after_operand = key ^ 7;
    // offset pass: x = 0 ^ low32(key) = 0x00000052, bswap = 0x52000000
    let offset = 0x5200_0000u64;
    assert_eq!(ctx.rolling_key, key_after_operand ^ offset);
    assert_eq!(ctx.handler_address, 0x100 + offset);
}

#[test]
fn no_operand_nand32() {
    let mut body = vec![
        rm(Code::Mov_r32_rm32, Register::EAX, Register::RDI, 0),
        rm(Code::Mov_r32_rm32, Register::ECX, Register::RDI, 4),
        i1(Code::Not_rm32, Register::EAX),
        i1(Code::Not_rm32, Register::ECX),
        rr(Code::Or_r32_rm32, Register::EAX, Register::ECX),
        i0(Code::Pushfq),
    ];
    offset_tail(&mut body);
    let h = handler(body);
    assert_eq!(h.match_handler_class(&roles()), Ok(HandlerClass::NoOperand));
    assert_eq!(h.match_no_operand_instructions(&roles()), HandlerVmInstruction::Nand(4));
}

#[test]
fn no_operand_nor64_add64_and_fetch() {
    let nor = handler(vec![
        rm(Code::Mov_r64_rm64, Register::RAX, Register::RDI, 0),
        rm(Code::Mov_r64_rm64, Register::RCX, Register::RDI, 8),
        i1(Code::Not_rm64, Register::RAX),
        i1(Code::Not_rm64, Register::RCX),
        rr(Code::And_r64_rm64, Register::RAX, Register::RCX),
        i0(Code::Pushfq),
        i0(Code::Retnq),
    ]);
    assert_eq!(nor.match_no_operand_instructions(&roles()), HandlerVmInstruction::Nor(8));

    let add = handler(vec![
        rm(Code::Mov_r64_rm64, Register::RAX, Register::RDI, 0),
        rm(Code::Mov_r64_rm64, Register::RCX, Register::RDI, 8),
        rr(Code::Add_rm64_r64, Register::RCX, Register::RAX),
        i0(Code::Pushfq),
        i0(Code::Retnq),
    ]);
    assert_eq!(add.match_no_operand_instructions(&roles()), HandlerVmInstruction::Add(8));

    let fetch = handler(vec![
        rm(Code::Mov_r64_rm64, Register::RAX, Register::RDI, 0),
        rm(Code::Mov_r32_rm32, Register::EDX, Register::RAX, 0),
        mr(Code::Mov_rm32_r32, Register::RDI, 0, Register::EDX),
        i0(Code::Retnq),
    ]);
    assert_eq!(fetch.match_no_operand_instructions(&roles()), HandlerVmInstruction::Fetch(4));

    let store = handler(vec![
        rm(Code::Mov_r64_rm64, Register::RAX, Register::RDI, 0),
        rm(Code::Mov_r16_rm16, Register::DX, Register::RDI, 8),
        ri(Code::Add_rm64_imm32, Register::RDI, 0x10),
        mr(Code::Mov_rm16_r16, Register::RAX, 0, Register::DX),
        i0(Code::Retnq),
    ]);
    assert_eq!(store.match_no_operand_instructions(&roles()), HandlerVmInstruction::Store(2));

    let push_vsp = handler(vec![
        rr(Code::Mov_r64_rm64, Register::RAX, Register::RDI),
        ri(Code::Sub_rm64_imm32, Register::RDI, 8),
        mr(Code::Mov_rm64_r64, Register::RDI, 0, Register::RAX),
        i0(Code::Retnq),
    ]);
    assert_eq!(push_vsp.match_no_operand_instructions(&roles()), HandlerVmInstruction::PushVsp(8));

    let unknown = handler(vec![i0(Code::Retnq)]);
    assert_eq!(unknown.match_no_operand_instructions(&roles()), HandlerVmInstruction::UnknownNoOperand);
}

#[test]
fn no_vip_change_vm_exit() {
    let mut body = vec![rr(Code::Mov_r64_rm64, Register::RSP, Register::RDI)];
    let pops = [
        Register::RAX, Register::RBX, Register::RCX, Register::RDX, Register::RSI,
        Register::RDI, Register::RBP, Register::R8, Register::R9, Register::R10,
        Register::R11, Register::R12, Register::R13, Register::R14, Register::R15,
    ];
    for r in pops {
        body.push(i1(Code::Pop_r64, r));
    }
    body.push(i0(Code::Popfq));
    body.push(i0(Code::Retnq));
    let h = handler(body);
    let class = h.match_handler_class(&roles()).unwrap();
    assert_eq!(class, HandlerClass::NoVipChange);
    assert!(class.halts());
    assert_eq!(h.match_no_vip_change_instructions(&roles()), HandlerVmInstruction::VmExit);
}

#[test]
fn fourteen_pops_are_no_vm_exit() {
    let mut body = vec![rr(Code::Mov_r64_rm64, Register::RSP, Register::RDI)];
    for _ in 0..14 {
        body.push(i1(Code::Pop_r64, Register::RAX));
    }
    body.push(i0(Code::Popfq));
    body.push(i0(Code::Retnq));
    let h = handler(body);
    assert_eq!(h.match_no_vip_change_instructions(&roles()), HandlerVmInstruction::UnknownNoVipChange);
}

#[test]
fn vip_reloaded_from_the_stack_is_a_branch() {
    let a = VmRegisterAllocation { vip: Registers::R12, ..roles() };
    let h = handler(vec![
        rm(Code::Mov_r64_rm64, Register::R12, Register::RDI, 0),
        ri(Code::Add_rm64_imm32, Register::RDI, 8),
        i0(Code::Retnq),
    ]);
    let class = h.match_handler_class(&a).unwrap();
    assert_eq!(class, HandlerClass::UnconditionalBranch);
    assert!(class.halts());
}

#[test]
fn one_vip_reload_into_rsi_is_not_a_branch() {
    let h = handler(vec![
        rm(Code::Mov_r64_rm64, Register::RSI, Register::RDI, 0),
        ri(Code::Add_rm64_imm32, Register::RSI, 4),
        i0(Code::Retnq),
    ]);
    assert_eq!(h.match_handler_class(&roles()), Ok(HandlerClass::NoOperand));
    let h2 = handler(vec![
        rm(Code::Mov_r64_rm64, Register::RSI, Register::RDI, 0),
        rm(Code::Mov_r64_rm64, Register::RSI, Register::RSI, 0),
        i0(Code::Retnq),
    ]);
    assert_eq!(h2.match_handler_class(&roles()), Ok(HandlerClass::UnconditionalBranch));
}

#[test]
fn no_vip_updates_is_no_vip_change() {
    let h = handler(vec![
        mr(Code::Mov_rm64_r64, Register::RDI, 0, Register::RAX),
        i0(Code::Pushfq),
        i0(Code::Retnq),
    ]);
    assert_eq!(h.match_handler_class(&roles()), Ok(HandlerClass::NoVipChange));
}

#[test]
fn two_adds_of_four_are_a_dword_operand() {
    let h = handler(vec![
        ri(Code::Add_rm64_imm32, Register::RSI, 4),
        ri(Code::Sub_rm64_imm32, Register::RDI, 4),
        mr(Code::Mov_rm32_r32, Register::RDI, 0, Register::EAX),
        ri(Code::Add_rm64_imm32, Register::RSI, 4),
        i0(Code::Retnq),
    ]);
    assert_eq!(h.match_handler_class(&roles()), Ok(HandlerClass::DwordOperand));
    assert_eq!(h.match_dword_operand_instructions(&roles(), 9), HandlerVmInstruction::PushImm32(9));
    assert_eq!(h.match_word_operand_instructions(&roles(), 9), HandlerVmInstruction::UnknownWordOperand);
}

#[test]
fn unmatched_vip_updates_are_an_unknown_class() {
    let h = handler(vec![ri(Code::Add_rm64_imm32, Register::RSI, 3), i0(Code::Retnq)]);
    assert_eq!(h.match_handler_class(&roles()), Err(VmError::UnknownClass));
    let h = handler(vec![
        ri(Code::Add_rm64_imm32, Register::RSI, 4),
        ri(Code::Add_rm64_imm32, Register::RSI, 1),
        i0(Code::Retnq),
    ]);
    assert_eq!(h.match_handler_class(&roles()), Err(VmError::UnknownClass));
}

#[test]
fn word_operand_push_imm16_and_byte_push() {
    let h = handler(vec![
        ri(Code::Sub_rm64_imm32, Register::RDI, 2),
        mr(Code::Mov_rm16_r16, Register::RDI, 0, Register::AX),
        i0(Code::Retnq),
    ]);
    assert_eq!(h.match_word_operand_instructions(&roles(), 0xbeef), HandlerVmInstruction::PushImm16(0xbeef));

    let push = handler(vec![
        rm(Code::Mov_r64_rm64, Register::RAX, Register::RSP, 0),
        ri(Code::Sub_rm64_imm32, Register::RDI, 8),
        mr(Code::Mov_rm64_r64, Register::RDI, 0, Register::RAX),
        i0(Code::Retnq),
    ]);
    assert_eq!(push.match_byte_operand_instructions(&roles(), 3), HandlerVmInstruction::Push(8, 3));
}

#[test]
fn missing_operand_pattern_is_reported() {
    let h = handler(vec![ri(Code::Add_rm64_imm32, Register::RSI, 4), i0(Code::Retnq)]);
    let mut ctx = context(1, 2);
    assert_eq!(ctx.decrypt_next_handler(&h, false, 0), Err(VmError::PatternNotFound));
    assert_eq!(ctx.rolling_key, 1);
    assert_eq!(ctx.handler_address, 2);
}

#[test]
fn push_vsp_wins_over_add() {
    let h = handler(vec![
        rr(Code::Mov_r64_rm64, Register::RAX, Register::RDI),
        ri(Code::Sub_rm64_imm32, Register::RDI, 8),
        mr(Code::Mov_rm64_r64, Register::RDI, 0, Register::RAX),
        rm(Code::Mov_r64_rm64, Register::RAX, Register::RDI, 0),
        rm(Code::Mov_r64_rm64, Register::RCX, Register::RDI, 8),
        rr(Code::Add_r64_rm64, Register::RAX, Register::RCX),
        i0(Code::Pushfq),
        i0(Code::Retnq),
    ]);
    assert_eq!(h.match_no_operand_instructions(&roles()), HandlerVmInstruction::PushVsp(8));
}

#[test]
fn pop_vsp_wins_over_add() {
    let h = handler(vec![
        rm(Code::Mov_r64_rm64, Register::RDI, Register::RDI, 0),
        rm(Code::Mov_r64_rm64, Register::RCX, Register::RDI, 8),
        rr(Code::Add_r64_rm64, Register::RDI, Register::RCX),
        i0(Code::Pushfq),
        i0(Code::Retnq),
    ]);
    assert_eq!(h.match_no_operand_instructions(&roles()), HandlerVmInstruction::PopVsp(8));
}
