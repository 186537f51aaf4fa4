use iced_x86::{Code, Encoder, Instruction, MemoryOperand, Register};
use vm_devirt::error::VmError;
use vm_devirt::image::{handle_vm_call, read_bytes_at_va, PeImage};
use vm_devirt::instruction::Insn;
use vm_devirt::vm_handler::{
    fetch_byte_vip, fetch_dword_vip, fetch_qword_vip, fetch_word_vip, Registers, VmContext, VmHandler,
    VmRegisterAllocation,
};
use vm_devirt::vm_matchers::{HandlerClass, HandlerVmInstruction};
use vm_devirt::code;

const IMAGE_BASE: u64 = 0x1_4000_0000;
const SECTION_RVA: u64 = 0x1000;
const SECTION_VA: u64 = IMAGE_BASE + SECTION_RVA;
const RAW_OFFSET: usize = 0x400;
const SECTION_SIZE: usize = 0x1000;

fn put16(b: &mut [u8], at: usize, v: u16) {
    b[at..at + 2].copy_from_slice(&v.to_le_bytes());
}

fn put32(b: &mut [u8], at: usize, v: u32) {
    b[at..at + 4].copy_from_slice(&v.to_le_bytes());
}

fn put64(b: &mut [u8], at: usize, v: u64) {
    b[at..at + 8].copy_from_slice(&v.to_le_bytes());
}

/// A 64-bit PE file with one section of `SECTION_SIZE` bytes mapped at
/// `SECTION_VA`, holding the given pieces at their offsets in the section.
fn build_image(pieces: &[(usize, Vec<u8>)]) -> Vec<u8> {
    let mut b = vec![0u8; RAW_OFFSET + SECTION_SIZE];
    b[0] = b'M';
    b[1] = b'Z';
    put32(&mut b, 0x3c, 0x80);
    b[0x80..0x84].copy_from_slice(b"PE\0\0");
    put16(&mut b, 0x84, 0x8664);
    put16(&mut b, 0x86, 1);
    put16(&mut b, 0x94, 0xf0);
    put16(&mut b, 0x96, 0x22);
    let opt = 0x98;
    put16(&mut b, opt, 0x20b);
    put64(&mut b, opt + 24, IMAGE_BASE);
    put32(&mut b, opt + 32, 0x1000);
    put32(&mut b, opt + 36, 0x200);
    put32(&mut b, opt + 56, 0x2000);
    put32(&mut b, opt + 60, RAW_OFFSET as u32);
    put32(&mut b, opt + 108, 16);
    let sec = opt + 0xf0;
    b[sec..sec + 5].copy_from_slice(b".text");
    put32(&mut b, sec + 8, SECTION_SIZE as u32);
    put32(&mut b, sec + 12, SECTION_RVA as u32);
    put32(&mut b, sec + 16, SECTION_SIZE as u32);
    put32(&mut b, sec + 20, RAW_OFFSET as u32);
    put32(&mut b, sec + 36, 0x6000_0020);
    for (at, bytes) in pieces {
        b[RAW_OFFSET + at..RAW_OFFSET + at + bytes.len()].copy_from_slice(bytes);
    }
    b
}

/// Encodes `list` one after another, starting at section offset `at`.
fn assemble(at: usize, list: &[Instruction]) -> (usize, Vec<u8>) {
    let mut out = Vec::new();
    let mut encoder = Encoder::new(64);
    for ins in list {
        let rip = SECTION_VA + (at + out.len()) as u64;
        encoder.encode(ins, rip).unwrap();
        out.extend(encoder.take_buffer());
    }
    (at, out)
}

fn with_file<T>(image: &[u8], f: impl FnOnce(&PeImage) -> T) -> T {
    let pe = PeImage::from_bytes(image).unwrap();
    f(&pe)
}

#[test]
fn bytes_are_read_at_virtual_addresses() {
    let image = build_image(&[(0x20, vec![1, 2, 3, 4, 5])]);
    with_file(&image, |pe| {
        assert_eq!(read_bytes_at_va(pe, SECTION_VA + 0x20, 5), Ok(&[1u8, 2, 3, 4, 5][..]));
        assert_eq!(read_bytes_at_va(pe, 0x1000, 4), Err(VmError::OutOfImage));
        assert_eq!(
            read_bytes_at_va(pe, SECTION_VA + SECTION_SIZE as u64 - 2, 4),
            Err(VmError::OutOfImage)
        );
    });
}

#[test]
fn fetches_move_the_vip_in_its_direction() {
    let image = build_image(&[(0x10, vec![0x78, 0x56, 0x34, 0x12, 0xef, 0xbe, 0xad, 0xde])]);
    with_file(&image, |pe| {
        let mut vip = SECTION_VA + 0x10;
        assert_eq!(fetch_dword_vip(pe, &mut vip, true), Ok(0x1234_5678));
        assert_eq!(vip, SECTION_VA + 0x14);
        assert_eq!(fetch_dword_vip(pe, &mut vip, true), Ok(0xdead_beef));
        assert_eq!(vip, SECTION_VA + 0x18);

        let mut vip = SECTION_VA + 0x14;
        assert_eq!(fetch_dword_vip(pe, &mut vip, false), Ok(0x1234_5678));
        assert_eq!(vip, SECTION_VA + 0x10);

        let mut vip = SECTION_VA + 0x18;
        assert_eq!(fetch_qword_vip(pe, &mut vip, false), Ok(0xdead_beef_1234_5678));
        assert_eq!(vip, SECTION_VA + 0x10);

        let mut vip = SECTION_VA + 0x10;
        assert_eq!(fetch_word_vip(pe, &mut vip, true), Ok(0x5678));
        assert_eq!(vip, SECTION_VA + 0x12);
        assert_eq!(fetch_byte_vip(pe, &mut vip, true), Ok(0x34));
        assert_eq!(vip, SECTION_VA + 0x13);
        assert_eq!(fetch_byte_vip(pe, &mut vip, false), Ok(0x34));
        assert_eq!(vip, SECTION_VA + 0x12);
    });
}

#[test]
fn failed_fetches_leave_the_vip() {
    let image = build_image(&[]);
    with_file(&image, |pe| {
        let mut vip = 2u64;
        assert_eq!(fetch_dword_vip(pe, &mut vip, false), Err(VmError::OutOfImage));
        assert_eq!(vip, 2);
        let mut vip = SECTION_VA + SECTION_SIZE as u64 - 1;
        assert_eq!(fetch_byte_vip(pe, &mut vip, true), Err(VmError::OutOfImage));
        assert_eq!(vip, SECTION_VA + SECTION_SIZE as u64 - 1);
        let mut vip = u64::MAX - 1;
        assert_eq!(fetch_dword_vip(pe, &mut vip, true), Err(VmError::OutOfImage));
    });
}

#[test]
fn the_reader_follows_direct_jumps() {
    let first = assemble(0, &[
        Instruction::with2(Code::Mov_r32_rm32, Register::EAX, MemoryOperand::with_base(Register::RSI)).unwrap(),
        Instruction::with_branch(Code::Jmp_rel32_64, SECTION_VA + 0x100).unwrap(),
    ]);
    let second = assemble(0x100, &[
        Instruction::with2(Code::Add_rm64_imm32, Register::RSI, 4i32).unwrap(),
        Instruction::with(Code::Retnq),
    ]);
    let image = build_image(&[first, second]);
    with_file(&image, |pe| {
        let h = VmHandler::new(SECTION_VA, pe).unwrap();
        let codes: Vec<u16> = h.instructions.iter().map(|i| i.code).collect();
        assert_eq!(codes, vec![code::MOV_R32_RM32, code::ADD_RM64_IMM32, code::RETNQ]);
        assert_eq!(h.instructions[1].immediate32, 4);
    });
}

#[test]
fn the_reader_bounds_a_jump_loop() {
    let image = build_image(&[assemble(0, &[Instruction::with_branch(Code::Jmp_rel32_64, SECTION_VA).unwrap()])]);
    with_file(&image, |pe| {
        assert!(matches!(VmHandler::new(SECTION_VA, pe), Err(VmError::HandlerTooLong)));
    });
}

#[test]
fn undecodable_bytes_are_unreadable() {
    let image = build_image(&[(0, vec![0x06; 16])]);
    with_file(&image, |pe| {
        assert!(matches!(VmHandler::new(SECTION_VA, pe), Err(VmError::Unreadable)));
        assert!(matches!(VmHandler::new(0x10, pe), Err(VmError::OutOfImage)));
    });
}

#[test]
fn the_call_site_gives_pushed_value_and_entry() {
    let site = assemble(0x200, &[
        Instruction::with1(Code::Pushq_imm32, -2i32).unwrap(),
        Instruction::with_branch(Code::Call_rel32_64, SECTION_VA + 0x300).unwrap(),
    ]);
    let image = build_image(&[site]);
    with_file(&image, |pe| {
        assert_eq!(handle_vm_call(pe, SECTION_VA + 0x200), Ok((0xffff_ffff_ffff_fffe, SECTION_VA + 0x300)));
        assert_eq!(handle_vm_call(pe, SECTION_VA + 0x205), Err(VmError::BadEntrySite));
    });
}

fn entry_stub() -> Vec<Instruction> {
    vec![
        Instruction::with1(Code::Push_r64, Register::RBX).unwrap(),
        Instruction::with(Code::Pushfq),
        Instruction::with1(Code::Push_r64, Register::R12).unwrap(),
        Instruction::with2(Code::Mov_r64_imm64, Register::RAX, 0u64).unwrap(),
        Instruction::with2(Code::Mov_r64_rm64, Register::RSI, MemoryOperand::with_base_displ(Register::RSP, 0x90)).unwrap(),
        Instruction::with1(Code::Bswap_r32, Register::ESI).unwrap(),
        Instruction::with2(Code::Add_r64_rm64, Register::RSI, Register::RAX).unwrap(),
        Instruction::with2(Code::Mov_r64_rm64, Register::RDI, Register::RSP).unwrap(),
        Instruction::with1(Code::Push_r64, Register::RSI).unwrap(),
        Instruction::with1(Code::Pop_r64, Register::RBP).unwrap(),
        Instruction::with2(Code::Lea_r64_m, Register::RBX, MemoryOperand::with_base_displ(Register::RIP, SECTION_VA as i64)).unwrap(),
        Instruction::with2(Code::Mov_r32_rm32, Register::EAX, MemoryOperand::with_base(Register::RSI)).unwrap(),
        Instruction::with2(Code::Xor_r32_rm32, Register::EAX, Register::EBP).unwrap(),
        Instruction::with2(Code::Add_rm32_imm32, Register::EAX, 0x10u32).unwrap(),
        Instruction::with2(Code::Add_rm64_imm32, Register::RSI, 4i32).unwrap(),
        Instruction::with1(Code::Push_r64, Register::RBP).unwrap(),
        Instruction::with2(Code::Xor_r64_rm64, Register::RBP, Register::RAX).unwrap(),
        Instruction::with2(Code::Add_r64_rm64, Register::RBX, Register::RAX).unwrap(),
        Instruction::with1(Code::Jmp_rm64, Register::RBX).unwrap(),
    ]
}

fn vm_exit_handler() -> Vec<Instruction> {
    let mut list = vec![Instruction::with2(Code::Mov_r64_rm64, Register::RSP, Register::RDI).unwrap()];
    let pops = [
        Register::RAX, Register::RBX, Register::RCX, Register::RDX, Register::RSI,
        Register::RDI, Register::RBP, Register::R8, Register::R9, Register::R10,
        Register::R11, Register::R12, Register::R13, Register::R14, Register::R15,
    ];
    for r in pops {
        list.push(Instruction::with1(Code::Pop_r64, r).unwrap());
    }
    list.push(Instruction::with(Code::Popfq));
    list.push(Instruction::with(Code::Retnq));
    list
}

#[test]
fn entry_analysis_finds_roles_order_direction_and_vip() {
    let entry: Vec<Insn> = entry_stub().iter().map(Insn::from_instruction).collect();
    let h = VmHandler { instructions: entry };
    let ctx = VmContext::from_entry_handler(&h, 0x1234, 0x0018_0040).unwrap();
    assert_eq!(ctx.register_allocation.vip, Registers::Rsi);
    assert_eq!(ctx.register_allocation.vsp, Registers::Rdi);
    assert_eq!(ctx.register_allocation.key, Registers::Rbp);
    assert_eq!(ctx.register_allocation.handler_address, Registers::Rbx);
    assert_eq!(ctx.push_order, vec![Registers::Rbx, Registers::Flags, Registers::R12]);
    assert!(ctx.vip_direction_forwards);
    assert_eq!(ctx.vip_value, 0x1_4000_1800);
    assert_eq!(ctx.rolling_key, 0x1_4000_1800);
    assert_eq!(ctx.vm_entry_address, 0x1234);
    assert_eq!(ctx.pushed_val, 0x0018_0040);
}

#[test]
fn entry_without_distinct_roles_is_ambiguous() {
    let mut list = entry_stub();
    // the VSP now lands in the VIP's register
    list[7] = Instruction::with2(Code::Mov_r64_rm64, Register::RSI, Register::RSP).unwrap();
    let h = VmHandler { instructions: list.iter().map(Insn::from_instruction).collect() };
    assert!(matches!(VmContext::from_entry_handler(&h, 0, 0), Err(VmError::AmbiguousAllocation)));
}

#[test]
fn entry_without_vip_step_has_no_direction() {
    let mut list = entry_stub();
    list.remove(14);
    let h = VmHandler { instructions: list.iter().map(Insn::from_instruction).collect() };
    assert!(matches!(VmContext::from_entry_handler(&h, 0, 0), Err(VmError::DirectionUnknown)));
}

fn nand_handler() -> Vec<Instruction> {
    vec![
        Instruction::with2(Code::Mov_r32_rm32, Register::EAX, MemoryOperand::with_base(Register::RDI)).unwrap(),
        Instruction::with2(Code::Mov_r32_rm32, Register::ECX, MemoryOperand::with_base_displ(Register::RDI, 4)).unwrap(),
        Instruction::with1(Code::Not_rm32, Register::EAX).unwrap(),
        Instruction::with1(Code::Not_rm32, Register::ECX).unwrap(),
        Instruction::with2(Code::Or_r32_rm32, Register::EAX, Register::ECX).unwrap(),
        Instruction::with(Code::Pushfq),
        Instruction::with2(Code::Mov_r32_rm32, Register::R9D, MemoryOperand::with_base(Register::RSI)).unwrap(),
        Instruction::with2(Code::Xor_r32_rm32, Register::R9D, Register::EBP).unwrap(),
        Instruction::with1(Code::Bswap_r32, Register::R9D).unwrap(),
        Instruction::with2(Code::Add_rm64_imm32, Register::RSI, 4i32).unwrap(),
        Instruction::with1(Code::Push_r64, Register::RBP).unwrap(),
        Instruction::with2(Code::Xor_r64_rm64, Register::RBP, Register::R9).unwrap(),
        Instruction::with2(Code::Add_r64_rm64, Register::RBX, Register::R9).unwrap(),
        Instruction::with1(Code::Jmp_rm64, Register::RBX).unwrap(),
    ]
}

#[test]
fn end_to_end_entry_nand_then_vm_exit() {
    let call = Instruction::with_branch(Code::Call_rel32_64, SECTION_VA + 0x300).unwrap();
    let site = assemble(0x200, &[Instruction::with1(Code::Pushq_imm32, 0x0018_0040i32).unwrap(), call]);
    let entry = assemble(0x300, &entry_stub());
    let exit = assemble(0x500, &vm_exit_handler());
    let nand = assemble(0x600, &nand_handler());
    // entry: offset 0x600 after `add eax, 0x10`, under the key 0x1_4000_1800
    let first: u32 = (0x600 - 0x10) ^ 0x4000_1800;
    // nand: offset -0x100 after `bswap`, under the key 0x1_4000_1e00
    let second: u32 = 0x00ff_ffff ^ 0x4000_1e00;
    let mut stream = first.to_le_bytes().to_vec();
    stream.extend(second.to_le_bytes());
    let image = build_image(&[site, entry, exit, nand, (0x800, stream)]);
    with_file(&image, |pe| {
        let mut ctx = VmContext::new(pe, SECTION_VA + 0x200).unwrap();
        assert_eq!(ctx.vm_entry_address, SECTION_VA + 0x300);
        assert_eq!(ctx.pushed_val, 0x0018_0040);
        assert_eq!(ctx.vip_value, 0x1_4000_1804);
        assert_eq!(ctx.handler_address, SECTION_VA + 0x600);
        assert_eq!(ctx.rolling_key, 0x1_4000_1e00);
        let roles = ctx.register_allocation;
        let all = [roles.vip, roles.vsp, roles.key, roles.handler_address];
        for i in 0..4 {
            for j in i + 1..4 {
                assert_ne!(all[i], all[j]);
            }
        }

        let (class, instruction) = ctx.step(pe).unwrap();
        assert_eq!(class, HandlerClass::NoOperand);
        assert_eq!(instruction, HandlerVmInstruction::Nand(4));
        assert!(!class.halts());
        assert_eq!(ctx.vip_value, 0x1_4000_1808);
        assert_eq!(ctx.rolling_key, 0x1_4000_1e00 ^ 0xffff_ff00);
        assert_eq!(ctx.handler_address, SECTION_VA + 0x500);
        assert_eq!(ctx.register_allocation, roles);

        let (class, instruction) = ctx.step(pe).unwrap();
        assert_eq!(class, HandlerClass::NoVipChange);
        assert_eq!(instruction, HandlerVmInstruction::VmExit);
        assert!(class.halts());
        assert_eq!(ctx.vip_value, 0x1_4000_1808);
    });
}

#[test]
fn decoder_numbers_match_the_constants() {
    assert_eq!(Code::Mov_r64_rm64 as u16, code::MOV_R64_RM64);
    assert_eq!(Code::Pushfq as u16, code::PUSHFQ);
    assert_eq!(Code::Retnq as u16, code::RETNQ);
    assert_eq!(Code::Xor_r32_rm32 as u16, code::XOR_R32_RM32);
    assert_eq!(Code::Movzx_r16_rm16 as u16, code::MOVZX_R16_RM16);
    assert_eq!(Code::Bswap_r64 as u16, code::BSWAP_R64);
    assert_eq!(Code::Ror_rm64_1 as u16, code::ROR_RM64_1);
    assert_eq!(Code::Dec_rm64 as u16, code::DEC_RM64);
    assert_eq!(Code::Lea_r64_m as u16, code::LEA_R64_M);
    assert_eq!(Code::Jmp_rel32_64 as u16, code::JMP_REL32_64);
    assert_eq!(Register::RSP as u8, vm_devirt::instruction::REG_RSP);
    assert_eq!(Register::R15 as u8, vm_devirt::instruction::REG_R15);
    assert_eq!(Registers::R12.register(), Register::R12 as u8);
    assert_eq!(Registers::from_register(Register::RBP as u8), Some(Registers::Rbp));
    assert_eq!(Registers::from_register(Register::EBP as u8), None);
}

#[test]
fn backwards_dword_handler_reads_below_the_vip() {
    let list = [
        Instruction::with2(Code::Mov_r32_rm32, Register::EAX, MemoryOperand::with_base(Register::RSI)).unwrap(),
        Instruction::with2(Code::Xor_r32_rm32, Register::EAX, Register::EBP).unwrap(),
        Instruction::with2(Code::Add_rm32_imm32, Register::EAX, 1u32).unwrap(),
        Instruction::with1(Code::Push_r64, Register::RBP).unwrap(),
        Instruction::with2(Code::Sub_rm64_imm32, Register::RSI, 4i32).unwrap(),
        Instruction::with2(Code::Sub_rm64_imm32, Register::RDI, 4i32).unwrap(),
        Instruction::with2(Code::Mov_rm32_r32, MemoryOperand::with_base(Register::RDI), Register::EAX).unwrap(),
        Instruction::with2(Code::Mov_r32_rm32, Register::R9D, MemoryOperand::with_base(Register::RSI)).unwrap(),
        Instruction::with2(Code::Xor_r32_rm32, Register::R9D, Register::EBP).unwrap(),
        Instruction::with1(Code::Bswap_r32, Register::R9D).unwrap(),
        Instruction::with1(Code::Push_r64, Register::RBP).unwrap(),
        Instruction::with2(Code::Sub_rm64_imm32, Register::RSI, 4i32).unwrap(),
        Instruction::with(Code::Retnq),
    ];
    let h = VmHandler { instructions: list.iter().map(Insn::from_instruction).collect() };
    let roles = VmRegisterAllocation {
        vip: Registers::Rsi,
        vsp: Registers::Rdi,
        key: Registers::Rbp,
        handler_address: Registers::Rbx,
    };
    assert_eq!(h.match_handler_class(&roles), Ok(HandlerClass::DwordOperand));
    let mut stream = 0x0122_3344u32.to_le_bytes().to_vec();
    stream.extend(0x1122_3343u32.to_le_bytes());
    let image = build_image(&[(0x18, stream)]);
    with_file(&image, |pe| {
        let mut ctx = VmContext {
            register_allocation: roles,
            vm_entry_address: 0,
            pushed_val: 0,
            vip_direction_forwards: false,
            push_order: Vec::new(),
            rolling_key: 0x1_0000_0000,
            vip_value: SECTION_VA + 0x20,
            handler_address: 0x1000,
        };
        let operand = ctx.disassemble_single_dword_operand(&h, pe).unwrap();
        assert_eq!(operand, 0x1122_3344);
        assert_eq!(ctx.vip_value, SECTION_VA + 0x18);
        assert_eq!(ctx.rolling_key, 0x1_0000_0000 ^ 0x1122_3344 ^ 0x10);
        assert_eq!(ctx.handler_address, 0x1010);
        assert_eq!(h.match_dword_operand_instructions(&roles, operand), HandlerVmInstruction::PushImm32(0x1122_3344));
    });
}

#[test]
fn bytes_that_are_no_pe_file_are_refused() {
    let junk = vec![0u8; 0x200];
    assert!(matches!(PeImage::from_bytes(&junk), Err(VmError::OutOfImage)));
}

#[test]
fn bootstrap_without_table_base_reports_the_missing_pattern() {
    let mut list = entry_stub();
    list.remove(10);
    let h = VmHandler { instructions: list.iter().map(Insn::from_instruction).collect() };
    let encrypted: u32 = 0;
    let image = build_image(&[(0x800, encrypted.to_le_bytes().to_vec())]);
    with_file(&image, |pe| {
        assert!(matches!(VmContext::bootstrap(&h, pe, 0, 0x0018_0040), Err(VmError::PatternNotFound)));
    });
}
