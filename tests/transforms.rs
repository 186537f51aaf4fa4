use iced_x86::{Code, Instruction, Register};
use vm_devirt::error::VmError;
use vm_devirt::instruction::Insn;
use vm_devirt::transforms::{
    emulate_encryption, emulate_value, get_transform_for_instruction, EmulateEncryption,
    EmulateTransform, Transform,
};

fn insn(i: Instruction) -> Insn {
    Insn::from_instruction(&i)
}

fn reg(r: Register) -> u8 {
    r as u8
}

#[test]
fn transform_sizes_follow_their_width() {
    assert_eq!(Transform::ByteSwap16.get_size(), 16);
    assert_eq!(Transform::AddConstant8(3).get_size(), 8);
    assert_eq!(Transform::RotateRight32(5).get_size(), 32);
    assert_eq!(Transform::XorConstant64(1).get_size(), 64);
    assert_eq!(Transform::Decrement16.get_size(), 16);
}

#[test]
fn byte_swaps_reverse_bytes() {
    assert_eq!(emulate_value(Transform::ByteSwap16, 0x1234), 0x3412);
    assert_eq!(emulate_value(Transform::ByteSwap32, 0x1234_5678), 0x7856_3412);
    assert_eq!(emulate_value(Transform::ByteSwap64, 0x0102_0304_0506_0708), 0x0807_0605_0403_0201);
}

#[test]
fn arithmetic_wraps_at_the_width() {
    assert_eq!(emulate_value(Transform::AddConstant8(0xf0), 0x20), 0x10);
    assert_eq!(emulate_value(Transform::SubtractConstant16(2), 1), 0xffff);
    assert_eq!(emulate_value(Transform::Negate8, 1), 0xff);
    assert_eq!(emulate_value(Transform::Negate32, 0), 0);
    assert_eq!(emulate_value(Transform::Not16, 0x00ff), 0xff00);
    assert_eq!(emulate_value(Transform::Increment64, u64::MAX), 0);
    assert_eq!(emulate_value(Transform::Decrement32, 0), 0xffff_ffff);
    assert_eq!(emulate_value(Transform::XorConstant32(0xffff_0000), 0x1234_5678), 0xedcb_5678);
}

#[test]
fn high_bits_above_the_width_are_ignored() {
    assert_eq!(emulate_value(Transform::Not8, 0xab00), 0xff);
    assert_eq!(emulate_value(Transform::Increment16, 0x1_ffff), 0);
    assert_eq!(emulate_value(Transform::AddConstant32(1), 0xffff_ffff_0000_0001), 2);
}

#[test]
fn full_width_rotations_are_identity() {
    assert_eq!(emulate_value(Transform::RotateLeft64(64), 0x8000_0000_0000_0001), 0x8000_0000_0000_0001);
    assert_eq!(emulate_value(Transform::RotateLeft8(8), 0x81), 0x81);
    assert_eq!(emulate_value(Transform::RotateLeft32(36), 0x8000_0001), emulate_value(Transform::RotateLeft32(4), 0x8000_0001));
    assert_eq!(emulate_value(Transform::RotateLeft32(4), 0x8000_0001), 0x0000_0018);
    assert_eq!(emulate_value(Transform::RotateRight16(1), 0x0001), 0x8000);
    assert_eq!(emulate_value(Transform::RotateLeft8(1), 0x81), 0x03);
}

#[test]
fn each_transform_is_undone_by_its_inverse() {
    let pairs = [
        (Transform::AddConstant32(0x1234), Transform::SubtractConstant32(0x1234)),
        (Transform::RotateLeft64(13), Transform::RotateRight64(13)),
        (Transform::RotateRight8(3), Transform::RotateLeft8(3)),
        (Transform::Increment16, Transform::Decrement16),
        (Transform::Negate64, Transform::Negate64),
        (Transform::Not32, Transform::Not32),
        (Transform::ByteSwap64, Transform::ByteSwap64),
        (Transform::XorConstant8(0x5a), Transform::XorConstant8(0x5a)),
    ];
    for (t, inv) in pairs {
        let mask = if t.get_size() == 64 { u64::MAX } else { (1u64 << t.get_size()) - 1 };
        for x in [0u64, 1, 0x7f, 0xdead_beef_cafe_f00d] {
            let x = x & mask;
            assert_eq!(emulate_value(inv, emulate_value(t, x)), x);
        }
    }
}

#[test]
fn trait_emulates_at_the_native_width() {
    assert_eq!(0x12u8.emulate_transform(Transform::AddConstant8(0xf0)), 0x02);
    assert_eq!(0x1234u16.emulate_transform(Transform::ByteSwap16), 0x3412);
    assert_eq!(1u32.emulate_transform(Transform::RotateRight32(1)), 0x8000_0000);
    assert_eq!(5u64.emulate_transform(Transform::Decrement64), 4);
}

#[test]
fn instructions_map_to_transforms() {
    let add = insn(Instruction::with2(Code::Add_rm32_imm32, Register::EAX, 5u32).unwrap());
    assert_eq!(get_transform_for_instruction(&add), Some(Transform::AddConstant32(5)));
    let rol = insn(Instruction::with2(Code::Rol_rm8_1, Register::AL, 1u32).unwrap());
    assert_eq!(get_transform_for_instruction(&rol), Some(Transform::RotateLeft8(1)));
    let ror = insn(Instruction::with2(Code::Ror_rm64_imm8, Register::RAX, 9u32).unwrap());
    assert_eq!(get_transform_for_instruction(&ror), Some(Transform::RotateRight64(9)));
    let bswap = insn(Instruction::with1(Code::Bswap_r32, Register::R9D).unwrap());
    assert_eq!(get_transform_for_instruction(&bswap), Some(Transform::ByteSwap32));
    let xor = insn(Instruction::with2(Code::Xor_rm16_imm16, Register::CX, 0xbeefu32).unwrap());
    assert_eq!(get_transform_for_instruction(&xor), Some(Transform::XorConstant16(0xbeef)));
    let mov = insn(Instruction::with2(Code::Mov_r64_rm64, Register::RAX, Register::RBX).unwrap());
    assert_eq!(get_transform_for_instruction(&mov), None);
}

#[test]
fn one_opcode_gives_one_width() {
    let a = insn(Instruction::with2(Code::Sub_rm16_imm16, Register::AX, 1u32).unwrap());
    let b = insn(Instruction::with2(Code::Sub_rm16_imm16, Register::DX, 0x8000u32).unwrap());
    let ta = get_transform_for_instruction(&a).unwrap();
    let tb = get_transform_for_instruction(&b).unwrap();
    assert_eq!(ta.get_size(), tb.get_size());
    assert_eq!(tb, Transform::SubtractConstant16(0x8000));
}

#[test]
fn encryption_xors_transforms_and_updates_the_key() {
    let window = vec![insn(Instruction::with1(Code::Bswap_r32, Register::R9D).unwrap())];
    let mut key = 0x1234_5678u64;
    let plain = emulate_encryption(32, 0x1234_5678, &window, &mut key, reg(Register::R9D));
    assert_eq!(plain, Ok(0));
    assert_eq!(key, 0x1234_5678);

    let mut key = 0x1234_5678u64;
    let plain = emulate_encryption(32, 0, &window, &mut key, reg(Register::R9D));
    assert_eq!(plain, Ok(0x7856_3412));
    assert_eq!(key, 0x1234_5678 ^ 0x7856_3412);
}

#[test]
fn encryption_skips_instructions_on_other_registers() {
    let window = vec![
        insn(Instruction::with2(Code::Add_rm32_imm32, Register::EAX, 3u32).unwrap()),
        insn(Instruction::with1(Code::Not_rm32, Register::ECX).unwrap()),
        insn(Instruction::with2(Code::Mov_r64_rm64, Register::RAX, Register::RBX).unwrap()),
    ];
    let mut key = 0xffff_ffff_0000_0010u64;
    let plain = emulate_encryption(32, 0x11, &window, &mut key, reg(Register::RAX));
    assert_eq!(plain, Ok(0x04));
    assert_eq!(key, 0xffff_ffff_0000_0014);
}

#[test]
fn encryption_rejects_a_transform_of_another_width() {
    let window = vec![insn(Instruction::with1(Code::Bswap_r64, Register::R9).unwrap())];
    let mut key = 7u64;
    let plain = emulate_encryption(32, 0, &window, &mut key, reg(Register::R9D));
    assert_eq!(plain, Err(VmError::WidthMismatch));
    assert_eq!(key, 7);
}

#[test]
fn encryption_is_inverted_by_reversed_inverse_transforms() {
    let window = vec![
        insn(Instruction::with2(Code::Add_rm32_imm32, Register::EDX, 0x1111u32).unwrap()),
        insn(Instruction::with2(Code::Rol_rm32_imm8, Register::EDX, 3u32).unwrap()),
        insn(Instruction::with1(Code::Neg_rm32, Register::EDX).unwrap()),
    ];
    let key_before = 0x0bad_f00d_1234_5678u64;
    let ciphertext = 0x9abc_def0u64;
    let mut key = key_before;
    let plain = emulate_encryption(32, ciphertext, &window, &mut key, reg(Register::EDX)).unwrap();
    let mut back = plain;
    for t in [Transform::Negate32, Transform::RotateRight32(3), Transform::SubtractConstant32(0x1111)] {
        back = emulate_value(t, back);
    }
    assert_eq!(back, (ciphertext ^ key_before) & 0xffff_ffff);
    assert_eq!(key ^ plain, key_before);
}


#[test]
fn encryption_on_native_widths() {
    let window = vec![insn(Instruction::with1(Code::Bswap_r32, Register::R9D).unwrap())];
    let mut key = 0x1234_5678u64;
    assert_eq!(0u32.emulate_encryption(&window, &mut key, reg(Register::R9D)), Ok(0x7856_3412u32));
    assert_eq!(key, 0x1234_5678 ^ 0x7856_3412);

    let window = vec![insn(Instruction::with2(Code::Add_rm8_imm8, Register::AL, 0x10u32).unwrap())];
    let mut key = 0xffu64;
    assert_eq!(0xf0u8.emulate_encryption(&window, &mut key, reg(Register::AL)), Ok(0x1fu8));
    assert_eq!(key, 0xff ^ 0x1f);
    let mut key = 0u64;
    assert_eq!(0u16.emulate_encryption(&window, &mut key, reg(Register::AL)), Err(VmError::WidthMismatch));
    assert_eq!(key, 0);
}
