//! Opcode numbers of the decoder (`iced_x86::Code` discriminants) that the
//! analysis recognises.
use vstd::prelude::*;

verus! {

pub const INVALID: u16 = 0;
pub const PUSHFQ: u16 = 317;
pub const POPFQ: u16 = 320;
pub const RETNQ: u16 = 396;
pub const NOT_RM8: u16 = 713;
pub const NOT_RM16: u16 = 725;
pub const NOT_RM32: u16 = 726;
pub const NOT_RM64: u16 = 727;
pub const MOV_R64_RM64: u16 = 286;
pub const MOV_R32_RM32: u16 = 285;
pub const MOV_R16_RM16: u16 = 284;
pub const MOV_R8_RM8: u16 = 283;
pub const MOV_RM64_R64: u16 = 282;
pub const MOV_RM32_R32: u16 = 281;
pub const MOV_RM16_R16: u16 = 280;
pub const MOV_RM8_R8: u16 = 279;
pub const SHR_RM8_CL: u16 = 463;
pub const SHR_RM16_CL: u16 = 481;
pub const SHR_RM32_CL: u16 = 482;
pub const SHR_RM64_CL: u16 = 483;
pub const OR_RM8_R8: u16 = 21;
pub const OR_RM16_R16: u16 = 22;
pub const OR_RM32_R32: u16 = 23;
pub const OR_RM64_R64: u16 = 24;
pub const OR_R8_RM8: u16 = 25;
pub const OR_R16_RM16: u16 = 26;
pub const OR_R32_RM32: u16 = 27;
pub const OR_R64_RM64: u16 = 28;
pub const AND_RM8_R8: u16 = 68;
pub const AND_RM16_R16: u16 = 69;
pub const AND_RM32_R32: u16 = 70;
pub const AND_RM64_R64: u16 = 71;
pub const AND_R8_RM8: u16 = 72;
pub const AND_R16_RM16: u16 = 73;
pub const AND_R32_RM32: u16 = 74;
pub const AND_R64_RM64: u16 = 75;
pub const ADD_RM8_R8: u16 = 5;
pub const ADD_RM16_R16: u16 = 6;
pub const ADD_RM32_R32: u16 = 7;
pub const ADD_RM64_R64: u16 = 8;
pub const ADD_R8_RM8: u16 = 9;
pub const ADD_R16_RM16: u16 = 10;
pub const ADD_R32_RM32: u16 = 11;
pub const ADD_R64_RM64: u16 = 12;
pub const MOVZX_R64_RM8: u16 = 2091;
pub const MOVZX_R64_RM16: u16 = 2094;
pub const MOVZX_R32_RM8: u16 = 2090;
pub const MOVZX_R32_RM16: u16 = 2093;
pub const MOVZX_R16_RM8: u16 = 2089;
pub const MOVZX_R16_RM16: u16 = 2092;
pub const PUSH_R64: u16 = 126;
pub const POP_R64: u16 = 129;
pub const PUSHQ_IMM32: u16 = 143;
pub const CALL_REL32_64: u16 = 693;
pub const JMP_RM64: u16 = 765;
pub const JMP_REL32_64: u16 = 696;
pub const MOV_R64_IMM64: u16 = 358;
pub const LEA_R64_M: u16 = 292;
pub const ADD_RM64_IMM32: u16 = 217;
pub const SUB_RM64_IMM32: u16 = 232;
pub const XOR_R64_RM64: u16 = 101;
pub const XOR_R32_RM32: u16 = 100;
pub const XOR_R16_RM16: u16 = 99;
pub const XOR_R8_RM8: u16 = 98;
pub const BSWAP_R16: u16 = 2208;
pub const BSWAP_R32: u16 = 2209;
pub const BSWAP_R64: u16 = 2210;
pub const SUB_AL_IMM8: u16 = 89;
pub const SUB_RM8_IMM8: u16 = 212;
pub const SUB_AX_IMM16: u16 = 90;
pub const SUB_RM16_IMM16: u16 = 230;
pub const SUB_EAX_IMM32: u16 = 91;
pub const SUB_RM32_IMM32: u16 = 231;
pub const SUB_RAX_IMM32: u16 = 92;
pub const ADD_AL_IMM8: u16 = 13;
pub const ADD_RM8_IMM8: u16 = 207;
pub const ADD_AX_IMM16: u16 = 14;
pub const ADD_RM16_IMM16: u16 = 215;
pub const ADD_EAX_IMM32: u16 = 15;
pub const ADD_RM32_IMM32: u16 = 216;
pub const ADD_RAX_IMM32: u16 = 16;
pub const XOR_AL_IMM8: u16 = 102;
pub const XOR_RM8_IMM8: u16 = 213;
pub const XOR_AX_IMM16: u16 = 103;
pub const XOR_RM16_IMM16: u16 = 233;
pub const XOR_EAX_IMM32: u16 = 104;
pub const XOR_RM32_IMM32: u16 = 234;
pub const XOR_RAX_IMM32: u16 = 105;
pub const XOR_RM64_IMM32: u16 = 235;
pub const NEG_RM8: u16 = 714;
pub const NEG_RM16: u16 = 728;
pub const NEG_RM32: u16 = 729;
pub const NEG_RM64: u16 = 730;
pub const ROL_RM8_IMM8: u16 = 359;
pub const ROL_RM16_IMM8: u16 = 367;
pub const ROL_RM32_IMM8: u16 = 368;
pub const ROL_RM64_IMM8: u16 = 369;
pub const ROR_RM8_IMM8: u16 = 360;
pub const ROR_RM16_IMM8: u16 = 370;
pub const ROR_RM32_IMM8: u16 = 371;
pub const ROR_RM64_IMM8: u16 = 372;
pub const ROL_RM8_1: u16 = 426;
pub const ROL_RM16_1: u16 = 434;
pub const ROL_RM32_1: u16 = 435;
pub const ROL_RM64_1: u16 = 436;
pub const ROR_RM8_1: u16 = 427;
pub const ROR_RM16_1: u16 = 437;
pub const ROR_RM32_1: u16 = 438;
pub const ROR_RM64_1: u16 = 439;
pub const INC_RM8: u16 = 749;
pub const INC_RM16: u16 = 751;
pub const INC_RM32: u16 = 752;
pub const INC_RM64: u16 = 753;
pub const DEC_RM8: u16 = 750;
pub const DEC_RM16: u16 = 754;
pub const DEC_RM32: u16 = 755;
pub const DEC_RM64: u16 = 756;

} // verus!
