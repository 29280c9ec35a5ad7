pub mod components;
pub mod constants;
pub mod instruction_encoders;
pub mod operand_validators;
pub mod utility_functions;

use vstd::prelude::*;
use crate::assembler::encoder::constants as op;
use crate::assembler::encoder::instruction_encoders::arithmetic::{add_sp_spec, reg_imm_spec};
use crate::assembler::encoder::instruction_encoders::bitwise::{bit_abs_spec, bit_reg_spec};
use crate::assembler::encoder::instruction_encoders::control_flow::{far_spec, far_via_spec, rel_jump_spec, syscall_spec};
use crate::assembler::encoder::instruction_encoders::load_store::{
    auto_bytes, indexed_spec, ldib_spec, prefixed_reg_word_spec, reg_opcode_word_spec,
};
use crate::assembler::encoder::instruction_encoders::stack::op_word_spec;
use crate::assembler::encoder::utility_functions::{hi, lo, rd_rs_byte, single_byte};
use crate::assembler::symbol_table::{Symbol, SymbolTable};
use crate::ast::{cc_offset, reg_index, ConditionCode, Instruction, Operand, Register};
use crate::errors::{bytes_match, AssemblyError, ErrDesc};

verus! {

/// Everything the encoding of one instruction depends on.
#[derive(Clone, Copy)]
pub struct Encoder<'a> {
    pub instruction: &'a Instruction,
    pub symbol_table: &'a SymbolTable,
    pub current_address: &'a u32,
    pub current_bank: &'a u32,
    pub line_num: &'a usize,
}

impl<'a> Encoder<'a> {
    pub fn new(
        instruction: &'a Instruction,
        symbol_table: &'a SymbolTable,
        current_address: &'a u32,
        current_bank: &'a u32,
        line_num: &'a usize,
    ) -> (e: Self)
        ensures
            *e.instruction == *instruction,
            *e.symbol_table == *symbol_table,
            *e.current_address == *current_address,
            *e.current_bank == *current_bank,
            *e.line_num == *line_num,
    {
        Self { instruction, symbol_table, current_address, current_bank, line_num }
    }
}

} // verus!

verus! {

/// The size in bytes of an instruction's encoding.
pub open spec fn instruction_size(instruction: Instruction) -> u32 {
    match instruction {
        Instruction::Nop | Instruction::Halt | Instruction::Ret | Instruction::Ccf | Instruction::Scf
        | Instruction::Rcf | Instruction::Enter | Instruction::Leave | Instruction::Reti | Instruction::Ei
        | Instruction::Di => 1,
        Instruction::LdReg(_, _) => 1,
        Instruction::Ldi(_, _) => 3,
        Instruction::LdIndirect(_, _) => 2,
        Instruction::LdAbs(_, _) => 3,
        Instruction::LdIndexed(_, _, _) => 3,
        Instruction::LdPreDec(_, _) => 3,
        Instruction::LdPostInc(_, _) => 3,
        Instruction::StIndirect(_, _) => 2,
        Instruction::StAbs(_, _) => 3,
        Instruction::StIndexed(_, _, _) => 3,
        Instruction::StPreDec(_, _) => 3,
        Instruction::StPostInc(_, _) => 3,
        Instruction::LdiB(_, _) => 3,
        Instruction::LdBIndirect(_, _) => 2,
        Instruction::LdBPreDec(_, _) => 3,
        Instruction::LdBPostInc(_, _) => 3,
        Instruction::LdBAbs(_, _) => 4,
        Instruction::StBIndirect(_, _) => 2,
        Instruction::StBPreDec(_, _) => 3,
        Instruction::StBPostInc(_, _) => 3,
        Instruction::StBAbs(_, _) => 4,
        Instruction::Lea(_, _, _) => 3,
        Instruction::Push(_) => 1,
        Instruction::PushI(_) => 3,
        Instruction::Pop(_) => 1,
        Instruction::PushF => 1,
        Instruction::PopF => 1,
        Instruction::AddAcc(_) | Instruction::SubAcc(_) | Instruction::AndAcc(_) | Instruction::XorAcc(_)
        | Instruction::OrAcc(_) | Instruction::CmpAcc(_) | Instruction::NegAcc | Instruction::NotAcc
        | Instruction::SwapAcc => 1,
        Instruction::AddAccI(_) | Instruction::SubAccI(_) | Instruction::AndAccI(_) | Instruction::OrAccI(_)
        | Instruction::XorAccI(_) | Instruction::CmpAccI(_) | Instruction::AdcAccI(_)
        | Instruction::SbcAccI(_) => 3,
        Instruction::AddReg(_, _) | Instruction::SubReg(_, _) | Instruction::AndReg(_, _) | Instruction::OrReg(_, _)
        | Instruction::XorReg(_, _) | Instruction::CmpReg(_, _) | Instruction::AdcReg(_, _)
        | Instruction::SbcReg(_, _) => 2,
        Instruction::AddIReg(_, _) | Instruction::SubIReg(_, _) | Instruction::AndIReg(_, _)
        | Instruction::OrIReg(_, _) | Instruction::XorIReg(_, _) | Instruction::CmpIReg(_, _) => 4,
        Instruction::AddSp(_) => 2,
        Instruction::Inc(_) | Instruction::Dec(_) => 1,
        Instruction::AddBAcc(_) | Instruction::SubBAcc(_) | Instruction::AndBAcc(_) | Instruction::OrBAcc(_)
        | Instruction::XorBAcc(_) | Instruction::CmpBAcc(_) => 2,
        Instruction::Sra(_) | Instruction::Shl(_) | Instruction::Shr(_) | Instruction::Rol(_)
        | Instruction::Ror(_) => 2,
        Instruction::BitReg(_, _) | Instruction::SetReg(_, _) | Instruction::ResReg(_, _) => 3,
        Instruction::BitAbs(_, _) | Instruction::SetAbs(_, _) | Instruction::ResAbs(_, _) => 4,
        Instruction::BitIndirect(_, _) | Instruction::SetIndirect(_, _) | Instruction::ResIndirect(_, _) => 3,
        Instruction::JmpI(_) => 3,
        Instruction::JmpIndirect(_) => 1,
        Instruction::JrI(_) => 2,
        Instruction::JccI(_, _) => 3,
        Instruction::JrccI(_, _) => 2,
        Instruction::Djnz(_) => 2,
        Instruction::CallI(_) => 3,
        Instruction::CallIndirect(_) => 1,
        Instruction::CallccI(_, _) => 3,
        Instruction::Syscall(_) => 2,
        Instruction::CallFar(_) => 8,
        Instruction::CallFarVia(_, _) => 9,
        Instruction::JmpFar(_) => 8,
        Instruction::JmpFarVia(_, _) => 9,
    }
}

/// Helper function to determine instruction size in bytes during pass 1.
pub fn calculate_instruction_size(instruction: &Instruction) -> (size: u32)
    ensures
        size == instruction_size(*instruction),
        1 <= size <= 9,
{
    match instruction {
        Instruction::Nop | Instruction::Halt | Instruction::Ret | Instruction::Ccf | Instruction::Scf
        | Instruction::Rcf | Instruction::Enter | Instruction::Leave | Instruction::Reti | Instruction::Ei
        | Instruction::Di => 1,
        Instruction::LdReg(_, _) => 1,
        Instruction::Ldi(_, _) => 3,
        Instruction::LdIndirect(_, _) => 2,
        Instruction::LdAbs(_, _) => 3,
        Instruction::LdIndexed(_, _, _) => 3,
        Instruction::LdPreDec(_, _) => 3,
        Instruction::LdPostInc(_, _) => 3,
        Instruction::StIndirect(_, _) => 2,
        Instruction::StAbs(_, _) => 3,
        Instruction::StIndexed(_, _, _) => 3,
        Instruction::StPreDec(_, _) => 3,
        Instruction::StPostInc(_, _) => 3,
        Instruction::LdiB(_, _) => 3,
        Instruction::LdBIndirect(_, _) => 2,
        Instruction::LdBPreDec(_, _) => 3,
        Instruction::LdBPostInc(_, _) => 3,
        Instruction::LdBAbs(_, _) => 4,
        Instruction::StBIndirect(_, _) => 2,
        Instruction::StBPreDec(_, _) => 3,
        Instruction::StBPostInc(_, _) => 3,
        Instruction::StBAbs(_, _) => 4,
        Instruction::Lea(_, _, _) => 3,
        Instruction::Push(_) => 1,
        Instruction::PushI(_) => 3,
        Instruction::Pop(_) => 1,
        Instruction::PushF => 1,
        Instruction::PopF => 1,
        Instruction::AddAcc(_) | Instruction::SubAcc(_) | Instruction::AndAcc(_) | Instruction::XorAcc(_)
        | Instruction::OrAcc(_) | Instruction::CmpAcc(_) | Instruction::NegAcc | Instruction::NotAcc
        | Instruction::SwapAcc => 1,
        Instruction::AddAccI(_) | Instruction::SubAccI(_) | Instruction::AndAccI(_) | Instruction::OrAccI(_)
        | Instruction::XorAccI(_) | Instruction::CmpAccI(_) | Instruction::AdcAccI(_)
        | Instruction::SbcAccI(_) => 3,
        Instruction::AddReg(_, _) | Instruction::SubReg(_, _) | Instruction::AndReg(_, _) | Instruction::OrReg(_, _)
        | Instruction::XorReg(_, _) | Instruction::CmpReg(_, _) | Instruction::AdcReg(_, _)
        | Instruction::SbcReg(_, _) => 2,
        Instruction::AddIReg(_, _) | Instruction::SubIReg(_, _) | Instruction::AndIReg(_, _)
        | Instruction::OrIReg(_, _) | Instruction::XorIReg(_, _) | Instruction::CmpIReg(_, _) => 4,
        Instruction::AddSp(_) => 2,
        Instruction::Inc(_) | Instruction::Dec(_) => 1,
        Instruction::AddBAcc(_) | Instruction::SubBAcc(_) | Instruction::AndBAcc(_) | Instruction::OrBAcc(_)
        | Instruction::XorBAcc(_) | Instruction::CmpBAcc(_) => 2,
        Instruction::Sra(_) | Instruction::Shl(_) | Instruction::Shr(_) | Instruction::Rol(_)
        | Instruction::Ror(_) => 2,
        Instruction::BitReg(_, _) | Instruction::SetReg(_, _) | Instruction::ResReg(_, _) => 3,
        Instruction::BitAbs(_, _) | Instruction::SetAbs(_, _) | Instruction::ResAbs(_, _) => 4,
        Instruction::BitIndirect(_, _) | Instruction::SetIndirect(_, _) | Instruction::ResIndirect(_, _) => 3,
        Instruction::JmpI(_) => 3,
        Instruction::JmpIndirect(_) => 1,
        Instruction::JrI(_) => 2,
        Instruction::JccI(_, _) => 3,
        Instruction::JrccI(_, _) => 2,
        Instruction::Djnz(_) => 2,
        Instruction::CallI(_) => 3,
        Instruction::CallIndirect(_) => 1,
        Instruction::CallccI(_, _) => 3,
        Instruction::Syscall(_) => 2,
        Instruction::CallFar(_) => 8,
        Instruction::CallFarVia(_, _) => 9,
        Instruction::JmpFar(_) => 8,
        Instruction::JmpFarVia(_, _) => 9,
    }
}

/// The machine code of an instruction at logical address `addr` in rom bank
/// `bank`, or the error it gives.
pub open spec fn encode_spec(instruction: Instruction, syms: Map<Seq<char>, Symbol>, addr: u32, bank: u32, line: usize) -> Result<Seq<u8>, ErrDesc> {
    match instruction_group(instruction) {
        0 => misc_spec(instruction, syms, addr, bank, line),
        1 => load_store_spec(instruction, syms, addr, bank, line),
        2 => byte_load_store_spec(instruction, syms, addr, bank, line),
        3 => acc_arith_spec(instruction, syms, addr, bank, line),
        4 => reg_arith_spec(instruction, syms, addr, bank, line),
        5 => bitwise_spec(instruction, syms, addr, bank, line),
        _ => control_flow_spec(instruction, syms, addr, bank, line),
    }
}

/// Instructions without operands, and stack instructions.
pub open spec fn misc_spec(instruction: Instruction, syms: Map<Seq<char>, Symbol>, addr: u32, bank: u32, line: usize) -> Result<Seq<u8>, ErrDesc> {
    match instruction {
        Instruction::Nop => Ok(seq![op::NOP_OPCODE]),
        Instruction::Halt => Ok(seq![op::HALT_OPCODE]),
        Instruction::Ei => Ok(seq![op::EI_OPCODE]),
        Instruction::Di => Ok(seq![op::DI_OPCODE]),
        Instruction::Ret => Ok(seq![op::RET_OPCODE]),
        Instruction::Reti => Ok(seq![op::RETI_OPCODE]),
        Instruction::Ccf => Ok(seq![op::CCF_OPCODE]),
        Instruction::Scf => Ok(seq![op::SCF_OPCODE]),
        Instruction::Rcf => Ok(seq![op::RCF_OPCODE]),
        Instruction::Enter => Ok(seq![op::ENTER_OPCODE]),
        Instruction::Leave => Ok(seq![op::LEAVE_OPCODE]),
        Instruction::Push(r) => Ok(seq![(op::PUSH_REG_BASE_OPCODE + reg_index(r)) as u8]),
        Instruction::Pop(r) => Ok(seq![(op::POP_REG_BASE_OPCODE + reg_index(r)) as u8]),
        Instruction::PushI(o) => op_word_spec(op::PUSH_IMM_OPCODE, o, syms, line),
        Instruction::PushF => Ok(seq![op::PUSH_F_OPCODE]),
        Instruction::PopF => Ok(seq![op::POP_F_OPCODE]),
        Instruction::NegAcc => Ok(seq![op::NEG_ACC_OPCODE]),
        Instruction::NotAcc => Ok(seq![op::NOR_ACC_OPCODE]),
        Instruction::SwapAcc => Ok(seq![op::SWAP_ACC_OPCODE]),
        _ => arbitrary(),
    }
}

/// Word loads and stores.
pub open spec fn load_store_spec(instruction: Instruction, syms: Map<Seq<char>, Symbol>, addr: u32, bank: u32, line: usize) -> Result<Seq<u8>, ErrDesc> {
    match instruction {
        Instruction::LdReg(rd, rs) => Ok(seq![rd_rs_byte(op::LD_REG_REG_BASE_OPCODE, rd, rs)]),
        Instruction::Ldi(rd, o) => reg_opcode_word_spec(op::LDI_BASE_OPCODE, rd, o, syms, line),
        Instruction::LdIndirect(rd, rs) => Ok(seq![op::FE_PREFIX, rd_rs_byte(op::LD_INDIR_BASE_SUB_OPCODE, rd, rs)]),
        Instruction::LdAbs(rd, o) => reg_opcode_word_spec(op::LD_ABS_BASE_OPCODE, rd, o, syms, line),
        Instruction::LdIndexed(rd, rs, o) => indexed_spec(op::LD_INDEX_BASE_SUB_OPCODE, rd, rs, o, line),
        Instruction::LdPreDec(rd, rs) => Ok(auto_bytes(op::LD_PRE_DEC_BASE_SUB_OPCODE, rd, rs)),
        Instruction::LdPostInc(rd, rs) => Ok(auto_bytes(op::LD_POST_INC_BASE_SUB_OPCODE, rd, rs)),
        Instruction::StIndirect(rd, rs) => Ok(seq![op::FE_PREFIX, rd_rs_byte(op::ST_INDIR_BASE_SUB_OPCODE, rd, rs)]),
        Instruction::StAbs(o, rs) => reg_opcode_word_spec(op::ST_ABS_BASE_OPCODE, rs, o, syms, line),
        Instruction::StIndexed(rd, o, rs) => indexed_spec(op::ST_INDEX_BASE_SUB_OPCODE, rd, rs, o, line),
        Instruction::StPreDec(rd, rs) => Ok(auto_bytes(op::ST_PRE_DEC_BASE_SUB_OPCODE, rd, rs)),
        Instruction::StPostInc(rd, rs) => Ok(auto_bytes(op::ST_POST_INC_BASE_SUB_OPCODE, rd, rs)),
        _ => arbitrary(),
    }
}

/// Byte loads and stores, and `LEA`.
pub open spec fn byte_load_store_spec(instruction: Instruction, syms: Map<Seq<char>, Symbol>, addr: u32, bank: u32, line: usize) -> Result<Seq<u8>, ErrDesc> {
    match instruction {
        Instruction::LdiB(rd, o) => ldib_spec(rd, o, line),
        Instruction::LdBIndirect(rd, rs) => Ok(seq![op::FE_PREFIX, rd_rs_byte(op::LDB_INDIR_BASE_SUB_OPCODE, rd, rs)]),
        Instruction::LdBPreDec(rd, rs) => Ok(auto_bytes(op::LDB_PRE_DEC_BASE_SUB_OPCODE, rd, rs)),
        Instruction::LdBPostInc(rd, rs) => Ok(auto_bytes(op::LDB_POST_INC_BASE_SUB_OPCODE, rd, rs)),
        Instruction::LdBAbs(rd, o) => prefixed_reg_word_spec(op::FD_PREFIX, op::LDB_ABS_BASE_SUB_OPCODE, rd, o, syms, line),
        Instruction::StBIndirect(rd, rs) => Ok(seq![op::FE_PREFIX, rd_rs_byte(op::STB_INDIR_BASE_SUB_OPCODE, rd, rs)]),
        Instruction::StBPreDec(rd, rs) => Ok(auto_bytes(op::STB_PRE_DEC_BASE_SUB_OPCODE, rd, rs)),
        Instruction::StBPostInc(rd, rs) => Ok(auto_bytes(op::STB_POST_INC_BASE_SUB_OPCODE, rd, rs)),
        Instruction::StBAbs(o, rs) => prefixed_reg_word_spec(op::FD_PREFIX, op::STB_ABS_BASE_SUB_OPCODE, rs, o, syms, line),
        Instruction::Lea(rd, rs, o) => indexed_spec(op::LEA_BASE_SUB_OPCODE, rd, rs, o, line),
        _ => arbitrary(),
    }
}

/// Accumulator arithmetic.
pub open spec fn acc_arith_spec(instruction: Instruction, syms: Map<Seq<char>, Symbol>, addr: u32, bank: u32, line: usize) -> Result<Seq<u8>, ErrDesc> {
    match instruction {
        Instruction::AddAcc(r) => Ok(seq![(op::ADD_ACC_BASE_OPCODE + reg_index(r)) as u8]),
        Instruction::SubAcc(r) => Ok(seq![(op::SUB_ACC_BASE_OPCODE + reg_index(r)) as u8]),
        Instruction::AndAcc(r) => Ok(seq![(op::AND_ACC_BASE_OPCODE + reg_index(r)) as u8]),
        Instruction::OrAcc(r) => Ok(seq![(op::OR_ACC_BASE_OPCODE + reg_index(r)) as u8]),
        Instruction::XorAcc(r) => Ok(seq![(op::XOR_ACC_BASE_OPCODE + reg_index(r)) as u8]),
        Instruction::CmpAcc(r) => Ok(seq![(op::CMP_ACC_BASE_OPCODE + reg_index(r)) as u8]),
        Instruction::AddAccI(o) => op_word_spec(op::ADDI_ACC_OPCODE, o, syms, line),
        Instruction::SubAccI(o) => op_word_spec(op::SUBI_ACC_OPCODE, o, syms, line),
        Instruction::AndAccI(o) => op_word_spec(op::ANDI_ACC_OPCODE, o, syms, line),
        Instruction::OrAccI(o) => op_word_spec(op::ORI_ACC_OPCODE, o, syms, line),
        Instruction::XorAccI(o) => op_word_spec(op::XORI_ACC_OPCODE, o, syms, line),
        Instruction::CmpAccI(o) => op_word_spec(op::CMPI_ACC_OPCODE, o, syms, line),
        Instruction::AdcAccI(o) => op_word_spec(op::ADCI_ACC_OPCODE, o, syms, line),
        Instruction::SbcAccI(o) => op_word_spec(op::SBCI_ACC_OPCODE, o, syms, line),
        _ => arbitrary(),
    }
}

/// Register arithmetic.
pub open spec fn reg_arith_spec(instruction: Instruction, syms: Map<Seq<char>, Symbol>, addr: u32, bank: u32, line: usize) -> Result<Seq<u8>, ErrDesc> {
    match instruction {
        Instruction::AddReg(rd, rs) => Ok(seq![op::ADD_OPCODE, rd_rs_byte(0, rd, rs)]),
        Instruction::SubReg(rd, rs) => Ok(seq![op::SUB_OPCODE, rd_rs_byte(0, rd, rs)]),
        Instruction::AndReg(rd, rs) => Ok(seq![op::AND_OPCODE, rd_rs_byte(0, rd, rs)]),
        Instruction::OrReg(rd, rs) => Ok(seq![op::OR_OPCODE, rd_rs_byte(0, rd, rs)]),
        Instruction::XorReg(rd, rs) => Ok(seq![op::XOR_OPCODE, rd_rs_byte(0, rd, rs)]),
        Instruction::CmpReg(rd, rs) => Ok(seq![op::CMP_OPCODE, rd_rs_byte(0, rd, rs)]),
        Instruction::AdcReg(rd, rs) => Ok(seq![op::ADC_OPCODE, rd_rs_byte(0, rd, rs)]),
        Instruction::SbcReg(rd, rs) => Ok(seq![op::SBC_OPCODE, rd_rs_byte(0, rd, rs)]),
        Instruction::AddIReg(rd, o) => reg_imm_spec(op::ADDI_OPCODE, rd, o, syms, line),
        Instruction::SubIReg(rd, o) => reg_imm_spec(op::SUBI_OPCODE, rd, o, syms, line),
        Instruction::AndIReg(rd, o) => reg_imm_spec(op::ANDI_OPCODE, rd, o, syms, line),
        Instruction::OrIReg(rd, o) => reg_imm_spec(op::ORI_OPCODE, rd, o, syms, line),
        Instruction::XorIReg(rd, o) => reg_imm_spec(op::XORI_OPCODE, rd, o, syms, line),
        Instruction::CmpIReg(rd, o) => reg_imm_spec(op::CMPI_OPCODE, rd, o, syms, line),
        Instruction::AddSp(o) => add_sp_spec(o, line),
        Instruction::Inc(r) => Ok(seq![(op::INC_BASE_OPCODE + reg_index(r)) as u8]),
        Instruction::Dec(r) => Ok(seq![(op::DEC_BASE_OPCODE + reg_index(r)) as u8]),
        _ => arbitrary(),
    }
}

/// Byte arithmetic, shifts and bit instructions.
pub open spec fn bitwise_spec(instruction: Instruction, syms: Map<Seq<char>, Symbol>, addr: u32, bank: u32, line: usize) -> Result<Seq<u8>, ErrDesc> {
    match instruction {
        Instruction::AddBAcc(r) => Ok(seq![op::FD_PREFIX, (op::ADDB_BASE_SUB_OPCODE + reg_index(r)) as u8]),
        Instruction::SubBAcc(r) => Ok(seq![op::FD_PREFIX, (op::SUBB_BASE_SUB_OPCODE + reg_index(r)) as u8]),
        Instruction::AndBAcc(r) => Ok(seq![op::FD_PREFIX, (op::ANDB_BASE_SUB_OPCODE + reg_index(r)) as u8]),
        Instruction::OrBAcc(r) => Ok(seq![op::FD_PREFIX, (op::ORB_BASE_SUB_OPCODE + reg_index(r)) as u8]),
        Instruction::XorBAcc(r) => Ok(seq![op::FD_PREFIX, (op::XORB_BASE_SUB_OPCODE + reg_index(r)) as u8]),
        Instruction::CmpBAcc(r) => Ok(seq![op::FD_PREFIX, (op::CMPB_BASE_SUB_OPCODE + reg_index(r)) as u8]),
        Instruction::Sra(r) => Ok(seq![op::FD_PREFIX, (op::SRA_BASE_SUB_OPCODE + reg_index(r)) as u8]),
        Instruction::Shl(r) => Ok(seq![op::FD_PREFIX, (op::SHL_BASE_SUB_OPCODE + reg_index(r)) as u8]),
        Instruction::Shr(r) => Ok(seq![op::FD_PREFIX, (op::SHR_BASE_SUB_OPCODE + reg_index(r)) as u8]),
        Instruction::Rol(r) => Ok(seq![op::FD_PREFIX, (op::ROL_BASE_SUB_OPCODE + reg_index(r)) as u8]),
        Instruction::Ror(r) => Ok(seq![op::FD_PREFIX, (op::ROR_BASE_SUB_OPCODE + reg_index(r)) as u8]),
        Instruction::BitReg(r, b) => bit_reg_spec(op::BIT_REG_BASE_SUB_OPCODE, r, b, line),
        Instruction::SetReg(r, b) => bit_reg_spec(op::SET_REG_BASE_SUB_OPCODE, r, b, line),
        Instruction::ResReg(r, b) => bit_reg_spec(op::RES_REG_BASE_SUB_OPCODE, r, b, line),
        Instruction::BitAbs(o, b) => bit_abs_spec(op::BIT_ABS_BASE_SUB_OPCODE, o, b, syms, line),
        Instruction::SetAbs(o, b) => bit_abs_spec(op::SET_ABS_BASE_SUB_OPCODE, o, b, syms, line),
        Instruction::ResAbs(o, b) => bit_abs_spec(op::RES_ABS_BASE_SUB_OPCODE, o, b, syms, line),
        Instruction::BitIndirect(r, b) => bit_reg_spec(op::BIT_INDIR_BASE_SUB_OPCODE, r, b, line),
        Instruction::SetIndirect(r, b) => bit_reg_spec(op::SET_INDIR_BASE_SUB_OPCODE, r, b, line),
        Instruction::ResIndirect(r, b) => bit_reg_spec(op::RES_INDIR_BASE_SUB_OPCODE, r, b, line),
        _ => arbitrary(),
    }
}

/// Jumps, calls and system calls.
pub open spec fn control_flow_spec(instruction: Instruction, syms: Map<Seq<char>, Symbol>, addr: u32, bank: u32, line: usize) -> Result<Seq<u8>, ErrDesc> {
    match instruction {
        Instruction::JmpI(o) => op_word_spec(op::JMP_IMM_OPCODE, o, syms, line),
        Instruction::JmpIndirect(r) => Ok(seq![(op::JMP_INDIR_BASE_OPCODE + reg_index(r)) as u8]),
        Instruction::JrI(o) => rel_jump_spec(op::JR_OPCODE, o, syms, addr, bank, line, "JR"@),
        Instruction::JccI(cc, o) => op_word_spec((op::JCC_BASE_OPCODE + cc_offset(cc)) as u8, o, syms, line),
        Instruction::JrccI(cc, o) => rel_jump_spec((op::JRCC_BASE_OPCODE + cc_offset(cc)) as u8, o, syms, addr, bank, line, "JRcc"@),
        Instruction::Djnz(o) => rel_jump_spec(op::DJNZ_OPCODE, o, syms, addr, bank, line, "DJNZ"@),
        Instruction::CallI(o) => op_word_spec(op::CALL_IMM_OPCODE, o, syms, line),
        Instruction::CallIndirect(r) => Ok(seq![(op::CALL_INDIR_BASE_OPCODE + reg_index(r)) as u8]),
        Instruction::CallccI(cc, o) => op_word_spec((op::CALLCC_BASE_OPCODE + cc_offset(cc)) as u8, o, syms, line),
        Instruction::Syscall(o) => syscall_spec(o, line),
        Instruction::CallFar(l) => far_spec(l@, syms, bank, line, op::FAR_CALL_SYSCALL, "CALL"@),
        Instruction::CallFarVia(l, v) => far_via_spec(l@, v@, syms, bank, line, "CALL"@),
        Instruction::JmpFar(l) => far_spec(l@, syms, bank, line, op::FAR_JMP_SYSCALL, "JMP"@),
        Instruction::JmpFarVia(l, v) => far_via_spec(l@, v@, syms, bank, line, "JMP"@),
        _ => arbitrary(),
    }
}

/// Translates one instruction into its machine code during pass 2.
pub fn encode_instruction(
    instruction: &Instruction,
    symbol_table: &SymbolTable,
    current_address: &u32,
    current_bank: &u32,
    line_num: &usize,
) -> (r: Result<Vec<u8>, AssemblyError>)
    requires
        symbol_table.wf(),
    ensures
        bytes_match(r, encode_spec(*instruction, symbol_table.map(), *current_address, *current_bank, *line_num)),
{
    let encoder = Encoder::new(instruction, symbol_table, current_address, current_bank, line_num);
    encoder.encode_instruction()
}

/// The group of related instructions an instruction belongs to; each group
/// has an encoding function of its own.
#[verifier::opaque]
pub open spec fn instruction_group(instruction: Instruction) -> u8 {
    match instruction {
        Instruction::Nop
        | Instruction::Halt
        | Instruction::Ei
        | Instruction::Di
        | Instruction::Ret
        | Instruction::Reti
        | Instruction::Ccf
        | Instruction::Scf
        | Instruction::Rcf
        | Instruction::Enter
        | Instruction::Leave
        | Instruction::Push(_)
        | Instruction::Pop(_)
        | Instruction::PushI(_)
        | Instruction::PushF
        | Instruction::PopF
        | Instruction::NegAcc
        | Instruction::NotAcc
        | Instruction::SwapAcc => 0,
        Instruction::LdReg(_, _)
        | Instruction::Ldi(_, _)
        | Instruction::LdIndirect(_, _)
        | Instruction::LdAbs(_, _)
        | Instruction::LdIndexed(_, _, _)
        | Instruction::LdPreDec(_, _)
        | Instruction::LdPostInc(_, _)
        | Instruction::StIndirect(_, _)
        | Instruction::StAbs(_, _)
        | Instruction::StIndexed(_, _, _)
        | Instruction::StPreDec(_, _)
        | Instruction::StPostInc(_, _) => 1,
        Instruction::LdiB(_, _)
        | Instruction::LdBIndirect(_, _)
        | Instruction::LdBPreDec(_, _)
        | Instruction::LdBPostInc(_, _)
        | Instruction::LdBAbs(_, _)
        | Instruction::StBIndirect(_, _)
        | Instruction::StBPreDec(_, _)
        | Instruction::StBPostInc(_, _)
        | Instruction::StBAbs(_, _)
        | Instruction::Lea(_, _, _) => 2,
        Instruction::AddAcc(_)
        | Instruction::SubAcc(_)
        | Instruction::AndAcc(_)
        | Instruction::OrAcc(_)
        | Instruction::XorAcc(_)
        | Instruction::CmpAcc(_)
        | Instruction::AddAccI(_)
        | Instruction::SubAccI(_)
        | Instruction::AndAccI(_)
        | Instruction::OrAccI(_)
        | Instruction::XorAccI(_)
        | Instruction::CmpAccI(_)
        | Instruction::AdcAccI(_)
        | Instruction::SbcAccI(_) => 3,
        Instruction::AddReg(_, _)
        | Instruction::SubReg(_, _)
        | Instruction::AndReg(_, _)
        | Instruction::OrReg(_, _)
        | Instruction::XorReg(_, _)
        | Instruction::CmpReg(_, _)
        | Instruction::AdcReg(_, _)
        | Instruction::SbcReg(_, _)
        | Instruction::AddIReg(_, _)
        | Instruction::SubIReg(_, _)
        | Instruction::AndIReg(_, _)
        | Instruction::OrIReg(_, _)
        | Instruction::XorIReg(_, _)
        | Instruction::CmpIReg(_, _)
        | Instruction::AddSp(_)
        | Instruction::Inc(_)
        | Instruction::Dec(_) => 4,
        Instruction::AddBAcc(_)
        | Instruction::SubBAcc(_)
        | Instruction::AndBAcc(_)
        | Instruction::OrBAcc(_)
        | Instruction::XorBAcc(_)
        | Instruction::CmpBAcc(_)
        | Instruction::Sra(_)
        | Instruction::Shl(_)
        | Instruction::Shr(_)
        | Instruction::Rol(_)
        | Instruction::Ror(_)
        | Instruction::BitReg(_, _)
        | Instruction::SetReg(_, _)
        | Instruction::ResReg(_, _)
        | Instruction::BitAbs(_, _)
        | Instruction::SetAbs(_, _)
        | Instruction::ResAbs(_, _)
        | Instruction::BitIndirect(_, _)
        | Instruction::SetIndirect(_, _)
        | Instruction::ResIndirect(_, _) => 5,
        Instruction::JmpI(_)
        | Instruction::JmpIndirect(_)
        | Instruction::JrI(_)
        | Instruction::JccI(_, _)
        | Instruction::JrccI(_, _)
        | Instruction::Djnz(_)
        | Instruction::CallI(_)
        | Instruction::CallIndirect(_)
        | Instruction::CallccI(_, _)
        | Instruction::Syscall(_)
        | Instruction::CallFar(_)
        | Instruction::CallFarVia(_, _)
        | Instruction::JmpFar(_)
        | Instruction::JmpFarVia(_, _) => 6,
    }
}

impl<'a> Encoder<'a> {
    /// Translates the encoder's instruction into its machine code.
    pub fn encode_instruction(self) -> (r: Result<Vec<u8>, AssemblyError>)
        requires
            self.symbol_table.wf(),
        ensures
            bytes_match(r, encode_spec(*self.instruction, self.symbol_table.map(), *self.current_address, *self.current_bank, *self.line_num)),
    {
        let group = Self::group_of(self.instruction);
        if group == 0 {
            self.encode_misc()
        } else if group == 1 {
            self.encode_load_store()
        } else if group == 2 {
            self.encode_byte_load_store()
        } else if group == 3 {
            self.encode_acc_arith()
        } else if group == 4 {
            self.encode_reg_arith()
        } else if group == 5 {
            self.encode_bitwise()
        } else {
            self.encode_control_flow()
        }
    }

    fn group_of(instruction: &Instruction) -> (g: u8)
        ensures
            g == instruction_group(*instruction),
            g < 7,
    {
        proof {
            reveal(instruction_group);
        }
        match instruction {
            Instruction::Nop
            | Instruction::Halt
            | Instruction::Ei
            | Instruction::Di
            | Instruction::Ret
            | Instruction::Reti
            | Instruction::Ccf
            | Instruction::Scf
            | Instruction::Rcf
            | Instruction::Enter
            | Instruction::Leave
            | Instruction::Push(_)
            | Instruction::Pop(_)
            | Instruction::PushI(_)
            | Instruction::PushF
            | Instruction::PopF
            | Instruction::NegAcc
            | Instruction::NotAcc
            | Instruction::SwapAcc => 0,
            Instruction::LdReg(_, _)
            | Instruction::Ldi(_, _)
            | Instruction::LdIndirect(_, _)
            | Instruction::LdAbs(_, _)
            | Instruction::LdIndexed(_, _, _)
            | Instruction::LdPreDec(_, _)
            | Instruction::LdPostInc(_, _)
            | Instruction::StIndirect(_, _)
            | Instruction::StAbs(_, _)
            | Instruction::StIndexed(_, _, _)
            | Instruction::StPreDec(_, _)
            | Instruction::StPostInc(_, _) => 1,
            Instruction::LdiB(_, _)
            | Instruction::LdBIndirect(_, _)
            | Instruction::LdBPreDec(_, _)
            | Instruction::LdBPostInc(_, _)
            | Instruction::LdBAbs(_, _)
            | Instruction::StBIndirect(_, _)
            | Instruction::StBPreDec(_, _)
            | Instruction::StBPostInc(_, _)
            | Instruction::StBAbs(_, _)
            | Instruction::Lea(_, _, _) => 2,
            Instruction::AddAcc(_)
            | Instruction::SubAcc(_)
            | Instruction::AndAcc(_)
            | Instruction::OrAcc(_)
            | Instruction::XorAcc(_)
            | Instruction::CmpAcc(_)
            | Instruction::AddAccI(_)
            | Instruction::SubAccI(_)
            | Instruction::AndAccI(_)
            | Instruction::OrAccI(_)
            | Instruction::XorAccI(_)
            | Instruction::CmpAccI(_)
            | Instruction::AdcAccI(_)
            | Instruction::SbcAccI(_) => 3,
            Instruction::AddReg(_, _)
            | Instruction::SubReg(_, _)
            | Instruction::AndReg(_, _)
            | Instruction::OrReg(_, _)
            | Instruction::XorReg(_, _)
            | Instruction::CmpReg(_, _)
            | Instruction::AdcReg(_, _)
            | Instruction::SbcReg(_, _)
            | Instruction::AddIReg(_, _)
            | Instruction::SubIReg(_, _)
            | Instruction::AndIReg(_, _)
            | Instruction::OrIReg(_, _)
            | Instruction::XorIReg(_, _)
            | Instruction::CmpIReg(_, _)
            | Instruction::AddSp(_)
            | Instruction::Inc(_)
            | Instruction::Dec(_) => 4,
            Instruction::AddBAcc(_)
            | Instruction::SubBAcc(_)
            | Instruction::AndBAcc(_)
            | Instruction::OrBAcc(_)
            | Instruction::XorBAcc(_)
            | Instruction::CmpBAcc(_)
            | Instruction::Sra(_)
            | Instruction::Shl(_)
            | Instruction::Shr(_)
            | Instruction::Rol(_)
            | Instruction::Ror(_)
            | Instruction::BitReg(_, _)
            | Instruction::SetReg(_, _)
            | Instruction::ResReg(_, _)
            | Instruction::BitAbs(_, _)
            | Instruction::SetAbs(_, _)
            | Instruction::ResAbs(_, _)
            | Instruction::BitIndirect(_, _)
            | Instruction::SetIndirect(_, _)
            | Instruction::ResIndirect(_, _) => 5,
            Instruction::JmpI(_)
            | Instruction::JmpIndirect(_)
            | Instruction::JrI(_)
            | Instruction::JccI(_, _)
            | Instruction::JrccI(_, _)
            | Instruction::Djnz(_)
            | Instruction::CallI(_)
            | Instruction::CallIndirect(_)
            | Instruction::CallccI(_, _)
            | Instruction::Syscall(_)
            | Instruction::CallFar(_)
            | Instruction::CallFarVia(_, _)
            | Instruction::JmpFar(_)
            | Instruction::JmpFarVia(_, _) => 6,
        }
    }

    /// Instructions without operands, and stack instructions.
    #[verifier::rlimit(60)]
    fn encode_misc(self) -> (r: Result<Vec<u8>, AssemblyError>)
        requires
            self.symbol_table.wf(),
            instruction_group(*self.instruction) == 0,
        ensures
            bytes_match(r, misc_spec(*self.instruction, self.symbol_table.map(), *self.current_address, *self.current_bank, *self.line_num)),
    {
        match self.instruction {
            Instruction::Nop => self.encode_nop(),
            Instruction::Halt => self.encode_halt(),
            Instruction::Ei => self.encode_ei(),
            Instruction::Di => self.encode_di(),
            Instruction::Ret => self.encode_ret(),
            Instruction::Reti => self.encode_reti(),
            Instruction::Ccf => self.encode_ccf(),
            Instruction::Scf => self.encode_scf(),
            Instruction::Rcf => self.encode_rcf(),
            Instruction::Enter => self.encode_enter(),
            Instruction::Leave => self.encode_leave(),
            Instruction::Push(r) => self.encode_push_reg(r),
            Instruction::Pop(r) => self.encode_pop(r),
            Instruction::PushI(o) => self.encode_push_imm(o),
            Instruction::PushF => self.encode_pushf(),
            Instruction::PopF => self.encode_popf(),
            Instruction::NegAcc => Ok(single_byte(op::NEG_ACC_OPCODE)),
            Instruction::NotAcc => Ok(single_byte(op::NOR_ACC_OPCODE)),
            Instruction::SwapAcc => Ok(single_byte(op::SWAP_ACC_OPCODE)),
            _ => {
                proof {
                    reveal(instruction_group);
                }
                unreached()
            },
        }
    }

    /// Word loads and stores.
    #[verifier::rlimit(60)]
    fn encode_load_store(self) -> (r: Result<Vec<u8>, AssemblyError>)
        requires
            self.symbol_table.wf(),
            instruction_group(*self.instruction) == 1,
        ensures
            bytes_match(r, load_store_spec(*self.instruction, self.symbol_table.map(), *self.current_address, *self.current_bank, *self.line_num)),
    {
        match self.instruction {
            Instruction::LdReg(rd, rs) => self.encode_ld_reg(rd, rs),
            Instruction::Ldi(rd, o) => self.encode_ldi(rd, o),
            Instruction::LdIndirect(rd, rs) => self.encode_ld_indirect(rd, rs),
            Instruction::LdAbs(rd, o) => self.encode_ld_abs(rd, o),
            Instruction::LdIndexed(rd, rs, offset) => self.encode_ld_indexed(rd, rs, offset),
            Instruction::LdPreDec(rd, rs) => self.encode_ld_pre_dec(rd, rs),
            Instruction::LdPostInc(rd, rs) => self.encode_ld_post_inc(rd, rs),
            Instruction::StIndirect(rd, rs) => self.encode_st_indirect(rd, rs),
            Instruction::StAbs(o, rs) => self.encode_st_abs(o, rs),
            Instruction::StIndexed(rd, offset, rs) => self.encode_st_indexed(rd, offset, rs),
            Instruction::StPreDec(rd, rs) => self.encode_st_pre_dec(rd, rs),
            Instruction::StPostInc(rd, rs) => self.encode_st_post_inc(rd, rs),
            _ => {
                proof {
                    reveal(instruction_group);
                }
                unreached()
            },
        }
    }

    /// Byte loads and stores, and `LEA`.
    #[verifier::rlimit(60)]
    fn encode_byte_load_store(self) -> (r: Result<Vec<u8>, AssemblyError>)
        requires
            self.symbol_table.wf(),
            instruction_group(*self.instruction) == 2,
        ensures
            bytes_match(r, byte_load_store_spec(*self.instruction, self.symbol_table.map(), *self.current_address, *self.current_bank, *self.line_num)),
    {
        match self.instruction {
            Instruction::LdiB(rd, imm8) => self.encode_ldib(rd, imm8),
            Instruction::LdBIndirect(rd, rs) => self.encode_ldb_indirect(rd, rs),
            Instruction::LdBPreDec(rd, rs) => self.encode_ldb_pre_dec(rd, rs),
            Instruction::LdBPostInc(rd, rs) => self.encode_ldb_post_inc(rd, rs),
            Instruction::LdBAbs(rd, o) => self.encode_ldb_abs(rd, o),
            Instruction::StBIndirect(rd, rs) => self.encode_stb_indirect(rd, rs),
            Instruction::StBPreDec(rd, rs) => self.encode_stb_pre_dec(rd, rs),
            Instruction::StBPostInc(rd, rs) => self.encode_stb_post_inc(rd, rs),
            Instruction::StBAbs(o, rs) => self.encode_stb_abs(o, rs),
            Instruction::Lea(rd, rs, offset) => self.encode_lea(rd, rs, offset),
            _ => {
                proof {
                    reveal(instruction_group);
                }
                unreached()
            },
        }
    }

    /// Accumulator arithmetic.
    #[verifier::rlimit(60)]
    fn encode_acc_arith(self) -> (r: Result<Vec<u8>, AssemblyError>)
        requires
            self.symbol_table.wf(),
            instruction_group(*self.instruction) == 3,
        ensures
            bytes_match(r, acc_arith_spec(*self.instruction, self.symbol_table.map(), *self.current_address, *self.current_bank, *self.line_num)),
    {
        match self.instruction {
            Instruction::AddAcc(rs) => self.encode_acc_math(op::ADD_ACC_BASE_OPCODE, rs),
            Instruction::SubAcc(rs) => self.encode_acc_math(op::SUB_ACC_BASE_OPCODE, rs),
            Instruction::AndAcc(rs) => self.encode_acc_math(op::AND_ACC_BASE_OPCODE, rs),
            Instruction::OrAcc(rs) => self.encode_acc_math(op::OR_ACC_BASE_OPCODE, rs),
            Instruction::XorAcc(rs) => self.encode_acc_math(op::XOR_ACC_BASE_OPCODE, rs),
            Instruction::CmpAcc(rs) => self.encode_acc_math(op::CMP_ACC_BASE_OPCODE, rs),
            Instruction::AddAccI(o) => self.encode_acc_imm_math(op::ADDI_ACC_OPCODE, o),
            Instruction::SubAccI(o) => self.encode_acc_imm_math(op::SUBI_ACC_OPCODE, o),
            Instruction::AndAccI(o) => self.encode_acc_imm_math(op::ANDI_ACC_OPCODE, o),
            Instruction::OrAccI(o) => self.encode_acc_imm_math(op::ORI_ACC_OPCODE, o),
            Instruction::XorAccI(o) => self.encode_acc_imm_math(op::XORI_ACC_OPCODE, o),
            Instruction::CmpAccI(o) => self.encode_acc_imm_math(op::CMPI_ACC_OPCODE, o),
            Instruction::AdcAccI(o) => self.encode_acc_imm_math(op::ADCI_ACC_OPCODE, o),
            Instruction::SbcAccI(o) => self.encode_acc_imm_math(op::SBCI_ACC_OPCODE, o),
            _ => {
                proof {
                    reveal(instruction_group);
                }
                unreached()
            },
        }
    }

    /// Register arithmetic.
    #[verifier::rlimit(60)]
    fn encode_reg_arith(self) -> (r: Result<Vec<u8>, AssemblyError>)
        requires
            self.symbol_table.wf(),
            instruction_group(*self.instruction) == 4,
        ensures
            bytes_match(r, reg_arith_spec(*self.instruction, self.symbol_table.map(), *self.current_address, *self.current_bank, *self.line_num)),
    {
        match self.instruction {
            Instruction::AddReg(rd, rs) => self.encode_reg_math(op::ADD_OPCODE, rd, rs),
            Instruction::SubReg(rd, rs) => self.encode_reg_math(op::SUB_OPCODE, rd, rs),
            Instruction::AndReg(rd, rs) => self.encode_reg_math(op::AND_OPCODE, rd, rs),
            Instruction::OrReg(rd, rs) => self.encode_reg_math(op::OR_OPCODE, rd, rs),
            Instruction::XorReg(rd, rs) => self.encode_reg_math(op::XOR_OPCODE, rd, rs),
            Instruction::CmpReg(rd, rs) => self.encode_reg_math(op::CMP_OPCODE, rd, rs),
            Instruction::AdcReg(rd, rs) => self.encode_reg_math(op::ADC_OPCODE, rd, rs),
            Instruction::SbcReg(rd, rs) => self.encode_reg_math(op::SBC_OPCODE, rd, rs),
            Instruction::AddIReg(rd, o) => self.encode_reg_imm_math(op::ADDI_OPCODE, rd, o),
            Instruction::SubIReg(rd, o) => self.encode_reg_imm_math(op::SUBI_OPCODE, rd, o),
            Instruction::AndIReg(rd, o) => self.encode_reg_imm_math(op::ANDI_OPCODE, rd, o),
            Instruction::OrIReg(rd, o) => self.encode_reg_imm_math(op::ORI_OPCODE, rd, o),
            Instruction::XorIReg(rd, o) => self.encode_reg_imm_math(op::XORI_OPCODE, rd, o),
            Instruction::CmpIReg(rd, o) => self.encode_reg_imm_math(op::CMPI_OPCODE, rd, o),
            Instruction::AddSp(offset) => self.encode_add_sp(offset),
            Instruction::Inc(r) => self.encode_inc(r),
            Instruction::Dec(r) => self.encode_dec(r),
            _ => {
                proof {
                    reveal(instruction_group);
                }
                unreached()
            },
        }
    }

    /// Byte arithmetic, shifts and bit instructions.
    #[verifier::rlimit(60)]
    fn encode_bitwise(self) -> (r: Result<Vec<u8>, AssemblyError>)
        requires
            self.symbol_table.wf(),
            instruction_group(*self.instruction) == 5,
        ensures
            bytes_match(r, bitwise_spec(*self.instruction, self.symbol_table.map(), *self.current_address, *self.current_bank, *self.line_num)),
    {
        match self.instruction {
            Instruction::AddBAcc(rs) => self.encode_acc_byte_math(op::ADDB_BASE_SUB_OPCODE, rs),
            Instruction::SubBAcc(rs) => self.encode_acc_byte_math(op::SUBB_BASE_SUB_OPCODE, rs),
            Instruction::AndBAcc(rs) => self.encode_acc_byte_math(op::ANDB_BASE_SUB_OPCODE, rs),
            Instruction::OrBAcc(rs) => self.encode_acc_byte_math(op::ORB_BASE_SUB_OPCODE, rs),
            Instruction::XorBAcc(rs) => self.encode_acc_byte_math(op::XORB_BASE_SUB_OPCODE, rs),
            Instruction::CmpBAcc(rs) => self.encode_acc_byte_math(op::CMPB_BASE_SUB_OPCODE, rs),
            Instruction::Sra(r) => self.encode_shift(op::SRA_BASE_SUB_OPCODE, r),
            Instruction::Shl(r) => self.encode_shift(op::SHL_BASE_SUB_OPCODE, r),
            Instruction::Shr(r) => self.encode_shift(op::SHR_BASE_SUB_OPCODE, r),
            Instruction::Rol(r) => self.encode_shift(op::ROL_BASE_SUB_OPCODE, r),
            Instruction::Ror(r) => self.encode_shift(op::ROR_BASE_SUB_OPCODE, r),
            Instruction::BitReg(r, b) => self.encode_bit_reg(r, b),
            Instruction::SetReg(r, b) => self.encode_set_reg(r, b),
            Instruction::ResReg(r, b) => self.encode_res_reg(r, b),
            Instruction::BitAbs(o, b) => self.encode_bit_abs(o, b),
            Instruction::SetAbs(o, b) => self.encode_set_abs(o, b),
            Instruction::ResAbs(o, b) => self.encode_res_abs(o, b),
            Instruction::BitIndirect(r, b) => self.encode_bit_indirect(r, b),
            Instruction::SetIndirect(r, b) => self.encode_set_indirect(r, b),
            Instruction::ResIndirect(r, b) => self.encode_res_indirect(r, b),
            _ => {
                proof {
                    reveal(instruction_group);
                }
                unreached()
            },
        }
    }

    /// Jumps, calls and system calls.
    #[verifier::rlimit(60)]
    fn encode_control_flow(self) -> (r: Result<Vec<u8>, AssemblyError>)
        requires
            self.symbol_table.wf(),
            instruction_group(*self.instruction) == 6,
        ensures
            bytes_match(r, control_flow_spec(*self.instruction, self.symbol_table.map(), *self.current_address, *self.current_bank, *self.line_num)),
    {
        match self.instruction {
            Instruction::JmpI(o) => self.encode_jmp_imm(o),
            Instruction::JmpIndirect(r) => self.encode_jmp_indirect(r),
            Instruction::JrI(o) => self.encode_jr(o),
            Instruction::JccI(cc, o) => self.encode_jcc(cc, o),
            Instruction::JrccI(cc, o) => self.encode_jrcc(cc, o),
            Instruction::Djnz(o) => self.encode_djnz(o),
            Instruction::CallI(o) => self.encode_call_imm(o),
            Instruction::CallIndirect(r) => self.encode_call_indirect(r),
            Instruction::CallccI(cc, o) => self.encode_callcc(cc, o),
            Instruction::Syscall(imm) => self.encode_syscall_imm(imm),
            Instruction::CallFar(call_label) => self.encode_call_far(call_label),
            Instruction::CallFarVia(call_label, via_label) => self.encode_call_far_via(call_label, via_label),
            Instruction::JmpFar(label_name) => self.encode_jmp_far(label_name),
            Instruction::JmpFarVia(call_label, via_label) => self.encode_jmp_far_via(call_label, via_label),
            _ => {
                proof {
                    reveal(instruction_group);
                }
                unreached()
            },
        }
    }
}

proof fn lemma_misc_size(instruction: Instruction, syms: Map<Seq<char>, Symbol>, addr: u32, bank: u32, line: usize)
    requires
        instruction_group(instruction) == 0,
    ensures
        misc_spec(instruction, syms, addr, bank, line) matches Ok(bytes) ==> bytes.len() == instruction_size(instruction),
{
    reveal(instruction_group);
}

proof fn lemma_load_store_size(instruction: Instruction, syms: Map<Seq<char>, Symbol>, addr: u32, bank: u32, line: usize)
    requires
        instruction_group(instruction) == 1,
    ensures
        load_store_spec(instruction, syms, addr, bank, line) matches Ok(bytes) ==> bytes.len() == instruction_size(instruction),
{
    reveal(instruction_group);
}

proof fn lemma_byte_load_store_size(instruction: Instruction, syms: Map<Seq<char>, Symbol>, addr: u32, bank: u32, line: usize)
    requires
        instruction_group(instruction) == 2,
    ensures
        byte_load_store_spec(instruction, syms, addr, bank, line) matches Ok(bytes) ==> bytes.len() == instruction_size(instruction),
{
    reveal(instruction_group);
}

proof fn lemma_acc_arith_size(instruction: Instruction, syms: Map<Seq<char>, Symbol>, addr: u32, bank: u32, line: usize)
    requires
        instruction_group(instruction) == 3,
    ensures
        acc_arith_spec(instruction, syms, addr, bank, line) matches Ok(bytes) ==> bytes.len() == instruction_size(instruction),
{
    reveal(instruction_group);
}

proof fn lemma_reg_arith_size(instruction: Instruction, syms: Map<Seq<char>, Symbol>, addr: u32, bank: u32, line: usize)
    requires
        instruction_group(instruction) == 4,
    ensures
        reg_arith_spec(instruction, syms, addr, bank, line) matches Ok(bytes) ==> bytes.len() == instruction_size(instruction),
{
    reveal(instruction_group);
}

proof fn lemma_bitwise_size(instruction: Instruction, syms: Map<Seq<char>, Symbol>, addr: u32, bank: u32, line: usize)
    requires
        instruction_group(instruction) == 5,
    ensures
        bitwise_spec(instruction, syms, addr, bank, line) matches Ok(bytes) ==> bytes.len() == instruction_size(instruction),
{
    reveal(instruction_group);
}

proof fn lemma_control_flow_size(instruction: Instruction, syms: Map<Seq<char>, Symbol>, addr: u32, bank: u32, line: usize)
    requires
        instruction_group(instruction) == 6,
    ensures
        control_flow_spec(instruction, syms, addr, bank, line) matches Ok(bytes) ==> bytes.len() == instruction_size(instruction),
{
    reveal(instruction_group);
}

/// Pass 1 and pass 2 agree: whenever an instruction encodes, its machine
/// code is exactly as long as the size that pass 1 reserves for it.
pub proof fn lemma_encoding_has_instruction_size(
    instruction: Instruction,
    syms: Map<Seq<char>, Symbol>,
    addr: u32,
    bank: u32,
    line: usize,
)
    ensures
        encode_spec(instruction, syms, addr, bank, line) matches Ok(bytes) ==> bytes.len() == instruction_size(instruction),
{
    let g = instruction_group(instruction);
    assert(g < 7) by {
        reveal(instruction_group);
    }
    if g == 0 {
        lemma_misc_size(instruction, syms, addr, bank, line);
    } else if g == 1 {
        lemma_load_store_size(instruction, syms, addr, bank, line);
    } else if g == 2 {
        lemma_byte_load_store_size(instruction, syms, addr, bank, line);
    } else if g == 3 {
        lemma_acc_arith_size(instruction, syms, addr, bank, line);
    } else if g == 4 {
        lemma_reg_arith_size(instruction, syms, addr, bank, line);
    } else if g == 5 {
        lemma_bitwise_size(instruction, syms, addr, bank, line);
    } else if g == 6 {
        lemma_control_flow_size(instruction, syms, addr, bank, line);
    }
}

/// The target a two-byte relative jump at logical address `addr` reaches:
/// the address plus its offset byte read as a signed byte.
pub open spec fn relative_target(bytes: Seq<u8>, addr: u32) -> int {
    (addr as i32) as int + (bytes[1] as i8) as int
}

/// A relative jump (`JR`, `JRcc`, `DJNZ`) to a label of the current bank
/// that lies within a signed byte of the jump encodes as its opcode and an
/// offset that takes the jump exactly to the label: the label's logical
/// address minus the jump's own.
pub proof fn lemma_relative_jump_reaches_label(
    label: String,
    cc: ConditionCode,
    syms: Map<Seq<char>, Symbol>,
    addr: u32,
    bank: u32,
    line: usize,
)
    requires
        syms.contains_key(label@),
        syms[label@].bank == bank,
        -128 <= (syms[label@].logical_address as i32) as int - (addr as i32) as int <= 127,
    ensures
        encode_spec(Instruction::JrI(Operand::Label(label)), syms, addr, bank, line) matches Ok(b)
            && b.len() == 2 && b[0] == 0x5Au8
            && relative_target(b, addr) == (syms[label@].logical_address as i32) as int,
        encode_spec(Instruction::JrccI(cc, Operand::Label(label)), syms, addr, bank, line) matches Ok(b)
            && b.len() == 2 && b[0] == 0x63 + cc_offset(cc)
            && relative_target(b, addr) == (syms[label@].logical_address as i32) as int,
        encode_spec(Instruction::Djnz(Operand::Label(label)), syms, addr, bank, line) matches Ok(b)
            && b.len() == 2 && b[0] == 0x6Bu8
            && relative_target(b, addr) == (syms[label@].logical_address as i32) as int,
{
    reveal(instruction_group);
    let d: int = (syms[label@].logical_address as i32) as int - (addr as i32) as int;
    let v: i8 = d as i8;
    assert(v == d);
    assert(((v as u8) as i8) == v) by (bit_vector);
}

/// A relative jump to a label encodes only when the label is defined in the
/// current bank and lies within a signed byte of the jump; otherwise it is
/// refused.
pub proof fn lemma_relative_jump_needs_near_label(
    label: String,
    cc: ConditionCode,
    syms: Map<Seq<char>, Symbol>,
    addr: u32,
    bank: u32,
    line: usize,
)
    ensures
        ({
            let near = syms.contains_key(label@) && syms[label@].bank == bank
                && -128 <= (syms[label@].logical_address as i32) as int - (addr as i32) as int <= 127;
            &&& encode_spec(Instruction::JrI(Operand::Label(label)), syms, addr, bank, line) is Ok <==> near
            &&& encode_spec(Instruction::JrccI(cc, Operand::Label(label)), syms, addr, bank, line) is Ok <==> near
            &&& encode_spec(Instruction::Djnz(Operand::Label(label)), syms, addr, bank, line) is Ok <==> near
        }),
{
    reveal(instruction_group);
}

/// The little endian word at bytes `i` and `i + 1`.
pub open spec fn word_at(bytes: Seq<u8>, i: int) -> int {
    bytes[i] as int + 256 * bytes[i + 1] as int
}

/// Absolute jumps and calls to a label, and word loads of a label, encode
/// their opcode and then the label's logical address as a little endian
/// word; a far call or far jump to a label of another switchable bank loads
/// the label's bank into R4 and its address into R5, then makes the far
/// call or far jump system call.
pub proof fn lemma_absolute_operands_hold_the_address(
    label: String,
    rd: Register,
    syms: Map<Seq<char>, Symbol>,
    addr: u32,
    bank: u32,
    line: usize,
)
    requires
        syms.contains_key(label@),
    ensures
        ({
            let target = syms[label@].logical_address as int % 65536;
            &&& encode_spec(Instruction::JmpI(Operand::Label(label)), syms, addr, bank, line) matches Ok(b)
                && b.len() == 3 && b[0] == 0x51u8 && word_at(b, 1) == target
            &&& encode_spec(Instruction::CallI(Operand::Label(label)), syms, addr, bank, line) matches Ok(b)
                && b.len() == 3 && b[0] == 0xC8u8 && word_at(b, 1) == target
            &&& encode_spec(Instruction::Ldi(rd, Operand::Label(label)), syms, addr, bank, line) matches Ok(b)
                && b.len() == 3 && b[0] == 0x01 + reg_index(rd) && word_at(b, 1) == target
        }),
        syms[label@].bank != 0 && syms[label@].bank != bank ==> ({
            let target = syms[label@].logical_address as int % 65536;
            let target_bank = syms[label@].bank as int % 65536;
            &&& encode_spec(Instruction::CallFar(label), syms, addr, bank, line) matches Ok(b)
                && b.len() == 8 && b[0] == 0x05u8 && word_at(b, 1) == target_bank
                && b[3] == 0x06u8 && word_at(b, 4) == target && b[6] == 0x4Eu8 && b[7] == 0x21u8
            &&& encode_spec(Instruction::JmpFar(label), syms, addr, bank, line) matches Ok(b)
                && b.len() == 8 && b[0] == 0x05u8 && word_at(b, 1) == target_bank
                && b[3] == 0x06u8 && word_at(b, 4) == target && b[6] == 0x4Eu8 && b[7] == 0x22u8
        }),
{
    reveal(instruction_group);
    let a = syms[label@].logical_address;
    let k = syms[label@].bank;
    let w = a as u16;
    let kw = k as u16;
    assert((a as u16) as u32 == a % 65536) by (bit_vector);
    assert((k as u16) as u32 == k % 65536) by (bit_vector);
    assert(lo(w) as int + 256 * hi(w) as int == w as int);
    assert(lo(kw) as int + 256 * hi(kw) as int == kw as int);
}

} // verus!
