use vstd::prelude::*;
use crate::assembler::encoder::constants::FD_PREFIX;
use crate::assembler::encoder::operand_validators::immediate_spec;
use crate::assembler::encoder::utility_functions::{
    encode_reg_opcode, encode_register_operand, hi, le_bytes, lo, resolve_label_or_immediate, resolve_spec,
};
use crate::assembler::encoder::Encoder;
use crate::assembler::symbol_table::Symbol;
use crate::ast::{reg_index, Operand, Register};
use crate::errors::{bytes_match, AssemblyError, ErrDesc};

verus! {

/// The sub-opcode of a bit instruction: its base plus the bit number,
/// modulo 256.
pub open spec fn bit_sub_opcode(base: u8, bit: i32) -> u8 {
    ((base as int + (bit as u8) as int) % 256) as u8
}

fn add_bit(base: u8, bit: i32) -> (r: u8)
    ensures
        r == bit_sub_opcode(base, bit),
{
    ((base as u16 + (bit as u8) as u16) % 256) as u8
}

/// A bit instruction on a register or on the memory a register points at.
pub open spec fn bit_reg_spec(base: u8, r: Register, b: Operand, line: usize) -> Result<Seq<u8>, ErrDesc> {
    match immediate_spec(b, line) {
        Ok(v) => Ok(seq![FD_PREFIX, bit_sub_opcode(base, v), reg_index(r)]),
        Err(d) => Err(d),
    }
}

/// A bit instruction on an absolute address.
pub open spec fn bit_abs_spec(base: u8, op: Operand, b: Operand, syms: Map<Seq<char>, Symbol>, line: usize) -> Result<Seq<u8>, ErrDesc> {
    match immediate_spec(b, line) {
        Ok(v) => match resolve_spec(op, syms, line) {
            Ok(a) => Ok(seq![FD_PREFIX, bit_sub_opcode(base, v), lo(a), hi(a)]),
            Err(d) => Err(d),
        },
        Err(d) => Err(d),
    }
}

impl<'a> Encoder<'a> {
    pub fn encode_shift(self, base_sub_opcode: u8, reg: &Register) -> (r: Result<Vec<u8>, AssemblyError>)
        requires
            base_sub_opcode <= 248,
        ensures
            r matches Ok(v) && v@ == seq![FD_PREFIX, (base_sub_opcode + reg_index(*reg)) as u8],
    {
        Ok(vec![FD_PREFIX, encode_reg_opcode(base_sub_opcode, reg)])
    }

    fn encode_bit_on_reg(self, base: u8, r: &Register, b: &Operand) -> (res: Result<Vec<u8>, AssemblyError>)
        ensures
            bytes_match(res, bit_reg_spec(base, *r, *b, *self.line_num)),
    {
        let reg = encode_register_operand(r);
        let imm = self.expect_immediate(b)?;
        Ok(vec![FD_PREFIX, add_bit(base, imm), reg])
    }

    fn encode_bit_on_abs(self, base: u8, op: &Operand, b: &Operand) -> (res: Result<Vec<u8>, AssemblyError>)
        requires
            self.symbol_table.wf(),
        ensures
            bytes_match(res, bit_abs_spec(base, *op, *b, self.symbol_table.map(), *self.line_num)),
    {
        let imm = self.expect_immediate(b)?;
        let sub_opcode = add_bit(base, imm);
        let addr = resolve_label_or_immediate(op, self.symbol_table, self.line_num)?;
        let (low, high) = le_bytes(addr);
        Ok(vec![FD_PREFIX, sub_opcode, low, high])
    }

    pub fn encode_bit_reg(self, r: &Register, b: &Operand) -> (res: Result<Vec<u8>, AssemblyError>)
        ensures bytes_match(res, bit_reg_spec(0x58, *r, *b, *self.line_num)),
    {
        self.encode_bit_on_reg(crate::assembler::encoder::constants::BIT_REG_BASE_SUB_OPCODE, r, b)
    }

    pub fn encode_set_reg(self, r: &Register, b: &Operand) -> (res: Result<Vec<u8>, AssemblyError>)
        ensures bytes_match(res, bit_reg_spec(0x60, *r, *b, *self.line_num)),
    {
        self.encode_bit_on_reg(crate::assembler::encoder::constants::SET_REG_BASE_SUB_OPCODE, r, b)
    }

    pub fn encode_res_reg(self, r: &Register, b: &Operand) -> (res: Result<Vec<u8>, AssemblyError>)
        ensures bytes_match(res, bit_reg_spec(0x68, *r, *b, *self.line_num)),
    {
        self.encode_bit_on_reg(crate::assembler::encoder::constants::RES_REG_BASE_SUB_OPCODE, r, b)
    }

    pub fn encode_bit_abs(self, op: &Operand, b: &Operand) -> (res: Result<Vec<u8>, AssemblyError>)
        requires self.symbol_table.wf(),
        ensures bytes_match(res, bit_abs_spec(0x70, *op, *b, self.symbol_table.map(), *self.line_num)),
    {
        self.encode_bit_on_abs(crate::assembler::encoder::constants::BIT_ABS_BASE_SUB_OPCODE, op, b)
    }

    pub fn encode_set_abs(self, op: &Operand, b: &Operand) -> (res: Result<Vec<u8>, AssemblyError>)
        requires self.symbol_table.wf(),
        ensures bytes_match(res, bit_abs_spec(0x78, *op, *b, self.symbol_table.map(), *self.line_num)),
    {
        self.encode_bit_on_abs(crate::assembler::encoder::constants::SET_ABS_BASE_SUB_OPCODE, op, b)
    }

    pub fn encode_res_abs(self, op: &Operand, b: &Operand) -> (res: Result<Vec<u8>, AssemblyError>)
        requires self.symbol_table.wf(),
        ensures bytes_match(res, bit_abs_spec(0x80, *op, *b, self.symbol_table.map(), *self.line_num)),
    {
        self.encode_bit_on_abs(crate::assembler::encoder::constants::RES_ABS_BASE_SUB_OPCODE, op, b)
    }

    pub fn encode_bit_indirect(self, r: &Register, b: &Operand) -> (res: Result<Vec<u8>, AssemblyError>)
        ensures bytes_match(res, bit_reg_spec(0x88, *r, *b, *self.line_num)),
    {
        self.encode_bit_on_reg(crate::assembler::encoder::constants::BIT_INDIR_BASE_SUB_OPCODE, r, b)
    }

    pub fn encode_set_indirect(self, r: &Register, b: &Operand) -> (res: Result<Vec<u8>, AssemblyError>)
        ensures bytes_match(res, bit_reg_spec(0x90, *r, *b, *self.line_num)),
    {
        self.encode_bit_on_reg(crate::assembler::encoder::constants::SET_INDIR_BASE_SUB_OPCODE, r, b)
    }

    pub fn encode_res_indirect(self, r: &Register, b: &Operand) -> (res: Result<Vec<u8>, AssemblyError>)
        ensures bytes_match(res, bit_reg_spec(0x98, *r, *b, *self.line_num)),
    {
        self.encode_bit_on_reg(crate::assembler::encoder::constants::RES_INDIR_BASE_SUB_OPCODE, r, b)
    }
}

} // verus!
