use vstd::prelude::*;
use crate::assembler::encoder::constants::{
    POP_F_OPCODE, POP_REG_BASE_OPCODE, PUSH_F_OPCODE, PUSH_IMM_OPCODE, PUSH_REG_BASE_OPCODE,
};
use crate::assembler::encoder::utility_functions::{
    encode_register_operand, hi, le_bytes, lo, resolve_label_or_immediate, resolve_spec,
};
use crate::assembler::encoder::Encoder;
use crate::assembler::symbol_table::Symbol;
use crate::ast::{reg_index, Operand, Register};
use crate::errors::{bytes_match, AssemblyError, ErrDesc};

verus! {

/// `opcode` followed by the little endian bytes of the operand's value.
pub open spec fn op_word_spec(opcode: u8, op: Operand, syms: Map<Seq<char>, Symbol>, line: usize) -> Result<Seq<u8>, ErrDesc> {
    match resolve_spec(op, syms, line) {
        Ok(v) => Ok(seq![opcode, lo(v), hi(v)]),
        Err(d) => Err(d),
    }
}

impl<'a> Encoder<'a> {
    pub fn encode_push_reg(self, reg: &Register) -> (r: Result<Vec<u8>, AssemblyError>)
        ensures r matches Ok(v) && v@ == seq![(PUSH_REG_BASE_OPCODE + reg_index(*reg)) as u8],
    {
        Ok(encode_push_r_data(reg))
    }

    pub fn encode_push_imm(self, op: &Operand) -> (r: Result<Vec<u8>, AssemblyError>)
        requires
            self.symbol_table.wf(),
        ensures
            bytes_match(r, op_word_spec(PUSH_IMM_OPCODE, *op, self.symbol_table.map(), *self.line_num)),
    {
        let value = resolve_label_or_immediate(op, self.symbol_table, self.line_num)?;
        let (low, high) = le_bytes(value);
        Ok(vec![PUSH_IMM_OPCODE, low, high])
    }

    pub fn encode_pop(self, reg: &Register) -> (r: Result<Vec<u8>, AssemblyError>)
        ensures r matches Ok(v) && v@ == seq![(POP_REG_BASE_OPCODE + reg_index(*reg)) as u8],
    {
        Ok(encode_pop_r_data(reg))
    }

    pub fn encode_pushf(self) -> (r: Result<Vec<u8>, AssemblyError>)
        ensures r matches Ok(v) && v@ == seq![PUSH_F_OPCODE],
    {
        Ok(vec![PUSH_F_OPCODE])
    }

    pub fn encode_popf(self) -> (r: Result<Vec<u8>, AssemblyError>)
        ensures r matches Ok(v) && v@ == seq![POP_F_OPCODE],
    {
        Ok(vec![POP_F_OPCODE])
    }
}

/// `PUSH rs`.
pub fn encode_push_r_data(rs: &Register) -> (v: Vec<u8>)
    ensures v@ == seq![(PUSH_REG_BASE_OPCODE + reg_index(*rs)) as u8],
{
    let index = encode_register_operand(rs);
    vec![PUSH_REG_BASE_OPCODE + index]
}

/// `POP rd`.
pub fn encode_pop_r_data(rd: &Register) -> (v: Vec<u8>)
    ensures v@ == seq![(POP_REG_BASE_OPCODE + reg_index(*rd)) as u8],
{
    let index = encode_register_operand(rd);
    vec![POP_REG_BASE_OPCODE + index]
}

} // verus!
