use vstd::prelude::*;
use crate::assembler::encoder::constants::{ADD_SP_OPCODE, DEC_BASE_OPCODE, FD_PREFIX, INC_BASE_OPCODE};
use crate::assembler::encoder::operand_validators::immediate_spec;
use crate::assembler::encoder::utility_functions::{
    encode_rd_rs_byte, encode_reg_opcode, encode_register_operand, hi, le_bytes, lo, rd_rs_byte,
    resolve_label_or_immediate, resolve_spec,
};
use crate::assembler::encoder::Encoder;
use crate::assembler::symbol_table::Symbol;
use crate::ast::{reg_index, Operand, Register};
use crate::errors::{bytes_match, AssemblyError, ErrDesc};

verus! {

/// `opcode rd, value`: opcode, register index, little endian value.
pub open spec fn reg_imm_spec(opcode: u8, rd: Register, op: Operand, syms: Map<Seq<char>, Symbol>, line: usize) -> Result<Seq<u8>, ErrDesc> {
    match resolve_spec(op, syms, line) {
        Ok(v) => Ok(seq![opcode, reg_index(rd), lo(v), hi(v)]),
        Err(d) => Err(d),
    }
}

/// `ADD SP, offset`: the offset's low byte.
pub open spec fn add_sp_spec(op: Operand, line: usize) -> Result<Seq<u8>, ErrDesc> {
    match immediate_spec(op, line) {
        Ok(v) => Ok(seq![ADD_SP_OPCODE, v as u8]),
        Err(d) => Err(d),
    }
}

impl<'a> Encoder<'a> {
    pub fn encode_acc_math(self, base_opcode: u8, rs: &Register) -> (r: Result<Vec<u8>, AssemblyError>)
        requires
            base_opcode <= 248,
        ensures
            r matches Ok(v) && v@ == seq![(base_opcode + reg_index(*rs)) as u8],
    {
        Ok(vec![encode_reg_opcode(base_opcode, rs)])
    }

    pub fn encode_acc_imm_math(self, opcode: u8, op: &Operand) -> (r: Result<Vec<u8>, AssemblyError>)
        requires
            self.symbol_table.wf(),
        ensures
            bytes_match(r, crate::assembler::encoder::instruction_encoders::stack::op_word_spec(opcode, *op, self.symbol_table.map(), *self.line_num)),
    {
        let value = resolve_label_or_immediate(op, self.symbol_table, self.line_num)?;
        let (low, high) = le_bytes(value);
        Ok(vec![opcode, low, high])
    }

    pub fn encode_reg_math(self, opcode: u8, rd: &Register, rs: &Register) -> (r: Result<Vec<u8>, AssemblyError>)
        ensures
            r matches Ok(v) && v@ == seq![opcode, rd_rs_byte(0x00, *rd, *rs)],
    {
        Ok(vec![opcode, encode_rd_rs_byte(0x00, rd, rs)])
    }

    pub fn encode_reg_imm_math(self, opcode: u8, rd: &Register, op: &Operand) -> (r: Result<Vec<u8>, AssemblyError>)
        requires
            self.symbol_table.wf(),
        ensures
            bytes_match(r, reg_imm_spec(opcode, *rd, *op, self.symbol_table.map(), *self.line_num)),
    {
        let imm = resolve_label_or_immediate(op, self.symbol_table, self.line_num)?;
        let rd_index = encode_register_operand(rd);
        let (low, high) = le_bytes(imm);
        Ok(vec![opcode, rd_index, low, high])
    }

    pub fn encode_add_sp(self, offset: &Operand) -> (r: Result<Vec<u8>, AssemblyError>)
        ensures
            bytes_match(r, add_sp_spec(*offset, *self.line_num)),
    {
        let imm = self.expect_immediate(offset)?;
        Ok(vec![ADD_SP_OPCODE, imm as u8])
    }

    pub fn encode_inc(self, reg: &Register) -> (r: Result<Vec<u8>, AssemblyError>)
        ensures
            r matches Ok(v) && v@ == seq![(INC_BASE_OPCODE + reg_index(*reg)) as u8],
    {
        Ok(vec![encode_reg_opcode(INC_BASE_OPCODE, reg)])
    }

    pub fn encode_dec(self, reg: &Register) -> (r: Result<Vec<u8>, AssemblyError>)
        ensures
            r matches Ok(v) && v@ == seq![(DEC_BASE_OPCODE + reg_index(*reg)) as u8],
    {
        Ok(vec![encode_reg_opcode(DEC_BASE_OPCODE, reg)])
    }

    pub fn encode_acc_byte_math(self, base_sub_opcode: u8, rs: &Register) -> (r: Result<Vec<u8>, AssemblyError>)
        requires
            base_sub_opcode <= 248,
        ensures
            r matches Ok(v) && v@ == seq![FD_PREFIX, (base_sub_opcode + reg_index(*rs)) as u8],
    {
        Ok(vec![FD_PREFIX, encode_reg_opcode(base_sub_opcode, rs)])
    }
}

} // verus!
