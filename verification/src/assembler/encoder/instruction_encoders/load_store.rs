use vstd::prelude::*;
use crate::assembler::encoder::constants::{
    FD_PREFIX, FE_PREFIX, FF_PREFIX, LDB_ABS_BASE_SUB_OPCODE, LDB_INDIR_BASE_SUB_OPCODE, LDB_POST_INC_BASE_SUB_OPCODE,
    LDB_PRE_DEC_BASE_SUB_OPCODE, LDIB_BASE_SUB_OPCODE, LDI_BASE_OPCODE, LD_ABS_BASE_OPCODE, LD_INDEX_BASE_SUB_OPCODE,
    LD_INDIR_BASE_SUB_OPCODE, LD_POST_INC_BASE_SUB_OPCODE, LD_PRE_DEC_BASE_SUB_OPCODE, LD_REG_REG_BASE_OPCODE,
    LEA_BASE_SUB_OPCODE, STB_ABS_BASE_SUB_OPCODE, STB_INDIR_BASE_SUB_OPCODE, STB_POST_INC_BASE_SUB_OPCODE,
    STB_PRE_DEC_BASE_SUB_OPCODE, ST_ABS_BASE_OPCODE, ST_INDEX_BASE_SUB_OPCODE, ST_INDIR_BASE_SUB_OPCODE,
    ST_POST_INC_BASE_SUB_OPCODE, ST_PRE_DEC_BASE_SUB_OPCODE,
};
use crate::assembler::encoder::operand_validators::immediate_spec;
use crate::assembler::encoder::utility_functions::{
    encode_rd_rs_byte, encode_reg_opcode, encode_register_operand, hi, le_bytes, lo, rd_rs_byte,
    resolve_label_or_immediate, resolve_spec,
};
use crate::assembler::encoder::Encoder;
use crate::assembler::symbol_table::Symbol;
use crate::ast::{reg_index, Operand, Register};
use crate::errors::{bytes_match, AssemblyError, ErrDesc};

verus! {

/// `LDI rd, val`.
pub open spec fn ldi_bytes(rd: Register, val: u16) -> Seq<u8> {
    seq![(LDI_BASE_OPCODE + reg_index(rd)) as u8, lo(val), hi(val)]
}

/// An opcode that names a register, followed by a little endian word.
pub open spec fn reg_opcode_word_spec(base: u8, r: Register, op: Operand, syms: Map<Seq<char>, Symbol>, line: usize) -> Result<Seq<u8>, ErrDesc> {
    match resolve_spec(op, syms, line) {
        Ok(v) => Ok(seq![(base + reg_index(r)) as u8, lo(v), hi(v)]),
        Err(d) => Err(d),
    }
}

/// A prefixed opcode that names a register, followed by a little endian word.
pub open spec fn prefixed_reg_word_spec(prefix: u8, base: u8, r: Register, op: Operand, syms: Map<Seq<char>, Symbol>, line: usize) -> Result<Seq<u8>, ErrDesc> {
    match resolve_spec(op, syms, line) {
        Ok(v) => Ok(seq![prefix, (base + reg_index(r)) as u8, lo(v), hi(v)]),
        Err(d) => Err(d),
    }
}

/// `0xFF`, a register pair byte and an offset byte.
pub open spec fn indexed_spec(base: u8, rd: Register, rs: Register, off: Operand, line: usize) -> Result<Seq<u8>, ErrDesc> {
    match immediate_spec(off, line) {
        Ok(v) => Ok(seq![FF_PREFIX, rd_rs_byte(base, rd, rs), v as u8]),
        Err(d) => Err(d),
    }
}

/// `LDI.b rd, imm`.
pub open spec fn ldib_spec(rd: Register, op: Operand, line: usize) -> Result<Seq<u8>, ErrDesc> {
    match immediate_spec(op, line) {
        Ok(v) => Ok(seq![FD_PREFIX, (LDIB_BASE_SUB_OPCODE + reg_index(rd)) as u8, v as u8]),
        Err(d) => Err(d),
    }
}

/// An auto increment or decrement access: the sub-opcode names the address
/// register `ra`, the third byte names the data register `rv`.
pub open spec fn auto_bytes(base: u8, rv: Register, ra: Register) -> Seq<u8> {
    seq![FF_PREFIX, (base + reg_index(ra)) as u8, reg_index(rv)]
}

impl<'a> Encoder<'a> {
    pub fn encode_ld_reg(self, rd: &Register, rs: &Register) -> (r: Result<Vec<u8>, AssemblyError>)
        ensures r matches Ok(v) && v@ == seq![rd_rs_byte(LD_REG_REG_BASE_OPCODE, *rd, *rs)],
    {
        Ok(vec![encode_rd_rs_byte(LD_REG_REG_BASE_OPCODE, rd, rs)])
    }

    pub fn encode_ldi(self, rd: &Register, op: &Operand) -> (r: Result<Vec<u8>, AssemblyError>)
        requires self.symbol_table.wf(),
        ensures bytes_match(r, reg_opcode_word_spec(LDI_BASE_OPCODE, *rd, *op, self.symbol_table.map(), *self.line_num)),
    {
        let addr = resolve_label_or_immediate(op, self.symbol_table, self.line_num)?;
        Ok(encode_ldi_data(rd, addr))
    }

    pub fn encode_ld_indirect(self, rd: &Register, rs: &Register) -> (r: Result<Vec<u8>, AssemblyError>)
        ensures r matches Ok(v) && v@ == seq![FE_PREFIX, rd_rs_byte(LD_INDIR_BASE_SUB_OPCODE, *rd, *rs)],
    {
        Ok(vec![FE_PREFIX, encode_rd_rs_byte(LD_INDIR_BASE_SUB_OPCODE, rd, rs)])
    }

    pub fn encode_ld_abs(self, rd: &Register, op: &Operand) -> (r: Result<Vec<u8>, AssemblyError>)
        requires self.symbol_table.wf(),
        ensures bytes_match(r, reg_opcode_word_spec(LD_ABS_BASE_OPCODE, *rd, *op, self.symbol_table.map(), *self.line_num)),
    {
        let opcode = encode_reg_opcode(LD_ABS_BASE_OPCODE, rd);
        let addr = resolve_label_or_immediate(op, self.symbol_table, self.line_num)?;
        let (low, high) = le_bytes(addr);
        Ok(vec![opcode, low, high])
    }

    pub fn encode_ld_indexed(self, rd: &Register, rs: &Register, offset: &Operand) -> (r: Result<Vec<u8>, AssemblyError>)
        ensures bytes_match(r, indexed_spec(LD_INDEX_BASE_SUB_OPCODE, *rd, *rs, *offset, *self.line_num)),
    {
        let sub_opcode = encode_rd_rs_byte(LD_INDEX_BASE_SUB_OPCODE, rd, rs);
        let imm = self.expect_immediate(offset)?;
        Ok(vec![FF_PREFIX, sub_opcode, imm as u8])
    }

    pub fn encode_ld_pre_dec(self, rd: &Register, rs: &Register) -> (r: Result<Vec<u8>, AssemblyError>)
        ensures r matches Ok(v) && v@ == auto_bytes(LD_PRE_DEC_BASE_SUB_OPCODE, *rd, *rs),
    {
        Ok(vec![FF_PREFIX, encode_reg_opcode(LD_PRE_DEC_BASE_SUB_OPCODE, rs), encode_register_operand(rd)])
    }

    pub fn encode_ld_post_inc(self, rd: &Register, rs: &Register) -> (r: Result<Vec<u8>, AssemblyError>)
        ensures r matches Ok(v) && v@ == auto_bytes(LD_POST_INC_BASE_SUB_OPCODE, *rd, *rs),
    {
        Ok(vec![FF_PREFIX, encode_reg_opcode(LD_POST_INC_BASE_SUB_OPCODE, rs), encode_register_operand(rd)])
    }

    pub fn encode_st_indirect(self, rd: &Register, rs: &Register) -> (r: Result<Vec<u8>, AssemblyError>)
        ensures r matches Ok(v) && v@ == seq![FE_PREFIX, rd_rs_byte(ST_INDIR_BASE_SUB_OPCODE, *rd, *rs)],
    {
        Ok(vec![FE_PREFIX, encode_rd_rs_byte(ST_INDIR_BASE_SUB_OPCODE, rd, rs)])
    }

    pub fn encode_st_abs(self, op: &Operand, rs: &Register) -> (r: Result<Vec<u8>, AssemblyError>)
        requires self.symbol_table.wf(),
        ensures bytes_match(r, reg_opcode_word_spec(ST_ABS_BASE_OPCODE, *rs, *op, self.symbol_table.map(), *self.line_num)),
    {
        let opcode = encode_reg_opcode(ST_ABS_BASE_OPCODE, rs);
        let addr = resolve_label_or_immediate(op, self.symbol_table, self.line_num)?;
        let (low, high) = le_bytes(addr);
        Ok(vec![opcode, low, high])
    }

    pub fn encode_st_indexed(self, rd: &Register, offset: &Operand, rs: &Register) -> (r: Result<Vec<u8>, AssemblyError>)
        ensures bytes_match(r, indexed_spec(ST_INDEX_BASE_SUB_OPCODE, *rd, *rs, *offset, *self.line_num)),
    {
        let sub_opcode = encode_rd_rs_byte(ST_INDEX_BASE_SUB_OPCODE, rd, rs);
        let imm = self.expect_immediate(offset)?;
        Ok(vec![FF_PREFIX, sub_opcode, imm as u8])
    }

    pub fn encode_st_pre_dec(self, rd: &Register, rs: &Register) -> (r: Result<Vec<u8>, AssemblyError>)
        ensures r matches Ok(v) && v@ == auto_bytes(ST_PRE_DEC_BASE_SUB_OPCODE, *rd, *rs),
    {
        Ok(vec![FF_PREFIX, encode_reg_opcode(ST_PRE_DEC_BASE_SUB_OPCODE, rs), encode_register_operand(rd)])
    }

    pub fn encode_st_post_inc(self, rd: &Register, rs: &Register) -> (r: Result<Vec<u8>, AssemblyError>)
        ensures r matches Ok(v) && v@ == auto_bytes(ST_POST_INC_BASE_SUB_OPCODE, *rd, *rs),
    {
        Ok(vec![FF_PREFIX, encode_reg_opcode(ST_POST_INC_BASE_SUB_OPCODE, rs), encode_register_operand(rd)])
    }

    pub fn encode_ldib(self, rd: &Register, imm8: &Operand) -> (r: Result<Vec<u8>, AssemblyError>)
        ensures bytes_match(r, ldib_spec(*rd, *imm8, *self.line_num)),
    {
        let sub_opcode = encode_reg_opcode(LDIB_BASE_SUB_OPCODE, rd);
        let imm = self.expect_immediate(imm8)?;
        Ok(vec![FD_PREFIX, sub_opcode, imm as u8])
    }

    pub fn encode_ldb_indirect(self, rd: &Register, rs: &Register) -> (r: Result<Vec<u8>, AssemblyError>)
        ensures r matches Ok(v) && v@ == seq![FE_PREFIX, rd_rs_byte(LDB_INDIR_BASE_SUB_OPCODE, *rd, *rs)],
    {
        Ok(vec![FE_PREFIX, encode_rd_rs_byte(LDB_INDIR_BASE_SUB_OPCODE, rd, rs)])
    }

    pub fn encode_ldb_pre_dec(self, rd: &Register, rs: &Register) -> (r: Result<Vec<u8>, AssemblyError>)
        ensures r matches Ok(v) && v@ == auto_bytes(LDB_PRE_DEC_BASE_SUB_OPCODE, *rd, *rs),
    {
        Ok(vec![FF_PREFIX, encode_reg_opcode(LDB_PRE_DEC_BASE_SUB_OPCODE, rs), encode_register_operand(rd)])
    }

    pub fn encode_ldb_post_inc(self, rd: &Register, rs: &Register) -> (r: Result<Vec<u8>, AssemblyError>)
        ensures r matches Ok(v) && v@ == auto_bytes(LDB_POST_INC_BASE_SUB_OPCODE, *rd, *rs),
    {
        Ok(vec![FF_PREFIX, encode_reg_opcode(LDB_POST_INC_BASE_SUB_OPCODE, rs), encode_register_operand(rd)])
    }

    pub fn encode_ldb_abs(self, rd: &Register, op: &Operand) -> (r: Result<Vec<u8>, AssemblyError>)
        requires self.symbol_table.wf(),
        ensures bytes_match(r, prefixed_reg_word_spec(FD_PREFIX, LDB_ABS_BASE_SUB_OPCODE, *rd, *op, self.symbol_table.map(), *self.line_num)),
    {
        let sub_opcode = encode_reg_opcode(LDB_ABS_BASE_SUB_OPCODE, rd);
        let addr = resolve_label_or_immediate(op, self.symbol_table, self.line_num)?;
        let (low, high) = le_bytes(addr);
        Ok(vec![FD_PREFIX, sub_opcode, low, high])
    }

    pub fn encode_stb_indirect(self, rd: &Register, rs: &Register) -> (r: Result<Vec<u8>, AssemblyError>)
        ensures r matches Ok(v) && v@ == seq![FE_PREFIX, rd_rs_byte(STB_INDIR_BASE_SUB_OPCODE, *rd, *rs)],
    {
        Ok(vec![FE_PREFIX, encode_rd_rs_byte(STB_INDIR_BASE_SUB_OPCODE, rd, rs)])
    }

    pub fn encode_stb_pre_dec(self, rd: &Register, rs: &Register) -> (r: Result<Vec<u8>, AssemblyError>)
        ensures r matches Ok(v) && v@ == auto_bytes(STB_PRE_DEC_BASE_SUB_OPCODE, *rd, *rs),
    {
        Ok(vec![FF_PREFIX, encode_reg_opcode(STB_PRE_DEC_BASE_SUB_OPCODE, rs), encode_register_operand(rd)])
    }

    pub fn encode_stb_post_inc(self, rd: &Register, rs: &Register) -> (r: Result<Vec<u8>, AssemblyError>)
        ensures r matches Ok(v) && v@ == auto_bytes(STB_POST_INC_BASE_SUB_OPCODE, *rd, *rs),
    {
        Ok(vec![FF_PREFIX, encode_reg_opcode(STB_POST_INC_BASE_SUB_OPCODE, rs), encode_register_operand(rd)])
    }

    pub fn encode_stb_abs(self, op: &Operand, rs: &Register) -> (r: Result<Vec<u8>, AssemblyError>)
        requires self.symbol_table.wf(),
        ensures bytes_match(r, prefixed_reg_word_spec(FD_PREFIX, STB_ABS_BASE_SUB_OPCODE, *rs, *op, self.symbol_table.map(), *self.line_num)),
    {
        let sub_opcode = encode_reg_opcode(STB_ABS_BASE_SUB_OPCODE, rs);
        let addr = resolve_label_or_immediate(op, self.symbol_table, self.line_num)?;
        let (low, high) = le_bytes(addr);
        Ok(vec![FD_PREFIX, sub_opcode, low, high])
    }

    pub fn encode_lea(self, rd: &Register, rs: &Register, offset: &Operand) -> (r: Result<Vec<u8>, AssemblyError>)
        ensures bytes_match(r, indexed_spec(LEA_BASE_SUB_OPCODE, *rd, *rs, *offset, *self.line_num)),
    {
        let sub_opcode = encode_rd_rs_byte(LEA_BASE_SUB_OPCODE, rd, rs);
        let imm = self.expect_immediate(offset)?;
        Ok(vec![FF_PREFIX, sub_opcode, imm as u8])
    }
}

/// `LDI rd, val`.
pub fn encode_ldi_data(rd: &Register, val: u16) -> (v: Vec<u8>)
    ensures
        v@ == ldi_bytes(*rd, val),
{
    let opcode = encode_reg_opcode(LDI_BASE_OPCODE, rd);
    let (low, high) = le_bytes(val);
    vec![opcode, low, high]
}

} // verus!
