use vstd::prelude::*;
use crate::assembler::symbol_table::{get_symbol, undefined_label_msg, Symbol, SymbolTable};
use crate::ast::{cc_offset, reg_index, ConditionCode, Operand, Register};
use crate::errors::{desc, result_matches, AssemblyError, ErrDesc, ErrorKind};

verus! {

/// Helper to encode a register operand: its index 0-7.
pub fn encode_register_operand(reg: &Register) -> (r: u8)
    ensures
        r == reg_index(*reg),
        r < 8,
{
    match reg {
        Register::R0 => 0,
        Register::R1 => 1,
        Register::R2 => 2,
        Register::R3 => 3,
        Register::R4 => 4,
        Register::R5 => 5,
        Register::R6 => 6,
        Register::R7 => 7,
    }
}

/// The opcode of a conditional instruction: its base plus the condition's offset.
pub fn encode_condition_code_opcode(base_opcode: u8, cc: &ConditionCode) -> (r: u8)
    requires
        base_opcode <= 248,
    ensures
        r == base_opcode + cc_offset(*cc),
{
    let cc_offset: u8 = match cc {
        ConditionCode::V => 0,
        ConditionCode::Nv => 1,
        ConditionCode::N => 2,
        ConditionCode::Nn => 3,
        ConditionCode::C => 4,
        ConditionCode::Nc => 5,
        ConditionCode::Z => 6,
        ConditionCode::Nz => 7,
    };
    base_opcode + cc_offset
}

/// The byte `base | rd << 3 | rs` that names two registers.
pub open spec fn rd_rs_byte(base: u8, rd: Register, rs: Register) -> u8 {
    base | (((reg_index(rd) & 0x07) << 3) | (reg_index(rs) & 0x07))
}

pub fn encode_rd_rs_byte(base_val: u8, rd: &Register, rs: &Register) -> (r: u8)
    ensures
        r == rd_rs_byte(base_val, *rd, *rs),
{
    let rd_index = encode_register_operand(rd);
    let rs_index = encode_register_operand(rs);
    base_val | (((rd_index & 0x07) << 3) | (rs_index & 0x07))
}

/// The opcode of an instruction that names one register: base plus its index.
pub fn encode_reg_opcode(base_opcode: u8, r: &Register) -> (o: u8)
    requires
        base_opcode <= 248,
    ensures
        o == base_opcode + reg_index(*r),
{
    base_opcode + encode_register_operand(r)
}

/// The machine code of an instruction that is a single opcode byte.
pub fn single_byte(opcode: u8) -> (v: Vec<u8>)
    ensures
        v@ == seq![opcode],
{
    vec![opcode]
}

/// The low byte of a word.
pub open spec fn lo(v: u16) -> u8 {
    (v % 256) as u8
}

/// The high byte of a word.
pub open spec fn hi(v: u16) -> u8 {
    (v / 256) as u8
}

/// The two little endian bytes of a word.
pub fn le_bytes(v: u16) -> (r: (u8, u8))
    ensures
        r.0 == lo(v),
        r.1 == hi(v),
{
    ((v % 256) as u8, (v / 256) as u8)
}

pub open spec fn expected_imm_or_label_msg() -> Seq<char> {
    "Expected an immediate value or label."@
}

/// The 16 bit value an immediate, absolute address or label stands for.
pub open spec fn resolve_spec(op: Operand, syms: Map<Seq<char>, Symbol>, line: usize) -> Result<u16, ErrDesc> {
    match op {
        Operand::Immediate(v) => Ok(v as u16),
        Operand::AbsAddr(a) => Ok(a),
        Operand::Label(l) => if syms.contains_key(l@) {
            Ok(syms[l@].logical_address as u16)
        } else {
            Err(desc(ErrorKind::Semantic, Some(line), undefined_label_msg(l@)))
        },
        Operand::AbsLabel(l) => if syms.contains_key(l@) {
            Ok(syms[l@].logical_address as u16)
        } else {
            Err(desc(ErrorKind::Semantic, Some(line), undefined_label_msg(l@)))
        },
        _ => Err(desc(ErrorKind::Structure, Some(line), expected_imm_or_label_msg())),
    }
}

/// Resolves an operand to a 16 bit value: immediates are truncated to 16
/// bits, labels give their logical address.
pub fn resolve_label_or_immediate(
    op: &Operand,
    symbol_table: &SymbolTable,
    line_num: &usize,
) -> (r: Result<u16, AssemblyError>)
    requires
        symbol_table.wf(),
    ensures
        result_matches(r, resolve_spec(*op, symbol_table.map(), *line_num)),
{
    match op {
        Operand::Immediate(v) => Ok(*v as u16),
        Operand::AbsAddr(a) => Ok(*a),
        Operand::Label(l) | Operand::AbsLabel(l) => {
            let sym = get_symbol(symbol_table, l, line_num)?;
            Ok(sym.logical_address as u16)
        },
        _ => Err(AssemblyError::StructuralError {
            line: *line_num,
            reason: crate::text::owned("Expected an immediate value or label."),
        }),
    }
}

} // verus!
