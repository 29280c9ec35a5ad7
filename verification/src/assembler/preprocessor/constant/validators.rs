use vstd::prelude::*;
use crate::assembler::constant_table::ConstantTable;
use crate::ast::Operand;
use crate::errors::{desc, update_matches, AssemblyError, ErrDesc, ErrorKind};
use crate::text::owned;

verus! {

pub open spec fn word_range_msg() -> Seq<char> {
    "Expected constant to be an unsigned 16 bit value (max: 65535, min: 0)"@
}

pub open spec fn signed_byte_range_msg() -> Seq<char> {
    "Expected constant to be a signed 8 bit value (max: 127, min: -128)"@
}

pub open spec fn unsigned_byte_range_msg() -> Seq<char> {
    "Expected constant to be an unsigned 8 bit value (max: 255, min: 0)"@
}

/// A label that names a constant is replaced by the constant's value, which
/// must lie in `lo..=hi`; any other operand stays as it is.
pub open spec fn replace_spec(
    op: Operand,
    consts: Map<Seq<char>, i32>,
    lo: int,
    hi: int,
    msg: Seq<char>,
    line: usize,
) -> Result<Operand, ErrDesc> {
    match op {
        Operand::Label(l) => if consts.contains_key(l@) {
            if consts[l@] < lo || consts[l@] > hi {
                Err(desc(ErrorKind::Semantic, Some(line), msg))
            } else {
                Ok(Operand::Immediate(consts[l@]))
            }
        } else {
            Ok(op)
        },
        _ => Ok(op),
    }
}

pub open spec fn word_spec(op: Operand, consts: Map<Seq<char>, i32>, line: usize) -> Result<Operand, ErrDesc> {
    replace_spec(op, consts, 0, 65535, word_range_msg(), line)
}

pub open spec fn signed_byte_spec(op: Operand, consts: Map<Seq<char>, i32>, line: usize) -> Result<Operand, ErrDesc> {
    replace_spec(op, consts, -128, 127, signed_byte_range_msg(), line)
}

pub open spec fn unsigned_byte_spec(op: Operand, consts: Map<Seq<char>, i32>, line: usize) -> Result<Operand, ErrDesc> {
    replace_spec(op, consts, 0, 255, unsigned_byte_range_msg(), line)
}

pub(crate) fn replace_in_range(
    op: &mut Operand,
    constant_table: &ConstantTable,
    lo: i32,
    hi: i32,
    msg: &str,
    line_number: &usize,
) -> (r: Result<(), AssemblyError>)
    requires
        constant_table.wf(),
    ensures
        update_matches(r, *old(op), *final(op), replace_spec(*old(op), constant_table.map(), lo as int, hi as int, msg@, *line_number)),
{
    let value: Option<i32> = match &*op {
        Operand::Label(label) => match constant_table.get(label) {
            Some(v) => Some(*v),
            None => None,
        },
        _ => None,
    };
    match value {
        Some(v) => {
            if v < lo || v > hi {
                Err(AssemblyError::SemanticError { line: *line_number, reason: owned(msg) })
            } else {
                *op = Operand::Immediate(v);
                Ok(())
            }
        },
        None => Ok(()),
    }
}

/// Replaces a constant that must fit an unsigned word.
pub fn replace_constant_with_word(
    op: &mut Operand,
    constant_table: &ConstantTable,
    line_number: &usize,
) -> (r: Result<(), AssemblyError>)
    requires
        constant_table.wf(),
    ensures
        update_matches(r, *old(op), *final(op), word_spec(*old(op), constant_table.map(), *line_number)),
{
    replace_in_range(op, constant_table, 0, 65535, "Expected constant to be an unsigned 16 bit value (max: 65535, min: 0)", line_number)
}

/// Replaces a constant that must fit a signed byte.
pub fn replace_constant_with_signed_byte(
    op: &mut Operand,
    constant_table: &ConstantTable,
    line_number: &usize,
) -> (r: Result<(), AssemblyError>)
    requires
        constant_table.wf(),
    ensures
        update_matches(r, *old(op), *final(op), signed_byte_spec(*old(op), constant_table.map(), *line_number)),
{
    replace_in_range(op, constant_table, -128, 127, "Expected constant to be a signed 8 bit value (max: 127, min: -128)", line_number)
}

/// Replaces a constant that must fit an unsigned byte.
pub fn replace_constant_with_unsigned_byte(
    op: &mut Operand,
    constant_table: &ConstantTable,
    line_number: &usize,
) -> (r: Result<(), AssemblyError>)
    requires
        constant_table.wf(),
    ensures
        update_matches(r, *old(op), *final(op), unsigned_byte_spec(*old(op), constant_table.map(), *line_number)),
{
    replace_in_range(op, constant_table, 0, 255, "Expected constant to be an unsigned 8 bit value (max: 255, min: 0)", line_number)
}

} // verus!
