use vstd::prelude::*;
use crate::assembler::encoder::Encoder;
use crate::ast::Operand;
use crate::errors::{desc, result_matches, AssemblyError, ErrDesc, ErrorKind};

verus! {

pub open spec fn expected_immediate_msg() -> Seq<char> {
    "Expected an immediate."@
}

/// The value of an immediate operand; any other operand is a structural error.
pub open spec fn immediate_spec(op: Operand, line: usize) -> Result<i32, ErrDesc> {
    match op {
        Operand::Immediate(v) => Ok(v),
        _ => Err(desc(ErrorKind::Structure, Some(line), expected_immediate_msg())),
    }
}

impl<'a> Encoder<'a> {
    pub fn expect_immediate(self, op: &Operand) -> (r: Result<i32, AssemblyError>)
        ensures
            result_matches(r, immediate_spec(*op, *self.line_num)),
    {
        if let Operand::Immediate(val) = op {
            Ok(*val)
        } else {
            Err(AssemblyError::StructuralError {
                line: *self.line_num,
                reason: crate::text::owned("Expected an immediate."),
            })
        }
    }
}

} // verus!
