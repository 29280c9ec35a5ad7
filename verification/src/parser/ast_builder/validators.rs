use vstd::prelude::*;
use crate::ast::{ConditionCode, Operand, OperandView, Register};
use crate::errors::{desc, AssemblyError, ErrDesc, ErrorKind};
use crate::parser::ast_builder::operand_builders::{build_condition_code, build_operand, condition_code_spec, operand_spec};
use crate::parser::ast_builder::utility_functions::{
    bit_id_msg, check_bit_id, check_signed_byte, check_unsigned_byte, check_unsigned_word, signed_byte_msg,
    unsigned_byte_msg, unsigned_word_msg,
};
use crate::parser::ast_builder::AstBuilder;
use crate::text::owned;

verus! {

/// What a builder holds: its line, the texts of its operands and how many
/// of them it has taken.
pub struct BuilderView {
    pub line: usize,
    pub texts: Seq<Seq<char>>,
    pub next: int,
}

impl BuilderView {
    pub open spec fn advanced(self) -> BuilderView {
        BuilderView { next: self.next + 1, ..self }
    }
}

pub open spec fn no_operand_msg() -> Seq<char> {
    "Expected an operand, but found none."@
}

pub open spec fn no_cc_msg() -> Seq<char> {
    "Expected a condition code, but found none."@
}

pub open spec fn no_list_msg() -> Seq<char> {
    "Expected a list of operands."@
}

pub open spec fn bad_cc_msg() -> Seq<char> {
    "Invalid condition code."@
}

pub open spec fn expected_register_msg() -> Seq<char> {
    "Expected a register operand (R0-R7)."@
}

pub open spec fn expected_byte_msg() -> Seq<char> {
    "Expected an immediate byte value."@
}

pub open spec fn expected_immediate_msg() -> Seq<char> {
    "Expected an immediate value."@
}

pub open spec fn expected_label_msg() -> Seq<char> {
    "Expected a label."@
}

pub open spec fn expected_addr_or_label_msg() -> Seq<char> {
    "Expected an address or label."@
}

pub open spec fn expected_imm_or_label_msg() -> Seq<char> {
    "Expected an immediate value or label."@
}

pub open spec fn expected_string_msg() -> Seq<char> {
    "Expected a string literal."@
}

pub open spec fn expected_addr_msg() -> Seq<char> {
    "Expected an address value."@
}

pub open spec fn err_at(b: BuilderView, msg: Seq<char>) -> ErrDesc {
    desc(ErrorKind::Structure, Some(b.line), msg)
}

/// The next operand, built from its text.
pub open spec fn pop_spec(b: BuilderView) -> Result<(OperandView, BuilderView), ErrDesc> {
    if 0 <= b.next < b.texts.len() {
        match operand_spec(b.texts[b.next], b.line) {
            Ok(v) => Ok((v, b.advanced())),
            Err(d) => Err(d),
        }
    } else {
        Err(err_at(b, no_operand_msg()))
    }
}

/// The next text, read as a condition code.
pub open spec fn cc_spec(b: BuilderView) -> Result<(ConditionCode, BuilderView), ErrDesc> {
    if 0 <= b.next < b.texts.len() {
        match condition_code_spec(b.texts[b.next]) {
            Some(cc) => Ok((cc, b.advanced())),
            None => Err(err_at(b, bad_cc_msg())),
        }
    } else {
        Err(err_at(b, no_cc_msg()))
    }
}

/// The next operand, which must be a register.
pub open spec fn register_spec(b: BuilderView) -> Result<(Register, BuilderView), ErrDesc> {
    match pop_spec(b) {
        Ok((OperandView::Register(r), b2)) => Ok((r, b2)),
        Ok(_) => Err(err_at(b, expected_register_msg())),
        Err(d) => Err(d),
    }
}

/// The next operand, which must be a number in `lo..=hi`.
pub open spec fn ranged_spec(b: BuilderView, lo: int, hi: int, range_msg: Seq<char>, kind_msg: Seq<char>) -> Result<(i32, BuilderView), ErrDesc> {
    match pop_spec(b) {
        Ok((OperandView::Immediate(v), b2)) => if lo <= v <= hi {
            Ok((v, b2))
        } else {
            Err(err_at(b, range_msg))
        },
        Ok(_) => Err(err_at(b, kind_msg)),
        Err(d) => Err(d),
    }
}

/// The next operand, which must be a label or a number in `lo..=hi`.
pub open spec fn ranged_or_label_spec(b: BuilderView, lo: int, hi: int, range_msg: Seq<char>, kind_msg: Seq<char>) -> Result<(OperandView, BuilderView), ErrDesc> {
    match pop_spec(b) {
        Ok((OperandView::Immediate(v), b2)) => if lo <= v <= hi {
            Ok((OperandView::Immediate(v), b2))
        } else {
            Err(err_at(b, range_msg))
        },
        Ok((OperandView::Label(l), b2)) => Ok((OperandView::Label(l), b2)),
        Ok(_) => Err(err_at(b, kind_msg)),
        Err(d) => Err(d),
    }
}

pub open spec fn addr_or_label_spec(b: BuilderView) -> Result<(OperandView, BuilderView), ErrDesc> {
    ranged_or_label_spec(b, 0, 65535, unsigned_word_msg(), expected_addr_or_label_msg())
}

pub open spec fn sbyte_or_label_spec(b: BuilderView) -> Result<(OperandView, BuilderView), ErrDesc> {
    ranged_or_label_spec(b, -128, 127, signed_byte_msg(), expected_addr_or_label_msg())
}

pub open spec fn ubyte_or_label_spec(b: BuilderView) -> Result<(OperandView, BuilderView), ErrDesc> {
    ranged_or_label_spec(b, 0, 255, unsigned_byte_msg(), expected_imm_or_label_msg())
}

pub open spec fn bit_id_or_label_spec(b: BuilderView) -> Result<(OperandView, BuilderView), ErrDesc> {
    ranged_or_label_spec(b, 0, 7, bit_id_msg(), expected_imm_or_label_msg())
}

/// The next operand, which must be a label.
pub open spec fn label_spec(b: BuilderView) -> Result<(Seq<char>, BuilderView), ErrDesc> {
    match pop_spec(b) {
        Ok((OperandView::Label(l), b2)) => Ok((l, b2)),
        Ok(_) => Err(err_at(b, expected_label_msg())),
        Err(d) => Err(d),
    }
}

/// The next operand, which must be a string.
pub open spec fn string_spec(b: BuilderView) -> Result<(Seq<char>, BuilderView), ErrDesc> {
    match pop_spec(b) {
        Ok((OperandView::String(s), b2)) => Ok((s, b2)),
        Ok(_) => Err(err_at(b, expected_string_msg())),
        Err(d) => Err(d),
    }
}

/// Every remaining operand, in order, or the first error.
pub open spec fn rest_spec(b: BuilderView, n: int) -> Result<Seq<OperandView>, ErrDesc>
    decreases n,
{
    if n <= 0 {
        Ok(Seq::empty())
    } else {
        match rest_spec(b, n - 1) {
            Err(d) => Err(d),
            Ok(prefix) => match operand_spec(b.texts[b.next + n - 1], b.line) {
                Ok(v) => Ok(prefix.push(v)),
                Err(d) => Err(d),
            },
        }
    }
}

pub open spec fn operands_spec(b: BuilderView) -> Result<Seq<OperandView>, ErrDesc> {
    if b.next >= b.texts.len() {
        Err(err_at(b, no_list_msg()))
    } else {
        rest_spec(b, b.texts.len() - b.next)
    }
}

pub open spec fn step_ok<T>(r: Result<T, AssemblyError>, after: AstBuilder, s: Result<(T, BuilderView), ErrDesc>) -> bool {
    match s {
        Ok((v, b2)) => r == Ok::<T, AssemblyError>(v) && after@ == b2 && after.wf(),
        Err(d) => r matches Err(e) && e.is(d.0, d.1, d.2),
    }
}

pub open spec fn op_step_ok(r: Result<Operand, AssemblyError>, after: AstBuilder, s: Result<(OperandView, BuilderView), ErrDesc>) -> bool {
    match s {
        Ok((v, b2)) => r matches Ok(o) && o@ == v && after@ == b2 && after.wf(),
        Err(d) => r matches Err(e) && e.is(d.0, d.1, d.2),
    }
}

pub open spec fn text_step_ok(r: Result<String, AssemblyError>, after: AstBuilder, s: Result<(Seq<char>, BuilderView), ErrDesc>) -> bool {
    match s {
        Ok((v, b2)) => r matches Ok(t) && t@ == v && after@ == b2 && after.wf(),
        Err(d) => r matches Err(e) && e.is(d.0, d.1, d.2),
    }
}

impl AstBuilder {
    /// Builds the next operand.
    pub fn pop_operand(&mut self) -> (r: Result<Operand, AssemblyError>)
        requires
            old(self).wf(),
        ensures
            op_step_ok(r, *final(self), pop_spec(old(self)@)),
    {
        if self.next >= self.pairs.len() {
            return Err(AssemblyError::StructuralError {
                line: self.line_number,
                reason: owned("Expected an operand, but found none."),
            });
        }
        let r = build_operand(self.pairs[self.next].as_slice(), self.line_number);
        self.next = self.next + 1;
        r
    }

    /// Reads the next operand as a condition code.
    pub fn pop_cc(&mut self) -> (r: Result<ConditionCode, AssemblyError>)
        requires
            old(self).wf(),
        ensures
            step_ok(r, *final(self), cc_spec(old(self)@)),
    {
        if self.next >= self.pairs.len() {
            return Err(AssemblyError::StructuralError {
                line: self.line_number,
                reason: owned("Expected a condition code, but found none."),
            });
        }
        let cc = build_condition_code(self.pairs[self.next].as_slice());
        self.next = self.next + 1;
        match cc {
            Some(c) => Ok(c),
            None => Err(AssemblyError::StructuralError { line: self.line_number, reason: owned("Invalid condition code.") }),
        }
    }

    /// The next operand, which must be a register.
    pub fn expect_register(&mut self) -> (r: Result<Register, AssemblyError>)
        requires
            old(self).wf(),
        ensures
            step_ok(r, *final(self), register_spec(old(self)@)),
    {
        let op = self.pop_operand();
        match op {
            Ok(Operand::Register(r)) => Ok(r),
            Ok(_) => Err(AssemblyError::StructuralError {
                line: self.line_number,
                reason: owned("Expected a register operand (R0-R7)."),
            }),
            Err(e) => Err(e),
        }
    }

    fn expect_ranged(&mut self, lo: i32, hi: i32, range_msg: &str, kind_msg: &str) -> (r: Result<i32, AssemblyError>)
        requires
            old(self).wf(),
        ensures
            step_ok(r, *final(self), ranged_spec(old(self)@, lo as int, hi as int, range_msg@, kind_msg@)),
    {
        let op = self.pop_operand();
        match op {
            Ok(Operand::Immediate(v)) => {
                if v < lo || v > hi {
                    Err(AssemblyError::StructuralError { line: self.line_number, reason: owned(range_msg) })
                } else {
                    Ok(v)
                }
            },
            Ok(_) => Err(AssemblyError::StructuralError { line: self.line_number, reason: owned(kind_msg) }),
            Err(e) => Err(e),
        }
    }

    fn expect_ranged_or_label(&mut self, lo: i32, hi: i32, range_msg: &str, kind_msg: &str) -> (r: Result<Operand, AssemblyError>)
        requires
            old(self).wf(),
        ensures
            op_step_ok(r, *final(self), ranged_or_label_spec(old(self)@, lo as int, hi as int, range_msg@, kind_msg@)),
    {
        let op = self.pop_operand();
        match op {
            Ok(Operand::Immediate(v)) => {
                if v < lo || v > hi {
                    Err(AssemblyError::StructuralError { line: self.line_number, reason: owned(range_msg) })
                } else {
                    Ok(Operand::Immediate(v))
                }
            },
            Ok(Operand::Label(l)) => Ok(Operand::Label(l)),
            Ok(_) => Err(AssemblyError::StructuralError { line: self.line_number, reason: owned(kind_msg) }),
            Err(e) => Err(e),
        }
    }

    /// The next operand, which must be a number that fits an unsigned byte.
    pub fn expect_unsigned_byte(&mut self) -> (r: Result<u8, AssemblyError>)
        requires
            old(self).wf(),
        ensures
            match ranged_spec(old(self)@, 0, 255, unsigned_byte_msg(), expected_byte_msg()) {
                Ok((v, b2)) => r == Ok::<u8, AssemblyError>(v as u8) && final(self)@ == b2 && final(self).wf(),
                Err(d) => r matches Err(e) && e.is(d.0, d.1, d.2),
            },
    {
        match self.expect_ranged(0, 255, "Value must be an unsigned 8 bit value, (max: 255, min: 0)", "Expected an immediate byte value.") {
            Ok(v) => Ok(v as u8),
            Err(e) => Err(e),
        }
    }

    /// The next operand, which must be a number that fits a signed byte.
    pub fn expect_signed_byte(&mut self) -> (r: Result<i8, AssemblyError>)
        requires
            old(self).wf(),
        ensures
            match ranged_spec(old(self)@, -128, 127, signed_byte_msg(), expected_byte_msg()) {
                Ok((v, b2)) => r == Ok::<i8, AssemblyError>(v as i8) && final(self)@ == b2 && final(self).wf(),
                Err(d) => r matches Err(e) && e.is(d.0, d.1, d.2),
            },
    {
        match self.expect_ranged(-128, 127, "Value must be a signed 8 bit value, (max: 127, min: -128)", "Expected an immediate byte value.") {
            Ok(v) => Ok(v as i8),
            Err(e) => Err(e),
        }
    }

    /// The next operand, which must be a number naming one of a byte's bits.
    pub fn expect_bit_id(&mut self) -> (r: Result<u8, AssemblyError>)
        requires
            old(self).wf(),
        ensures
            match ranged_spec(old(self)@, 0, 7, bit_id_msg(), expected_immediate_msg()) {
                Ok((v, b2)) => r == Ok::<u8, AssemblyError>(v as u8) && final(self)@ == b2 && final(self).wf(),
                Err(d) => r matches Err(e) && e.is(d.0, d.1, d.2),
            },
    {
        match self.expect_ranged(0, 7, "Value must be a bit ID value between 0 and 7 inclusive", "Expected an immediate value.") {
            Ok(v) => Ok(v as u8),
            Err(e) => Err(e),
        }
    }

    /// The next operand, which may be any number.
    pub fn expect_immediate(&mut self) -> (r: Result<i32, AssemblyError>)
        requires
            old(self).wf(),
        ensures
            step_ok(r, *final(self), ranged_spec(old(self)@, i32::MIN as int, i32::MAX as int, expected_immediate_msg(), expected_immediate_msg())),
    {
        self.expect_ranged(i32::MIN, i32::MAX, "Expected an immediate value.", "Expected an immediate value.")
    }

    /// The next operand, which must be a number that fits an unsigned word.
    pub fn expect_addr(&mut self) -> (r: Result<u16, AssemblyError>)
        requires
            old(self).wf(),
        ensures
            match ranged_spec(old(self)@, 0, 65535, unsigned_word_msg(), expected_addr_msg()) {
                Ok((v, b2)) => r == Ok::<u16, AssemblyError>(v as u16) && final(self)@ == b2 && final(self).wf(),
                Err(d) => r matches Err(e) && e.is(d.0, d.1, d.2),
            },
    {
        match self.expect_ranged(0, 65535, "Value must be an unsigned 16 bit value, (max: 65535, min: 0)", "Expected an address value.") {
            Ok(v) => Ok(v as u16),
            Err(e) => Err(e),
        }
    }

    /// The next operand, which must be a label.
    pub fn expect_label(&mut self) -> (r: Result<String, AssemblyError>)
        requires
            old(self).wf(),
        ensures
            text_step_ok(r, *final(self), label_spec(old(self)@)),
    {
        let op = self.pop_operand();
        match op {
            Ok(Operand::Label(l)) => Ok(l),
            Ok(_) => Err(AssemblyError::StructuralError { line: self.line_number, reason: owned("Expected a label.") }),
            Err(e) => Err(e),
        }
    }

    /// The next operand, which must be a string.
    pub fn expect_string_literal(&mut self) -> (r: Result<String, AssemblyError>)
        requires
            old(self).wf(),
        ensures
            text_step_ok(r, *final(self), string_spec(old(self)@)),
    {
        let op = self.pop_operand();
        match op {
            Ok(Operand::String(s)) => Ok(s),
            Ok(_) => Err(AssemblyError::StructuralError { line: self.line_number, reason: owned("Expected a string literal.") }),
            Err(e) => Err(e),
        }
    }

    /// The next operand: an address that fits a word, or a label.
    pub fn expect_addr_or_label(&mut self) -> (r: Result<Operand, AssemblyError>)
        requires
            old(self).wf(),
        ensures
            op_step_ok(r, *final(self), addr_or_label_spec(old(self)@)),
    {
        self.expect_ranged_or_label(0, 65535, "Value must be an unsigned 16 bit value, (max: 65535, min: 0)", "Expected an address or label.")
    }

    /// The next operand: a signed byte, or a label.
    pub fn expect_sbyte_or_label(&mut self) -> (r: Result<Operand, AssemblyError>)
        requires
            old(self).wf(),
        ensures
            op_step_ok(r, *final(self), sbyte_or_label_spec(old(self)@)),
    {
        self.expect_ranged_or_label(-128, 127, "Value must be a signed 8 bit value, (max: 127, min: -128)", "Expected an address or label.")
    }

    /// The next operand: an unsigned byte, or a label.
    pub fn expect_unsigned_byte_or_label(&mut self) -> (r: Result<Operand, AssemblyError>)
        requires
            old(self).wf(),
        ensures
            op_step_ok(r, *final(self), ubyte_or_label_spec(old(self)@)),
    {
        self.expect_ranged_or_label(0, 255, "Value must be an unsigned 8 bit value, (max: 255, min: 0)", "Expected an immediate value or label.")
    }

    /// The next operand: a bit number, or a label.
    pub fn expect_bit_id_or_label(&mut self) -> (r: Result<Operand, AssemblyError>)
        requires
            old(self).wf(),
        ensures
            op_step_ok(r, *final(self), bit_id_or_label_spec(old(self)@)),
    {
        self.expect_ranged_or_label(0, 7, "Value must be a bit ID value between 0 and 7 inclusive", "Expected an immediate value or label.")
    }

    /// Every remaining operand, in order; there must be at least one.
    pub fn expect_op_vector(&mut self) -> (r: Result<Vec<Operand>, AssemblyError>)
        requires
            old(self).wf(),
        ensures
            match operands_spec(old(self)@) {
                Ok(vs) => r matches Ok(v) && v@.len() == vs.len()
                    && forall|i: int| 0 <= i < vs.len() ==> (#[trigger] v@[i])@ == vs[i],
                Err(d) => r matches Err(e) && e.is(d.0, d.1, d.2),
            },
    {
        let ghost b = self@;
        if self.next >= self.pairs.len() {
            return Err(AssemblyError::StructuralError {
                line: self.line_number,
                reason: owned("Expected a list of operands."),
            });
        }
        let mut ops: Vec<Operand> = Vec::new();
        let start = self.next;
        while self.next < self.pairs.len()
            invariant
                self.wf(),
                b == old(self)@,
                b.line == self.line_number,
                b.texts == self@.texts,
                start == b.next,
                start <= self.next <= self.pairs@.len(),
                rest_spec(b, self.next - start) matches Ok(vs) && ops@.len() == vs.len()
                    && forall|i: int| 0 <= i < vs.len() ==> (#[trigger] ops@[i])@ == vs[i],
            decreases self.pairs@.len() - self.next,
        {
            let ghost k = self.next - start;
            assert(b.texts[b.next + k] == self.pairs@[self.next as int]@);
            let op = build_operand(self.pairs[self.next].as_slice(), self.line_number);
            self.next = self.next + 1;
            match op {
                Ok(o) => {
                    ops.push(o);
                },
                Err(e) => {
                    proof {
                        assert(rest_spec(b, k + 1) is Err);
                        lemma_rest_error_extends(b, k + 1, b.texts.len() - b.next);
                    }
                    return Err(e);
                },
            }
        }
        Ok(ops)
    }
}

proof fn lemma_rest_error_extends(b: BuilderView, n: int, m: int)
    requires
        0 <= n <= m,
        rest_spec(b, n) is Err,
    ensures
        rest_spec(b, m) == rest_spec(b, n),
    decreases m - n,
{
    if n < m {
        lemma_rest_error_extends(b, n + 1, m);
    }
}

} // verus!
