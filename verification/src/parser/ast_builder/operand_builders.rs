use vstd::prelude::*;
use crate::ast::{cc_name, reg_index, register_of, ConditionCode, Operand, OperandView, Register};
use crate::errors::{desc, AssemblyError, ErrDesc, ErrorKind};
use crate::parser::ast_builder::utility_functions::{check_signed_byte, signed_byte_msg};
use crate::parser::lexer::{
    all_dec_digits, all_hex_digits, digit_value, digits_to_value, digits_value, is_dec_digit, is_dec_digit_char,
    is_hex_digit, is_hex_digit_char, is_ident_char, is_ident_char_char, is_ident_start, is_ident_start_char,
    is_identifier, sub_chars, trim_chars, trimmed,
};
use crate::text::{join2, owned, string_from_chars};

verus! {

pub open spec fn invalid_register_msg() -> Seq<char> {
    "Invalid register identifier, must be R0-R7."@
}

pub open spec fn invalid_hex_msg(body: Seq<char>) -> Seq<char> {
    "Invalid hex value: "@ + body
}

pub open spec fn invalid_dec_msg(t: Seq<char>) -> Seq<char> {
    "Invalid decimal value: "@ + t
}

pub open spec fn invalid_operand_msg(t: Seq<char>) -> Seq<char> {
    "Invalid operand: "@ + t
}

pub open spec fn abs_dec_msg() -> Seq<char> {
    "Expected a hex value or label for absolute addressing."@
}

pub open spec fn offset_msg() -> Seq<char> {
    "Expected an immediate value or label for offset."@
}

pub open spec fn indexed_reg_msg() -> Seq<char> {
    "Expected a register for indexed addressing."@
}

pub open spec fn indirect_reg_msg() -> Seq<char> {
    "Expected a register for indirect addressing."@
}

pub open spec fn predec_reg_msg() -> Seq<char> {
    "Expected a register for pre-decrement addressing."@
}

pub open spec fn postinc_reg_msg() -> Seq<char> {
    "Expected a register for post-increment addressing."@
}

/// `r` or `R` and one digit.
pub open spec fn is_register_text(t: Seq<char>) -> bool {
    t.len() == 2 && (t[0] == 'r' || t[0] == 'R') && is_dec_digit(t[1])
}

/// `0x` or `0X` and hexadecimal digits.
pub open spec fn is_hex_literal(t: Seq<char>) -> bool {
    t.len() >= 3 && t[0] == '0' && (t[1] == 'x' || t[1] == 'X') && all_hex_digits(t.subrange(2, t.len() as int))
}

/// The digits of a decimal literal, after its sign.
pub open spec fn dec_digits(t: Seq<char>) -> Seq<char> {
    if t.len() > 0 && t[0] == '-' {
        t.drop_first()
    } else {
        t
    }
}

/// An optional minus sign and decimal digits.
pub open spec fn is_dec_literal(t: Seq<char>) -> bool {
    dec_digits(t).len() > 0 && all_dec_digits(dec_digits(t))
}

/// The value a decimal literal writes.
pub open spec fn dec_value(t: Seq<char>) -> int {
    if t.len() > 0 && t[0] == '-' {
        -digits_value(t.drop_first(), 10)
    } else {
        digits_value(t, 10)
    }
}

/// The register a register literal names.
pub open spec fn register_spec(t: Seq<char>, line: usize) -> Result<Register, ErrDesc> {
    if digit_value(t[1]) <= 7 {
        Ok(register_of(digit_value(t[1])))
    } else {
        Err(desc(ErrorKind::Structure, Some(line), invalid_register_msg()))
    }
}

/// The value of a number literal: hexadecimal or decimal, as an `i32`.
pub open spec fn number_spec(t: Seq<char>, line: usize) -> Result<i32, ErrDesc> {
    if is_hex_literal(t) {
        let body = t.subrange(2, t.len() as int);
        if digits_value(body, 16) <= i32::MAX {
            Ok(digits_value(body, 16) as i32)
        } else {
            Err(desc(ErrorKind::Structure, Some(line), invalid_hex_msg(body)))
        }
    } else {
        if i32::MIN <= dec_value(t) <= i32::MAX {
            Ok(dec_value(t) as i32)
        } else {
            Err(desc(ErrorKind::Structure, Some(line), invalid_dec_msg(t)))
        }
    }
}

pub open spec fn map_reg(r: Result<Register, ErrDesc>, f: spec_fn(Register) -> OperandView) -> Result<OperandView, ErrDesc> {
    match r {
        Ok(reg) => Ok(f(reg)),
        Err(d) => Err(d),
    }
}

/// `(inner)`: a register, a hexadecimal address or a label.
pub open spec fn absolute_or_indirect_spec(inner: Seq<char>, t: Seq<char>, line: usize) -> Result<OperandView, ErrDesc> {
    if is_register_text(inner) {
        map_reg(register_spec(inner, line), |r: Register| OperandView::Indirect(r))
    } else if is_hex_literal(inner) {
        let body = inner.subrange(2, inner.len() as int);
        if digits_value(body, 16) <= 0xFFFF {
            Ok(OperandView::AbsAddr(digits_value(body, 16) as u16))
        } else {
            Err(desc(ErrorKind::Structure, Some(line), invalid_hex_msg(body)))
        }
    } else if is_identifier(inner) {
        Ok(OperandView::AbsLabel(inner))
    } else if is_dec_literal(inner) {
        Err(desc(ErrorKind::Structure, Some(line), abs_dec_msg()))
    } else {
        Err(desc(ErrorKind::Syntax, Some(line), invalid_operand_msg(t)))
    }
}

/// `(reg, offset)`: the offset a signed byte or a label.
pub open spec fn indexed_spec(reg: Seq<char>, off: Seq<char>, line: usize) -> Result<OperandView, ErrDesc> {
    if !is_register_text(reg) {
        Err(desc(ErrorKind::Structure, Some(line), indexed_reg_msg()))
    } else {
        match register_spec(reg, line) {
            Err(d) => Err(d),
            Ok(r) => if is_hex_literal(off) || is_dec_literal(off) {
                match number_spec(off, line) {
                    Err(d) => Err(d),
                    Ok(v) => if -128 <= v <= 127 {
                        Ok(OperandView::Indexed(r, v as i8))
                    } else {
                        Err(desc(ErrorKind::Structure, Some(line), signed_byte_msg()))
                    },
                }
            } else if is_identifier(off) {
                Ok(OperandView::IndexedLabel(r, off))
            } else {
                Err(desc(ErrorKind::Structure, Some(line), offset_msg()))
            },
        }
    }
}

/// The position of the first comma in `s`, if any.
pub open spec fn comma_at(s: Seq<char>, k: int) -> bool {
    0 <= k < s.len() && s[k] == ','
        && forall|j: int| 0 <= j < k ==> #[trigger] s[j] != ','
}

pub open spec fn has_comma(s: Seq<char>) -> bool {
    exists|j: int| 0 <= j < s.len() && #[trigger] s[j] == ','
}

/// The operand a piece of source text writes, `t` trimmed and not empty:
/// a string, `-(reg)`, `(reg)+`, `(reg, offset)`, `(reg)`, `(address)`,
/// `(label)`, a number, a register or a label.
pub open spec fn operand_spec(t: Seq<char>, line: usize) -> Result<OperandView, ErrDesc> {
    let n = t.len() as int;
    if n >= 2 && t[0] == '"' && t[n - 1] == '"' {
        Ok(OperandView::String(t.subrange(1, n - 1)))
    } else if n >= 3 && t[0] == '-' && t[1] == '(' && t[n - 1] == ')' {
        let inner = trimmed(t.subrange(2, n - 1));
        if is_register_text(inner) {
            map_reg(register_spec(inner, line), |r: Register| OperandView::PreDecrement(r))
        } else {
            Err(desc(ErrorKind::Structure, Some(line), predec_reg_msg()))
        }
    } else if n >= 3 && t[0] == '(' && t[n - 2] == ')' && t[n - 1] == '+' {
        let inner = trimmed(t.subrange(1, n - 2));
        if is_register_text(inner) {
            map_reg(register_spec(inner, line), |r: Register| OperandView::PostIncrement(r))
        } else {
            Err(desc(ErrorKind::Structure, Some(line), postinc_reg_msg()))
        }
    } else if n >= 2 && t[0] == '(' && t[n - 1] == ')' {
        let inner = t.subrange(1, n - 1);
        if has_comma(inner) {
            let k = choose|k: int| comma_at(inner, k);
            indexed_spec(trimmed(inner.subrange(0, k)), trimmed(inner.subrange(k + 1, inner.len() as int)), line)
        } else {
            absolute_or_indirect_spec(trimmed(inner), t, line)
        }
    } else if is_hex_literal(t) || is_dec_literal(t) {
        match number_spec(t, line) {
            Ok(v) => Ok(OperandView::Immediate(v)),
            Err(d) => Err(d),
        }
    } else if is_register_text(t) {
        map_reg(register_spec(t, line), |r: Register| OperandView::Register(r))
    } else if is_identifier(t) {
        Ok(OperandView::Label(t))
    } else {
        Err(desc(ErrorKind::Syntax, Some(line), invalid_operand_msg(t)))
    }
}

/// The operand result agrees with what the spec describes.
pub open spec fn operand_matches(r: Result<Operand, AssemblyError>, s: Result<OperandView, ErrDesc>) -> bool {
    match s {
        Ok(v) => r matches Ok(o) && o@ == v,
        Err(d) => r matches Err(e) && e.is(d.0, d.1, d.2),
    }
}

pub fn is_register_literal(t: &[char]) -> (b: bool)
    ensures
        b == is_register_text(t@),
{
    t.len() == 2 && (t[0] == 'r' || t[0] == 'R') && is_dec_digit_char(t[1])
}

fn all_hex_from(t: &[char], start: usize) -> (b: bool)
    requires
        start <= t@.len(),
    ensures
        b == all_hex_digits(t@.subrange(start as int, t@.len() as int)),
{
    let mut i = start;
    while i < t.len()
        invariant
            start <= i <= t@.len(),
            forall|k: int| start <= k < i ==> is_hex_digit(#[trigger] t@[k]),
        decreases t@.len() - i,
    {
        if !is_hex_digit_char(t[i]) {
            assert(t@.subrange(start as int, t@.len() as int)[i - start] == t@[i as int]);
            return false;
        }
        i = i + 1;
    }
    assert forall|k: int| 0 <= k < t@.len() - start implies is_hex_digit(
        #[trigger] t@.subrange(start as int, t@.len() as int)[k],
    ) by {
        assert(t@.subrange(start as int, t@.len() as int)[k] == t@[start + k]);
    }
    true
}

fn all_dec_from(t: &[char], start: usize) -> (b: bool)
    requires
        start <= t@.len(),
    ensures
        b == all_dec_digits(t@.subrange(start as int, t@.len() as int)),
{
    let mut i = start;
    while i < t.len()
        invariant
            start <= i <= t@.len(),
            forall|k: int| start <= k < i ==> is_dec_digit(#[trigger] t@[k]),
        decreases t@.len() - i,
    {
        if !is_dec_digit_char(t[i]) {
            assert(t@.subrange(start as int, t@.len() as int)[i - start] == t@[i as int]);
            return false;
        }
        i = i + 1;
    }
    assert forall|k: int| 0 <= k < t@.len() - start implies is_dec_digit(
        #[trigger] t@.subrange(start as int, t@.len() as int)[k],
    ) by {
        assert(t@.subrange(start as int, t@.len() as int)[k] == t@[start + k]);
    }
    true
}

pub fn is_hex_literal_text(t: &[char]) -> (b: bool)
    ensures
        b == is_hex_literal(t@),
{
    t.len() >= 3 && t[0] == '0' && (t[1] == 'x' || t[1] == 'X') && all_hex_from(t, 2)
}

pub fn is_dec_literal_text(t: &[char]) -> (b: bool)
    ensures
        b == is_dec_literal(t@),
{
    if t.len() > 0 && t[0] == '-' {
        assert(t@.drop_first() == t@.subrange(1, t@.len() as int));
        t.len() > 1 && all_dec_from(t, 1)
    } else {
        assert(t@ == t@.subrange(0, t@.len() as int));
        t.len() > 0 && all_dec_from(t, 0)
    }
}

pub fn is_identifier_text(t: &[char]) -> (b: bool)
    ensures
        b == is_identifier(t@),
{
    if t.len() == 0 || !is_ident_start_char(t[0]) {
        return false;
    }
    let mut i: usize = 1;
    while i < t.len()
        invariant
            1 <= i <= t@.len(),
            forall|k: int| 1 <= k < i ==> is_ident_char(#[trigger] t@[k]),
        decreases t@.len() - i,
    {
        if !is_ident_char_char(t[i]) {
            return false;
        }
        i = i + 1;
    }
    true
}

fn register_from_digit(d: char) -> (r: Register)
    requires
        '0' <= d <= '7',
    ensures
        r == register_of(digit_value(d)),
{
    if d == '0' {
        Register::R0
    } else if d == '1' {
        Register::R1
    } else if d == '2' {
        Register::R2
    } else if d == '3' {
        Register::R3
    } else if d == '4' {
        Register::R4
    } else if d == '5' {
        Register::R5
    } else if d == '6' {
        Register::R6
    } else {
        Register::R7
    }
}

/// The register a register literal names.
pub fn parse_register(t: &[char], line: usize) -> (r: Result<Register, AssemblyError>)
    requires
        is_register_text(t@),
    ensures
        match register_spec(t@, line) {
            Ok(reg) => r == Ok::<Register, AssemblyError>(reg),
            Err(d) => r matches Err(e) && e.is(d.0, d.1, d.2),
        },
{
    if t[1] <= '7' {
        Ok(register_from_digit(t[1]))
    } else {
        Err(AssemblyError::StructuralError { line, reason: owned("Invalid register identifier, must be R0-R7.") })
    }
}

/// The value of a number literal.
pub fn parse_number(t: &[char], line: usize) -> (r: Result<i32, AssemblyError>)
    requires
        is_hex_literal(t@) || is_dec_literal(t@),
    ensures
        match number_spec(t@, line) {
            Ok(v) => r == Ok::<i32, AssemblyError>(v),
            Err(d) => r matches Err(e) && e.is(d.0, d.1, d.2),
        },
{
    if is_hex_literal_text(t) {
        let body = sub_chars(t, 2, t.len());
        match digits_to_value(body.as_slice(), 16, 0x7FFF_FFFF) {
            Some(v) => Ok(v as i32),
            None => {
                let b = string_from_chars(body.as_slice());
                Err(AssemblyError::StructuralError { line, reason: join2("Invalid hex value: ", b.as_str()) })
            },
        }
    } else {
        let negative = t[0] == '-';
        let start: usize = if negative { 1 } else { 0 };
        let digits = sub_chars(t, start, t.len());
        proof {
            if negative {
                assert(digits@ == t@.drop_first());
            } else {
                assert(digits@ == t@);
            }
        }
        let bound: u64 = if negative { 0x8000_0000 } else { 0x7FFF_FFFF };
        match digits_to_value(digits.as_slice(), 10, bound) {
            Some(v) => {
                if negative {
                    Ok((0 - (v as i64)) as i32)
                } else {
                    Ok(v as i32)
                }
            },
            None => {
                let s = string_from_chars(t);
                Err(AssemblyError::StructuralError { line, reason: join2("Invalid decimal value: ", s.as_str()) })
            },
        }
    }
}

/// A register operand.
pub fn build_register(t: &[char], line: usize) -> (r: Result<Operand, AssemblyError>)
    requires
        is_register_text(t@),
    ensures
        operand_matches(r, map_reg(register_spec(t@, line), |r: Register| OperandView::Register(r))),
{
    match parse_register(t, line) {
        Ok(reg) => Ok(Operand::Register(reg)),
        Err(e) => Err(e),
    }
}

/// A hexadecimal immediate.
pub fn build_immediate_hex(t: &[char], line: usize) -> (r: Result<Operand, AssemblyError>)
    requires
        is_hex_literal(t@),
    ensures
        operand_matches(
            r,
            match number_spec(t@, line) {
                Ok(v) => Ok(OperandView::Immediate(v)),
                Err(d) => Err(d),
            },
        ),
{
    match parse_number(t, line) {
        Ok(v) => Ok(Operand::Immediate(v)),
        Err(e) => Err(e),
    }
}

/// A decimal immediate.
pub fn build_immediate_dec(t: &[char], line: usize) -> (r: Result<Operand, AssemblyError>)
    requires
        is_dec_literal(t@),
    ensures
        operand_matches(
            r,
            match number_spec(t@, line) {
                Ok(v) => Ok(OperandView::Immediate(v)),
                Err(d) => Err(d),
            },
        ),
{
    match parse_number(t, line) {
        Ok(v) => Ok(Operand::Immediate(v)),
        Err(e) => Err(e),
    }
}

/// A label.
pub fn build_identifier(t: &[char]) -> (r: Operand)
    ensures
        r@ == OperandView::Label(t@),
{
    Operand::Label(string_from_chars(t))
}

/// `(reg)`.
pub fn build_indirect(inner: &[char], line: usize) -> (r: Result<Operand, AssemblyError>)
    ensures
        operand_matches(
            r,
            if is_register_text(inner@) {
                map_reg(register_spec(inner@, line), |r: Register| OperandView::Indirect(r))
            } else {
                Err(desc(ErrorKind::Structure, Some(line), indirect_reg_msg()))
            },
        ),
{
    if !is_register_literal(inner) {
        return Err(AssemblyError::StructuralError {
            line,
            reason: owned("Expected a register for indirect addressing."),
        });
    }
    match parse_register(inner, line) {
        Ok(reg) => Ok(Operand::Indirect(reg)),
        Err(e) => Err(e),
    }
}

/// `-(reg)`.
pub fn build_pre_decrement(inner: &[char], line: usize) -> (r: Result<Operand, AssemblyError>)
    ensures
        operand_matches(
            r,
            if is_register_text(inner@) {
                map_reg(register_spec(inner@, line), |r: Register| OperandView::PreDecrement(r))
            } else {
                Err(desc(ErrorKind::Structure, Some(line), predec_reg_msg()))
            },
        ),
{
    if !is_register_literal(inner) {
        return Err(AssemblyError::StructuralError {
            line,
            reason: owned("Expected a register for pre-decrement addressing."),
        });
    }
    match parse_register(inner, line) {
        Ok(reg) => Ok(Operand::PreDecrement(reg)),
        Err(e) => Err(e),
    }
}

/// `(reg)+`.
pub fn build_post_increment(inner: &[char], line: usize) -> (r: Result<Operand, AssemblyError>)
    ensures
        operand_matches(
            r,
            if is_register_text(inner@) {
                map_reg(register_spec(inner@, line), |r: Register| OperandView::PostIncrement(r))
            } else {
                Err(desc(ErrorKind::Structure, Some(line), postinc_reg_msg()))
            },
        ),
{
    if !is_register_literal(inner) {
        return Err(AssemblyError::StructuralError {
            line,
            reason: owned("Expected a register for post-increment addressing."),
        });
    }
    match parse_register(inner, line) {
        Ok(reg) => Ok(Operand::PostIncrement(reg)),
        Err(e) => Err(e),
    }
}

/// `(inner)` without a comma: a register, an address or a label.
pub fn build_absolute(inner: &[char], t: &[char], line: usize) -> (r: Result<Operand, AssemblyError>)
    ensures
        operand_matches(r, absolute_or_indirect_spec(inner@, t@, line)),
{
    if is_register_literal(inner) {
        return build_indirect(inner, line);
    }
    if is_hex_literal_text(inner) {
        let body = sub_chars(inner, 2, inner.len());
        return match digits_to_value(body.as_slice(), 16, 0xFFFF) {
            Some(v) => Ok(Operand::AbsAddr(v as u16)),
            None => {
                let b = string_from_chars(body.as_slice());
                Err(AssemblyError::StructuralError { line, reason: join2("Invalid hex value: ", b.as_str()) })
            },
        };
    }
    if is_identifier_text(inner) {
        return Ok(Operand::AbsLabel(string_from_chars(inner)));
    }
    if is_dec_literal_text(inner) {
        return Err(AssemblyError::StructuralError {
            line,
            reason: owned("Expected a hex value or label for absolute addressing."),
        });
    }
    let s = string_from_chars(t);
    Err(AssemblyError::SyntaxError { line, reason: join2("Invalid operand: ", s.as_str()) })
}

/// `(reg, offset)`.
pub fn build_indexed(reg: &[char], off: &[char], line: usize) -> (r: Result<Operand, AssemblyError>)
    ensures
        operand_matches(r, indexed_spec(reg@, off@, line)),
{
    if !is_register_literal(reg) {
        return Err(AssemblyError::StructuralError { line, reason: owned("Expected a register for indexed addressing.") });
    }
    let rg = match parse_register(reg, line) {
        Ok(rg) => rg,
        Err(e) => {
            return Err(e);
        },
    };
    if is_hex_literal_text(off) || is_dec_literal_text(off) {
        let v = match parse_number(off, line) {
            Ok(v) => v,
            Err(e) => {
                return Err(e);
            },
        };
        match check_signed_byte(v, line) {
            Ok(()) => Ok(Operand::Indexed(rg, v as i8)),
            Err(e) => Err(e),
        }
    } else if is_identifier_text(off) {
        Ok(Operand::IndexedLabel(rg, string_from_chars(off)))
    } else {
        Err(AssemblyError::StructuralError { line, reason: owned("Expected an immediate value or label for offset.") })
    }
}

/// A string literal's contents.
pub fn build_string_literal(content: &[char]) -> (r: Operand)
    ensures
        r@ == OperandView::String(content@),
{
    Operand::String(string_from_chars(content))
}

/// The condition a condition code name stands for, in any case.
pub open spec fn condition_code_spec(t: Seq<char>) -> Option<ConditionCode> {
    let l = lower_text(t);
    if l.len() == 1 && l[0] == 'z' {
        Some(ConditionCode::Z)
    } else if l.len() == 2 && l[0] == 'n' && l[1] == 'z' {
        Some(ConditionCode::Nz)
    } else if l.len() == 1 && l[0] == 'c' {
        Some(ConditionCode::C)
    } else if l.len() == 2 && l[0] == 'n' && l[1] == 'c' {
        Some(ConditionCode::Nc)
    } else if l.len() == 1 && l[0] == 'n' {
        Some(ConditionCode::N)
    } else if l.len() == 2 && l[0] == 'n' && l[1] == 'n' {
        Some(ConditionCode::Nn)
    } else if l.len() == 1 && l[0] == 'v' {
        Some(ConditionCode::V)
    } else if l.len() == 2 && l[0] == 'n' && l[1] == 'v' {
        Some(ConditionCode::Nv)
    } else {
        None
    }
}

pub open spec fn lower(c: char) -> char {
    if 'A' <= c && c <= 'Z' {
        ((c as u32) + 32) as char
    } else {
        c
    }
}

pub open spec fn lower_text(t: Seq<char>) -> Seq<char> {
    t.map_values(|c: char| lower(c))
}

pub fn lower_char(c: char) -> (l: char)
    ensures
        l == lower(c),
{
    if 'A' <= c && c <= 'Z' {
        ((c as u8) + 32) as char
    } else {
        c
    }
}

pub fn to_lower(t: &[char]) -> (l: Vec<char>)
    ensures
        l@ == lower_text(t@),
{
    let mut l: Vec<char> = Vec::new();
    let mut i: usize = 0;
    while i < t.len()
        invariant
            i <= t@.len(),
            l@ == t@.subrange(0, i as int).map_values(|c: char| lower(c)),
        decreases t@.len() - i,
    {
        l.push(lower_char(t[i]));
        i = i + 1;
        assert(l@ =~= t@.subrange(0, i as int).map_values(|c: char| lower(c)));
    }
    assert(t@.subrange(0, i as int) == t@);
    l
}

pub fn chars_eq(a: &[char], b: &[char]) -> (r: bool)
    ensures
        r == (a@ == b@),
{
    if a.len() != b.len() {
        return false;
    }
    let mut i: usize = 0;
    while i < a.len()
        invariant
            a@.len() == b@.len(),
            i <= a@.len(),
            forall|k: int| 0 <= k < i ==> a@[k] == b@[k],
        decreases a@.len() - i,
    {
        if a[i] != b[i] {
            return false;
        }
        i = i + 1;
    }
    assert(a@ =~= b@);
    true
}

/// The condition a condition code name stands for.
pub fn build_condition_code(t: &[char]) -> (r: Option<ConditionCode>)
    ensures
        r == condition_code_spec(t@),
{
    let l = to_lower(t);
    let n = l.len();
    if n == 1 && l[0] == 'z' {
        Some(ConditionCode::Z)
    } else if n == 2 && l[0] == 'n' && l[1] == 'z' {
        Some(ConditionCode::Nz)
    } else if n == 1 && l[0] == 'c' {
        Some(ConditionCode::C)
    } else if n == 2 && l[0] == 'n' && l[1] == 'c' {
        Some(ConditionCode::Nc)
    } else if n == 1 && l[0] == 'n' {
        Some(ConditionCode::N)
    } else if n == 2 && l[0] == 'n' && l[1] == 'n' {
        Some(ConditionCode::Nn)
    } else if n == 1 && l[0] == 'v' {
        Some(ConditionCode::V)
    } else if n == 2 && l[0] == 'n' && l[1] == 'v' {
        Some(ConditionCode::Nv)
    } else {
        None
    }
}

/// Whether `m` is the word `w`.
pub fn is_word_text(m: &[char], w: &str) -> (b: bool)
    ensures
        b == (m@ == w@),
{
    let wc = crate::text::chars_of(w);
    chars_eq(m, wc.as_slice())
}

fn find_comma(s: &[char]) -> (r: Option<usize>)
    ensures
        r matches Some(k) ==> comma_at(s@, k as int),
        r is None ==> !has_comma(s@),
{
    let mut i: usize = 0;
    while i < s.len()
        invariant
            i <= s@.len(),
            forall|j: int| 0 <= j < i ==> #[trigger] s@[j] != ',',
        decreases s@.len() - i,
    {
        if s[i] == ',' {
            return Some(i);
        }
        i = i + 1;
    }
    None
}

proof fn lemma_comma_unique(s: Seq<char>, a: int, b: int)
    requires
        comma_at(s, a),
        comma_at(s, b),
    ensures
        a == b,
{
    if a < b {
        assert(s[a] != ',');
    } else if b < a {
        assert(s[b] != ',');
    }
}

/// The operand a piece of source text writes.
pub fn build_operand(t: &[char], line: usize) -> (r: Result<Operand, AssemblyError>)
    ensures
        operand_matches(r, operand_spec(t@, line)),
{
    let n = t.len();
    if n >= 2 && t[0] == '"' && t[n - 1] == '"' {
        let content = sub_chars(t, 1, n - 1);
        return Ok(build_string_literal(content.as_slice()));
    }
    if n >= 3 && t[0] == '-' && t[1] == '(' && t[n - 1] == ')' {
        let raw = sub_chars(t, 2, n - 1);
        let inner = trim_chars(raw.as_slice());
        return build_pre_decrement(inner.as_slice(), line);
    }
    if n >= 3 && t[0] == '(' && t[n - 2] == ')' && t[n - 1] == '+' {
        let raw = sub_chars(t, 1, n - 2);
        let inner = trim_chars(raw.as_slice());
        return build_post_increment(inner.as_slice(), line);
    }
    if n >= 2 && t[0] == '(' && t[n - 1] == ')' {
        let inner = sub_chars(t, 1, n - 1);
        match find_comma(inner.as_slice()) {
            Some(k) => {
                proof {
                    assert(has_comma(inner@)) by {
                        assert(inner@[k as int] == ',');
                    }
                    let c = choose|c: int| comma_at(inner@, c);
                    lemma_comma_unique(inner@, c, k as int);
                }
                let left = sub_chars(inner.as_slice(), 0, k);
                let right = sub_chars(inner.as_slice(), k + 1, inner.len());
                let reg = trim_chars(left.as_slice());
                let off = trim_chars(right.as_slice());
                return build_indexed(reg.as_slice(), off.as_slice(), line);
            },
            None => {
                let body = trim_chars(inner.as_slice());
                return build_absolute(body.as_slice(), t, line);
            },
        }
    }
    if is_hex_literal_text(t) {
        return build_immediate_hex(t, line);
    }
    if is_dec_literal_text(t) {
        return build_immediate_dec(t, line);
    }
    if is_register_literal(t) {
        return build_register(t, line);
    }
    if is_identifier_text(t) {
        return Ok(build_identifier(t));
    }
    let s = string_from_chars(t);
    Err(AssemblyError::SyntaxError { line, reason: join2("Invalid operand: ", s.as_str()) })
}

/// A condition code operand names its condition in any case: text stands
/// for condition `cc` exactly when, in lower case, it is the name of `cc`
/// (`z`, `nz`, `c`, `nc`, `n`, `nn`, `v`, `nv`).
pub proof fn lemma_condition_code_is_its_name(t: Seq<char>, cc: ConditionCode)
    ensures
        condition_code_spec(t) == Some(cc) <==> lower_text(t) == cc_name(cc),
{
    let l = lower_text(t);
    if condition_code_spec(t) == Some(cc) {
        assert(l =~= cc_name(cc));
    }
    if l == cc_name(cc) {
        assert(l.len() == cc_name(cc).len());
        assert(forall|i: int| 0 <= i < l.len() ==> l[i] == cc_name(cc)[i]);
    }
}

/// A register literal `r` followed by the digit `d` names register `d` for
/// a digit up to 7, the register that instructions then encode with number
/// `d`; a digit 8 or 9 names no register.
pub proof fn lemma_register_literal_names_its_number(r: char, d: char, line: usize)
    requires
        '0' <= d <= '9',
    ensures
        '0' <= d <= '7' ==> (register_spec(seq![r, d], line) matches Ok(reg) && reg_index(reg) as int == d as int - '0' as int),
        !('0' <= d <= '7') ==> register_spec(seq![r, d], line) is Err,
{
    assert(seq![r, d][1] == d);
}

} // verus!
