use vstd::prelude::*;
use crate::ast::{Directive, HeaderInfo, Operand, OperandView, SectionOptions};
use crate::errors::{desc, AssemblyError, ErrDesc, ErrorKind};
use crate::parser::ast_builder::shapes::a_spec;
use crate::parser::ast_builder::utility_functions::{check_unsigned_byte, check_unsigned_word, unsigned_byte_msg, unsigned_word_msg};
use crate::parser::ast_builder::operand_builders::{is_word_text, lower_text, to_lower};
use crate::parser::ast_builder::validators::{
    err_at, expected_addr_msg, expected_byte_msg, expected_immediate_msg, label_spec, operands_spec, pop_spec,
    ranged_spec, string_spec, BuilderView,
};
use crate::parser::lexer::{sub_chars, trim_chars, trimmed};
use crate::text::{join2, join3, string_from_chars};
use vstd::utf8::encode_utf8;
use crate::parser::ast_builder::AstBuilder;
use crate::text::owned;

verus! {

/// The directive result is an error described by `d`.
pub open spec fn dir_fails_with(r: Result<Directive, AssemblyError>, d: ErrDesc) -> bool {
    r matches Err(e) && e.is(d.0, d.1, d.2)
}

/// The first error a list of data operands gives: a number outside
/// `lo..=hi`, or an operand that is neither a number nor a label.
pub open spec fn data_error(ops: Seq<OperandView>, lo: int, hi: int, range_msg: Seq<char>, kind_msg: Seq<char>, line: usize) -> Option<ErrDesc>
    decreases ops.len(),
{
    if ops.len() == 0 {
        None
    } else {
        match data_error(ops.drop_last(), lo, hi, range_msg, kind_msg, line) {
            Some(d) => Some(d),
            None => match ops.last() {
                OperandView::Immediate(v) => if lo <= v <= hi {
                    None
                } else {
                    Some(desc(ErrorKind::Structure, Some(line), range_msg))
                },
                OperandView::Label(_) => None,
                _ => Some(desc(ErrorKind::Structure, Some(line), kind_msg)),
            },
        }
    }
}

pub open spec fn byte_kind_msg() -> Seq<char> {
    ".byte data must be a list of immediate values."@
}

pub open spec fn word_kind_msg() -> Seq<char> {
    ".word data must be a list of immediate values or labels."@
}

/// A data directive built from a checked list of operands.
pub open spec fn data_ok(
    b: BuilderView,
    r: Result<Directive, AssemblyError>,
    lo: int,
    hi: int,
    range_msg: Seq<char>,
    kind_msg: Seq<char>,
    is_word: bool,
) -> bool {
    match operands_spec(b) {
        Ok(vs) => match data_error(vs, lo, hi, range_msg, kind_msg, b.line) {
            Some(d) => dir_fails_with(r, d),
            None => if is_word {
                r matches Ok(Directive::Word(v)) && v@.len() == vs.len() && forall|i: int|
                    0 <= i < vs.len() ==> (#[trigger] v@[i])@ == vs[i]
            } else {
                r matches Ok(Directive::Byte(v)) && v@.len() == vs.len() && forall|i: int|
                    0 <= i < vs.len() ==> (#[trigger] v@[i])@ == vs[i]
            },
        },
        Err(d) => dir_fails_with(r, d),
    }
}

pub open spec fn build_org_directive_ok(b: BuilderView, r: Result<Directive, AssemblyError>) -> bool {
    match a_spec(b) {
        Ok(v) => r matches Ok(Directive::Org(o)) && o@ == v,
        Err(d) => dir_fails_with(r, d),
    }
}

pub open spec fn build_bank_directive_ok(b: BuilderView, r: Result<Directive, AssemblyError>) -> bool {
    match pop_spec(b) {
        Ok((v, _)) => match v {
            OperandView::Immediate(n) => if 0 <= n <= 256 {
                r matches Ok(Directive::Bank(o)) && o@ == v
            } else {
                dir_fails_with(r, err_at(b, ".bank number must be an unsigned value between 0 and 256"@))
            },
            OperandView::Label(_) => r matches Ok(Directive::Bank(o)) && o@ == v,
            _ => dir_fails_with(r, err_at(b, ".bank argument must be an immediate value."@)),
        },
        Err(d) => dir_fails_with(r, d),
    }
}

pub open spec fn build_define_directive_ok(b: BuilderView, r: Result<Directive, AssemblyError>) -> bool {
    match label_spec(b) {
        Ok((l, b1)) => match pop_spec(b1) {
            Ok((v, _)) => match v {
                OperandView::Immediate(_) => r matches Ok(Directive::Define(s, o)) && s@ == l && o@ == v,
                _ => dir_fails_with(r, err_at(b, ".define value must be a number."@)),
            },
            Err(d) => dir_fails_with(r, d),
        },
        Err(d) => dir_fails_with(r, d),
    }
}

pub open spec fn path_ok(b: BuilderView, r: Result<Directive, AssemblyError>, incbin: bool) -> bool {
    match pop_spec(b) {
        Ok((v, _)) => match v {
            OperandView::String(p) => if incbin {
                r matches Ok(Directive::Incbin(s)) && s@ == p
            } else {
                r matches Ok(Directive::Include(s)) && s@ == p
            },
            _ => dir_fails_with(
                r,
                err_at(b, if incbin { ".incbin value must be a path string."@ } else { ".include value must be a path string."@ }),
            ),
        },
        Err(d) => dir_fails_with(r, d),
    }
}

pub open spec fn build_align_directive_ok(b: BuilderView, r: Result<Directive, AssemblyError>) -> bool {
    match ranged_spec(b, i32::MIN as int, i32::MAX as int, expected_immediate_msg(), expected_immediate_msg()) {
        Ok((v, _)) => if v <= 0 {
            dir_fails_with(r, err_at(b, ".align value must be greater than zero."@))
        } else {
            r == Ok::<Directive, AssemblyError>(Directive::Align(v as u32))
        },
        Err(d) => dir_fails_with(r, d),
    }
}

fn check_data(ops: &Vec<Operand>, lo: i32, hi: i32, is_word: bool, line: usize, Ghost(range_msg): Ghost<Seq<char>>, kind_msg: &str) -> (r: Result<(), AssemblyError>)
    requires
        is_word ==> lo == 0 && hi == 65535 && range_msg == unsigned_word_msg(),
        !is_word ==> lo == 0 && hi == 255 && range_msg == unsigned_byte_msg(),
    ensures
        match data_error(ops@.map_values(|o: Operand| o@), lo as int, hi as int, range_msg, kind_msg@, line) {
            Some(d) => r matches Err(e) && e.is(d.0, d.1, d.2),
            None => r is Ok,
        },
{
    let ghost vs = ops@.map_values(|o: Operand| o@);
    let mut i: usize = 0;
    assert(vs.subrange(0, 0) == Seq::<OperandView>::empty());
    while i < ops.len()
        invariant
            vs == ops@.map_values(|o: Operand| o@),
            is_word ==> lo == 0 && hi == 65535 && range_msg == unsigned_word_msg(),
            !is_word ==> lo == 0 && hi == 255 && range_msg == unsigned_byte_msg(),
            i <= ops@.len(),
            data_error(vs.subrange(0, i as int), lo as int, hi as int, range_msg, kind_msg@, line) is None,
        decreases ops@.len() - i,
    {
        assert(vs.subrange(0, i + 1).drop_last() == vs.subrange(0, i as int));
        assert(vs.subrange(0, i + 1).last() == ops@[i as int]@);
        match &ops[i] {
            Operand::Immediate(v) => {
                let c = if is_word { check_unsigned_word(*v, line) } else { check_unsigned_byte(*v, line) };
                if c.is_err() {
                    proof {
                        lemma_data_error_extends(vs, i as int + 1, lo as int, hi as int, range_msg, kind_msg@, line);
                    }
                    return c;
                }
            },
            Operand::Label(_) => {},
            _ => {
                proof {
                    lemma_data_error_extends(vs, i as int + 1, lo as int, hi as int, range_msg, kind_msg@, line);
                }
                return Err(AssemblyError::StructuralError { line, reason: owned(kind_msg) });
            },
        }
        i = i + 1;
    }
    assert(vs.subrange(0, i as int) == vs);
    Ok(())
}

proof fn lemma_data_error_extends(ops: Seq<OperandView>, n: int, lo: int, hi: int, rm: Seq<char>, km: Seq<char>, line: usize)
    requires
        0 <= n <= ops.len(),
        data_error(ops.subrange(0, n), lo, hi, rm, km, line) is Some,
    ensures
        data_error(ops, lo, hi, rm, km, line) == data_error(ops.subrange(0, n), lo, hi, rm, km, line),
    decreases ops.len() - n,
{
    if n < ops.len() {
        assert(ops.subrange(0, n + 1).drop_last() == ops.subrange(0, n));
        lemma_data_error_extends(ops, n + 1, lo, hi, rm, km, line);
    } else {
        assert(ops.subrange(0, n) == ops);
    }
}

impl AstBuilder {
    /// `.org address`.
    pub fn build_org_directive(self) -> (r: Result<Directive, AssemblyError>)
        requires
            self.wf(),
        ensures
            build_org_directive_ok(self@, r),
    {
        let mut b = self;
        match b.expect_addr_or_label() {
            Ok(addr) => Ok(Directive::Org(addr)),
            Err(e) => Err(e),
        }
    }

    /// `.bank number`.
    pub fn build_bank_directive(self) -> (r: Result<Directive, AssemblyError>)
        requires
            self.wf(),
        ensures
            build_bank_directive_ok(self@, r),
    {
        let mut b = self;
        let id = match b.pop_operand() {
            Ok(x) => x,
            Err(e) => {
                return Err(e);
            },
        };
        match id {
            Operand::Immediate(val) => {
                if val > 256 || val < 0 {
                    Err(AssemblyError::StructuralError {
                        line: b.line_number,
                        reason: owned(".bank number must be an unsigned value between 0 and 256"),
                    })
                } else {
                    Ok(Directive::Bank(Operand::Immediate(val)))
                }
            },
            Operand::Label(l) => Ok(Directive::Bank(Operand::Label(l))),
            _ => Err(AssemblyError::StructuralError {
                line: b.line_number,
                reason: owned(".bank argument must be an immediate value."),
            }),
        }
    }

    /// `.byte` and a list of bytes or labels.
    pub fn build_byte_directive(self) -> (r: Result<Directive, AssemblyError>)
        requires
            self.wf(),
        ensures
            data_ok(self@, r, 0, 255, unsigned_byte_msg(), byte_kind_msg(), false),
    {
        let mut b = self;
        let line = b.line_number;
        let ops = match b.expect_op_vector() {
            Ok(x) => x,
            Err(e) => {
                return Err(e);
            },
        };
        proof {
            assert(ops@.map_values(|o: Operand| o@) =~= operands_spec(self@)->Ok_0);
        }
        match check_data(&ops, 0, 255, false, line, Ghost(unsigned_byte_msg()), ".byte data must be a list of immediate values.") {
            Ok(()) => Ok(Directive::Byte(ops)),
            Err(e) => Err(e),
        }
    }

    /// `.word` and a list of words or labels.
    pub fn build_word_directive(self) -> (r: Result<Directive, AssemblyError>)
        requires
            self.wf(),
        ensures
            data_ok(self@, r, 0, 65535, unsigned_word_msg(), word_kind_msg(), true),
    {
        let mut b = self;
        let line = b.line_number;
        let ops = match b.expect_op_vector() {
            Ok(x) => x,
            Err(e) => {
                return Err(e);
            },
        };
        proof {
            assert(ops@.map_values(|o: Operand| o@) =~= operands_spec(self@)->Ok_0);
        }
        match check_data(&ops, 0, 65535, true, line, Ghost(unsigned_word_msg()), ".word data must be a list of immediate values or labels.") {
            Ok(()) => Ok(Directive::Word(ops)),
            Err(e) => Err(e),
        }
    }

    /// `.define NAME value`.
    pub fn build_define_directive(self) -> (r: Result<Directive, AssemblyError>)
        requires
            self.wf(),
        ensures
            build_define_directive_ok(self@, r),
    {
        let mut b = self;
        let label = match b.expect_label() {
            Ok(x) => x,
            Err(e) => {
                return Err(e);
            },
        };
        let value = match b.pop_operand() {
            Ok(x) => x,
            Err(e) => {
                return Err(e);
            },
        };
        match value {
            Operand::Immediate(v) => Ok(Directive::Define(label, Operand::Immediate(v))),
            _ => Err(AssemblyError::StructuralError { line: b.line_number, reason: owned(".define value must be a number.") }),
        }
    }

    /// `.include "path"`.
    pub fn build_include_directive(self) -> (r: Result<Directive, AssemblyError>)
        requires
            self.wf(),
        ensures
            path_ok(self@, r, false),
    {
        let mut b = self;
        let op = match b.pop_operand() {
            Ok(x) => x,
            Err(e) => {
                return Err(e);
            },
        };
        match op {
            Operand::String(s) => Ok(Directive::Include(s)),
            _ => Err(AssemblyError::StructuralError {
                line: b.line_number,
                reason: owned(".include value must be a path string."),
            }),
        }
    }

    /// `.incbin "path"`.
    pub fn build_incbin_directive(self) -> (r: Result<Directive, AssemblyError>)
        requires
            self.wf(),
        ensures
            path_ok(self@, r, true),
    {
        let mut b = self;
        let op = match b.pop_operand() {
            Ok(x) => x,
            Err(e) => {
                return Err(e);
            },
        };
        match op {
            Operand::String(s) => Ok(Directive::Incbin(s)),
            _ => Err(AssemblyError::StructuralError {
                line: b.line_number,
                reason: owned(".incbin value must be a path string."),
            }),
        }
    }

    /// `.align n`, `n` above zero.
    pub fn build_align_directive(self) -> (r: Result<Directive, AssemblyError>)
        requires
            self.wf(),
        ensures
            build_align_directive_ok(self@, r),
    {
        let mut b = self;
        let alignment = match b.expect_immediate() {
            Ok(x) => x,
            Err(e) => {
                return Err(e);
            },
        };
        if alignment <= 0 {
            return Err(AssemblyError::StructuralError {
                line: b.line_number,
                reason: owned(".align value must be greater than zero."),
            });
        }
        Ok(Directive::Align(alignment as u32))
    }
}


/// The attributes of a `.section`, as plain values.
pub struct SectionOptionsView {
    pub name: Option<Seq<char>>,
    pub size: Option<u32>,
    pub vaddr: Option<u32>,
    pub paddr: Option<u32>,
    pub align: Option<u32>,
}

pub open spec fn options_view(o: SectionOptions) -> SectionOptionsView {
    SectionOptionsView {
        name: match o.name {
            Some(n) => Some(n@),
            None => None,
        },
        size: o.size,
        vaddr: o.vaddr,
        paddr: o.paddr,
        align: o.align,
    }
}

pub open spec fn no_options() -> SectionOptionsView {
    SectionOptionsView { name: None, size: None, vaddr: None, paddr: None, align: None }
}

pub open spec fn eq_at(s: Seq<char>, k: int) -> bool {
    0 <= k < s.len() && s[k] == '=' && forall|j: int| 0 <= j < k ==> #[trigger] s[j] != '='
}

pub open spec fn has_eq(s: Seq<char>) -> bool {
    exists|j: int| 0 <= j < s.len() && #[trigger] s[j] == '='
}

pub open spec fn duplicate_attr_msg(key: Seq<char>) -> Seq<char> {
    ".section "@ + key + " attribute defined multiple times."@
}

/// The builder view of an attribute's value text.
pub open spec fn value_view(line: usize, val: Seq<char>) -> BuilderView {
    BuilderView { line, texts: seq![val], next: 0 }
}

/// The options after one more `key=value` attribute: `name` a string,
/// `size` a number, `vaddr` and `paddr` addresses, `align` a number above
/// zero; none of them twice.
pub open spec fn attr_step(o: SectionOptionsView, key: Seq<char>, val: Seq<char>, line: usize) -> Result<SectionOptionsView, ErrDesc> {
    let bv = value_view(line, val);
    let dup = desc(ErrorKind::Structure, Some(line), duplicate_attr_msg(key));
    if key == "name"@ {
        if o.name is Some {
            Err(dup)
        } else {
            match string_spec(bv) {
                Ok((v, _)) => Ok(SectionOptionsView { name: Some(v), ..o }),
                Err(d) => Err(d),
            }
        }
    } else if key == "size"@ {
        if o.size is Some {
            Err(dup)
        } else {
            match ranged_spec(bv, i32::MIN as int, i32::MAX as int, expected_immediate_msg(), expected_immediate_msg()) {
                Ok((v, _)) => Ok(SectionOptionsView { size: Some(v as u32), ..o }),
                Err(d) => Err(d),
            }
        }
    } else if key == "vaddr"@ {
        if o.vaddr is Some {
            Err(dup)
        } else {
            match ranged_spec(bv, 0, 65535, unsigned_word_msg(), expected_addr_msg()) {
                Ok((v, _)) => Ok(SectionOptionsView { vaddr: Some(v as u32), ..o }),
                Err(d) => Err(d),
            }
        }
    } else if key == "paddr"@ {
        if o.paddr is Some {
            Err(dup)
        } else {
            match ranged_spec(bv, 0, 65535, unsigned_word_msg(), expected_addr_msg()) {
                Ok((v, _)) => Ok(SectionOptionsView { paddr: Some(v as u32), ..o }),
                Err(d) => Err(d),
            }
        }
    } else if key == "align"@ {
        if o.align is Some {
            Err(dup)
        } else {
            match ranged_spec(bv, i32::MIN as int, i32::MAX as int, expected_immediate_msg(), expected_immediate_msg()) {
                Ok((v, _)) => if v <= 0 {
                    Err(desc(ErrorKind::Structure, Some(line), ".section align value must be greater than zero."@))
                } else {
                    Ok(SectionOptionsView { align: Some(v as u32), ..o })
                },
                Err(d) => Err(d),
            }
        }
    } else {
        Err(desc(ErrorKind::Syntax, Some(line), "Unknown section attribute: "@ + key))
    }
}

/// A section attribute sets the option it names, which must not have been
/// set before, and leaves every other option as it was.
pub proof fn lemma_attribute_sets_only_its_option(o: SectionOptionsView, key: Seq<char>, val: Seq<char>, line: usize)
    requires
        attr_step(o, key, val, line) is Ok,
    ensures
        ({
            let o2 = attr_step(o, key, val, line)->Ok_0;
            &&& key == "name"@ ==> o.name is None && o2.name is Some
            &&& key != "name"@ ==> o2.name == o.name
            &&& key == "size"@ ==> o.size is None && o2.size is Some
            &&& key != "size"@ ==> o2.size == o.size
            &&& key == "vaddr"@ ==> o.vaddr is None && o2.vaddr is Some
            &&& key != "vaddr"@ ==> o2.vaddr == o.vaddr
            &&& key == "paddr"@ ==> o.paddr is None && o2.paddr is Some
            &&& key != "paddr"@ ==> o2.paddr == o.paddr
            &&& key == "align"@ ==> o.align is None && o2.align is Some
            &&& key != "align"@ ==> o2.align == o.align
        }),
{
    reveal_strlit("name");
    reveal_strlit("size");
    reveal_strlit("vaddr");
    reveal_strlit("paddr");
    reveal_strlit("align");
    assert("name"@[0] == 'n' && "size"@[0] == 's' && "vaddr"@[0] == 'v' && "paddr"@[0] == 'p' && "align"@[0] == 'a');
}

/// The key of an attribute text, in lower case, and its value text.
pub open spec fn split_attr(attr: Seq<char>) -> (Seq<char>, Seq<char>) {
    let k = choose|k: int| eq_at(attr, k);
    (lower_text(trimmed(attr.subrange(0, k))), trimmed(attr.subrange(k + 1, attr.len() as int)))
}

/// The options the first `n` attribute texts give.
pub open spec fn attrs_upto(texts: Seq<Seq<char>>, n: int, line: usize) -> Result<SectionOptionsView, ErrDesc>
    decreases n,
{
    if n <= 0 {
        Ok(no_options())
    } else {
        match attrs_upto(texts, n - 1, line) {
            Err(d) => Err(d),
            Ok(o) => {
                let attr = texts[n - 1];
                if !has_eq(attr) {
                    Err(desc(ErrorKind::Syntax, Some(line), "Invalid section attribute: "@ + attr))
                } else {
                    attr_step(o, split_attr(attr).0, split_attr(attr).1, line)
                }
            },
        }
    }
}

pub open spec fn build_section_start_directive_ok(b: BuilderView, r: Result<Directive, AssemblyError>) -> bool {
    match attrs_upto(b.texts, b.texts.len() as int, b.line) {
        Ok(o) => r matches Ok(Directive::SectionStart(so)) && options_view(so) == o,
        Err(d) => dir_fails_with(r, d),
    }
}

fn find_eq(s: &[char]) -> (r: Option<usize>)
    ensures
        r matches Some(k) ==> eq_at(s@, k as int),
        r is None ==> !has_eq(s@),
{
    let mut i: usize = 0;
    while i < s.len()
        invariant
            i <= s@.len(),
            forall|j: int| 0 <= j < i ==> #[trigger] s@[j] != '=',
        decreases s@.len() - i,
    {
        if s[i] == '=' {
            return Some(i);
        }
        i = i + 1;
    }
    None
}

proof fn lemma_eq_unique(s: Seq<char>, a: int, b: int)
    requires
        eq_at(s, a),
        eq_at(s, b),
    ensures
        a == b,
{
    if a < b {
        assert(s[a] != '=');
    } else if b < a {
        assert(s[b] != '=');
    }
}

fn duplicate_attr_error(key: &[char], line: usize) -> (e: AssemblyError)
    ensures
        e.is(ErrorKind::Structure, Some(line), duplicate_attr_msg(key@)),
{
    let k = string_from_chars(key);
    AssemblyError::StructuralError { line, reason: join3(".section ", k.as_str(), " attribute defined multiple times.") }
}

fn apply_attr(o: &mut SectionOptions, key: &[char], val: Vec<char>, line: usize) -> (r: Result<(), AssemblyError>)
    ensures
        match attr_step(options_view(*old(o)), key@, val@, line) {
            Ok(v) => r is Ok && options_view(*final(o)) == v,
            Err(d) => r matches Err(e) && e.is(d.0, d.1, d.2),
        },
{
    let mut pairs: Vec<Vec<char>> = Vec::new();
    let ghost vv = val@;
    pairs.push(val);
    let mut bv = AstBuilder::new(line, Vec::new(), pairs);
    assert(bv@ == value_view(line, vv)) by {
        assert(bv@.texts =~= seq![vv]);
    }
    if is_word_text(key, "name") {
        if o.name.is_some() {
            return Err(duplicate_attr_error(key, line));
        }
        match bv.expect_string_literal() {
            Ok(s) => {
                o.name = Some(s);
                Ok(())
            },
            Err(e) => Err(e),
        }
    } else if is_word_text(key, "size") {
        if o.size.is_some() {
            return Err(duplicate_attr_error(key, line));
        }
        match bv.expect_immediate() {
            Ok(v) => {
                o.size = Some(v as u32);
                Ok(())
            },
            Err(e) => Err(e),
        }
    } else if is_word_text(key, "vaddr") {
        if o.vaddr.is_some() {
            return Err(duplicate_attr_error(key, line));
        }
        match bv.expect_addr() {
            Ok(v) => {
                o.vaddr = Some(v as u32);
                Ok(())
            },
            Err(e) => Err(e),
        }
    } else if is_word_text(key, "paddr") {
        if o.paddr.is_some() {
            return Err(duplicate_attr_error(key, line));
        }
        match bv.expect_addr() {
            Ok(v) => {
                o.paddr = Some(v as u32);
                Ok(())
            },
            Err(e) => Err(e),
        }
    } else if is_word_text(key, "align") {
        if o.align.is_some() {
            return Err(duplicate_attr_error(key, line));
        }
        match bv.expect_immediate() {
            Ok(v) => {
                if v <= 0 {
                    return Err(AssemblyError::StructuralError {
                        line,
                        reason: owned(".section align value must be greater than zero."),
                    });
                }
                o.align = Some(v as u32);
                Ok(())
            },
            Err(e) => Err(e),
        }
    } else {
        let k = string_from_chars(key);
        Err(AssemblyError::SyntaxError { line, reason: join2("Unknown section attribute: ", k.as_str()) })
    }
}

proof fn lemma_attrs_error_extends(texts: Seq<Seq<char>>, n: int, m: int, line: usize)
    requires
        0 <= n <= m,
        attrs_upto(texts, n, line) is Err,
    ensures
        attrs_upto(texts, m, line) == attrs_upto(texts, n, line),
    decreases m - n,
{
    if n < m {
        lemma_attrs_error_extends(texts, n + 1, m, line);
    }
}

impl AstBuilder {
    /// `.section` and its `key=value` attributes.
    pub fn build_section_start_directive(self) -> (r: Result<Directive, AssemblyError>)
        requires
            self.wf(),
        ensures
            build_section_start_directive_ok(self@, r),
    {
        let ghost b = self@;
        let line = self.line_number;
        let mut options = SectionOptions { name: None, size: None, vaddr: None, paddr: None, align: None };
        let mut i: usize = 0;
        while i < self.pairs.len()
            invariant
                b == self@,
                line == b.line,
                i <= self.pairs@.len(),
                attrs_upto(b.texts, i as int, line) == Ok::<SectionOptionsView, ErrDesc>(options_view(options)),
            decreases self.pairs@.len() - i,
        {
            let attr = self.pairs[i].as_slice();
            assert(b.texts[i as int] == attr@);
            match find_eq(attr) {
                Some(k) => {
                    proof {
                        assert(eq_at(attr@, k as int));
                        assert(k < attr@.len());
                        assert(has_eq(attr@)) by {
                            assert(attr@[k as int] == '=');
                        }
                        let c = choose|c: int| eq_at(attr@, c);
                        lemma_eq_unique(attr@, c, k as int);
                    }
                    let key_raw = sub_chars(attr, 0, k);
                    let key_trim = trim_chars(key_raw.as_slice());
                    let key = to_lower(key_trim.as_slice());
                    let attr_len = attr.len();
                    assert(k < attr_len);
                    let val_raw = sub_chars(attr, k + 1, attr_len);
                    let val = trim_chars(val_raw.as_slice());
                    let r = apply_attr(&mut options, key.as_slice(), val, line);
                    if r.is_err() {
                        proof {
                            lemma_attrs_error_extends(b.texts, i + 1, b.texts.len() as int, line);
                        }
                        return Err(r.unwrap_err());
                    }
                },
                None => {
                    proof {
                        lemma_attrs_error_extends(b.texts, i + 1, b.texts.len() as int, line);
                    }
                    let a = string_from_chars(attr);
                    return Err(AssemblyError::SyntaxError { line, reason: join2("Invalid section attribute: ", a.as_str()) });
                },
            }
            i = i + 1;
        }
        Ok(Directive::SectionStart(options))
    }
}


/// A cartridge header, as plain values.
pub struct HeaderView {
    pub boot_anim: Seq<char>,
    pub title: Seq<char>,
    pub developer: Seq<char>,
    pub version: u8,
    pub mapper: u8,
    pub rom_size: u8,
    pub ram_size: u8,
    pub interrupt_mode: u8,
    pub hardware_rev: u8,
    pub region: u8,
}

pub open spec fn header_view(h: HeaderInfo) -> HeaderView {
    HeaderView {
        boot_anim: h.boot_anim@,
        title: h.title@,
        developer: h.developer@,
        version: h.version,
        mapper: h.mapper,
        rom_size: h.rom_size,
        ram_size: h.ram_size,
        interrupt_mode: h.interrupt_mode,
        hardware_rev: h.hardware_rev,
        region: h.region,
    }
}

pub open spec fn empty_header() -> HeaderView {
    HeaderView {
        boot_anim: Seq::empty(),
        title: Seq::empty(),
        developer: Seq::empty(),
        version: 0,
        mapper: 0,
        rom_size: 0,
        ram_size: 0,
        interrupt_mode: 0,
        hardware_rev: 0,
        region: 0,
    }
}

pub open spec fn byte_field(bv: BuilderView) -> Result<(i32, BuilderView), ErrDesc> {
    ranged_spec(bv, 0, 255, unsigned_byte_msg(), expected_byte_msg())
}

pub open spec fn imm_field(bv: BuilderView) -> Result<(i32, BuilderView), ErrDesc> {
    ranged_spec(bv, i32::MIN as int, i32::MAX as int, expected_immediate_msg(), expected_immediate_msg())
}

/// A string field: at most `max` bytes long, or exactly `max` when `exact`.
pub open spec fn text_field(bv: BuilderView, max: int, exact: bool, msg: Seq<char>) -> Result<Seq<char>, ErrDesc> {
    match string_spec(bv) {
        Ok((v, _)) => if (exact && encode_utf8(v).len() as usize != max) || (!exact && encode_utf8(v).len() as usize > max) {
            Err(desc(ErrorKind::Structure, Some(bv.line), msg))
        } else {
            Ok(v)
        },
        Err(d) => Err(d),
    }
}

/// A small number field: the value, truncated to a byte, at most `max`.
pub open spec fn small_field(bv: BuilderView, max: u8, msg: Seq<char>) -> Result<u8, ErrDesc> {
    match imm_field(bv) {
        Ok((v, _)) => if (v as u8) > max {
            Err(desc(ErrorKind::Structure, Some(bv.line), msg))
        } else {
            Ok(v as u8)
        },
        Err(d) => Err(d),
    }
}

pub open spec fn boot_anim_msg() -> Seq<char> {
    ".boot_anim must be exactly 4 characters."@
}

pub open spec fn title_msg() -> Seq<char> {
    ".title must be 16 characters or less."@
}

pub open spec fn developer_msg() -> Seq<char> {
    ".developer must be 16 characters or less."@
}

pub open spec fn interrupt_mode_msg() -> Seq<char> {
    ".interrupt_mode must be 0 or 1."@
}

pub open spec fn hardware_rev_msg() -> Seq<char> {
    ".interrupt_mode must be an unsigned 2 bit value (max: 3, min: 0)."@
}

pub open spec fn region_msg() -> Seq<char> {
    ".interrupt_mode must be an unsigned 3 bit value (max: 7, min: 0)."@
}

/// The header after one more field line.
pub open spec fn field_step(h: HeaderView, name: Seq<char>, bv: BuilderView) -> Result<HeaderView, ErrDesc> {
    if name == "boot_anim"@ {
        match text_field(bv, 4, true, boot_anim_msg()) {
            Ok(v) => Ok(HeaderView { boot_anim: v, ..h }),
            Err(d) => Err(d),
        }
    } else if name == "title"@ {
        match text_field(bv, 16, false, title_msg()) {
            Ok(v) => Ok(HeaderView { title: v, ..h }),
            Err(d) => Err(d),
        }
    } else if name == "developer"@ {
        match text_field(bv, 16, false, developer_msg()) {
            Ok(v) => Ok(HeaderView { developer: v, ..h }),
            Err(d) => Err(d),
        }
    } else if name == "version"@ {
        match byte_field(bv) {
            Ok((v, _)) => Ok(HeaderView { version: v as u8, ..h }),
            Err(d) => Err(d),
        }
    } else if name == "mapper"@ {
        match byte_field(bv) {
            Ok((v, _)) => Ok(HeaderView { mapper: v as u8, ..h }),
            Err(d) => Err(d),
        }
    } else if name == "rom_size"@ {
        match byte_field(bv) {
            Ok((v, _)) => Ok(HeaderView { rom_size: v as u8, ..h }),
            Err(d) => Err(d),
        }
    } else if name == "ram_size"@ {
        match byte_field(bv) {
            Ok((v, _)) => Ok(HeaderView { ram_size: v as u8, ..h }),
            Err(d) => Err(d),
        }
    } else if name == "interrupt_mode"@ {
        match small_field(bv, 1, interrupt_mode_msg()) {
            Ok(v) => Ok(HeaderView { interrupt_mode: v, ..h }),
            Err(d) => Err(d),
        }
    } else if name == "hardware_rev"@ {
        match small_field(bv, 3, hardware_rev_msg()) {
            Ok(v) => Ok(HeaderView { hardware_rev: v, ..h }),
            Err(d) => Err(d),
        }
    } else if name == "region"@ {
        match small_field(bv, 7, region_msg()) {
            Ok(v) => Ok(HeaderView { region: v, ..h }),
            Err(d) => Err(d),
        }
    } else {
        Err(desc(ErrorKind::Structure, Some(bv.line), "Unknown header field directive."@))
    }
}

/// A header field line changes no field but the one it names.
pub proof fn lemma_field_line_sets_only_its_field(h: HeaderView, name: Seq<char>, bv: BuilderView)
    requires
        field_step(h, name, bv) is Ok,
    ensures
        ({
            let h2 = field_step(h, name, bv)->Ok_0;
            &&& name != "boot_anim"@ ==> h2.boot_anim == h.boot_anim
            &&& name != "title"@ ==> h2.title == h.title
            &&& name != "developer"@ ==> h2.developer == h.developer
            &&& name != "version"@ ==> h2.version == h.version
            &&& name != "mapper"@ ==> h2.mapper == h.mapper
            &&& name != "rom_size"@ ==> h2.rom_size == h.rom_size
            &&& name != "ram_size"@ ==> h2.ram_size == h.ram_size
            &&& name != "interrupt_mode"@ ==> h2.interrupt_mode == h.interrupt_mode
            &&& name != "hardware_rev"@ ==> h2.hardware_rev == h.hardware_rev
            &&& name != "region"@ ==> h2.region == h.region
        }),
{
}

/// The header the first `n` field lines give.
pub open spec fn fields_upto(fs: Seq<(Seq<char>, BuilderView)>, n: int) -> Result<HeaderView, ErrDesc>
    decreases n,
{
    if n <= 0 {
        Ok(empty_header())
    } else {
        match fields_upto(fs, n - 1) {
            Ok(h) => field_step(h, fs[n - 1].0, fs[n - 1].1),
            Err(d) => Err(d),
        }
    }
}

/// The header fields stay in their bounds: the boot animation is empty or
/// four bytes, the title and the developer at most sixteen, the interrupt
/// mode at most 1, the hardware revision at most 3 and the region at most 7.
pub proof fn lemma_header_fields_in_bounds(fs: Seq<(Seq<char>, BuilderView)>, n: int)
    requires
        fields_upto(fs, n) is Ok,
    ensures
        ({
            let h = fields_upto(fs, n)->Ok_0;
            &&& h.boot_anim.len() == 0 || encode_utf8(h.boot_anim).len() as usize == 4
            &&& encode_utf8(h.title).len() as usize <= 16
            &&& encode_utf8(h.developer).len() as usize <= 16
            &&& h.interrupt_mode <= 1
            &&& h.hardware_rev <= 3
            &&& h.region <= 7
        }),
    decreases n,
{
    if n > 0 {
        lemma_header_fields_in_bounds(fs, n - 1);
    } else {
        assert(encode_utf8(Seq::<char>::empty()).len() == 0);
    }
}

pub open spec fn builders_view(bs: Seq<AstBuilder>) -> Seq<(Seq<char>, BuilderView)> {
    bs.map_values(|f: AstBuilder| (f.rule@, f@))
}

pub open spec fn fresh_builders(bs: Seq<AstBuilder>) -> bool {
    forall|i: int| 0 <= i < bs.len() ==> (#[trigger] bs[i]).wf() && bs[i].next == 0
}

proof fn lemma_fields_error_extends(fs: Seq<(Seq<char>, BuilderView)>, n: int, m: int)
    requires
        0 <= n <= m,
        fields_upto(fs, n) is Err,
    ensures
        fields_upto(fs, m) == fields_upto(fs, n),
    decreases m - n,
{
    if n < m {
        lemma_fields_error_extends(fs, n + 1, m);
    }
}

fn text_field_of(bv: AstBuilder, max: usize, exact: bool, msg: &str) -> (r: Result<String, AssemblyError>)
    requires
        bv.wf(),
    ensures
        match text_field(bv@, max as int, exact, msg@) {
            Ok(v) => r matches Ok(s) && s@ == v,
            Err(d) => r matches Err(e) && e.is(d.0, d.1, d.2),
        },
{
    let mut b = bv;
    let line = b.line_number;
    match b.expect_string_literal() {
        Ok(v) => {
            let n = v.as_str().len();
            if (exact && n != max) || (!exact && n > max) {
                Err(AssemblyError::StructuralError { line, reason: owned(msg) })
            } else {
                Ok(v)
            }
        },
        Err(e) => Err(e),
    }
}

fn small_field_of(bv: AstBuilder, max: u8, msg: &str) -> (r: Result<u8, AssemblyError>)
    requires
        bv.wf(),
    ensures
        match small_field(bv@, max, msg@) {
            Ok(v) => r == Ok::<u8, AssemblyError>(v),
            Err(d) => r matches Err(e) && e.is(d.0, d.1, d.2),
        },
{
    let mut b = bv;
    let line = b.line_number;
    match b.expect_immediate() {
        Ok(v) => {
            let val = v as u8;
            if val > max {
                Err(AssemblyError::StructuralError { line, reason: owned(msg) })
            } else {
                Ok(val)
            }
        },
        Err(e) => Err(e),
    }
}

fn apply_field(info: &mut HeaderInfo, f: AstBuilder) -> (r: Result<(), AssemblyError>)
    requires
        f.wf(),
    ensures
        match field_step(header_view(*old(info)), f.rule@, f@) {
            Ok(h) => r is Ok && header_view(*final(info)) == h,
            Err(d) => r matches Err(e) && e.is(d.0, d.1, d.2),
        },
{
    let name = f.rule.as_slice();
    let line = f.line_number;
    if is_word_text(name, "boot_anim") {
        match text_field_of(f, 4, true, ".boot_anim must be exactly 4 characters.") {
            Ok(v) => {
                info.boot_anim = v;
                Ok(())
            },
            Err(e) => Err(e),
        }
    } else if is_word_text(name, "title") {
        match text_field_of(f, 16, false, ".title must be 16 characters or less.") {
            Ok(v) => {
                info.title = v;
                Ok(())
            },
            Err(e) => Err(e),
        }
    } else if is_word_text(name, "developer") {
        match text_field_of(f, 16, false, ".developer must be 16 characters or less.") {
            Ok(v) => {
                info.developer = v;
                Ok(())
            },
            Err(e) => Err(e),
        }
    } else if is_word_text(name, "version") {
        let mut b = f;
        match b.expect_unsigned_byte() {
            Ok(v) => {
                info.version = v;
                Ok(())
            },
            Err(e) => Err(e),
        }
    } else if is_word_text(name, "mapper") {
        let mut b = f;
        match b.expect_unsigned_byte() {
            Ok(v) => {
                info.mapper = v;
                Ok(())
            },
            Err(e) => Err(e),
        }
    } else if is_word_text(name, "rom_size") {
        let mut b = f;
        match b.expect_unsigned_byte() {
            Ok(v) => {
                info.rom_size = v;
                Ok(())
            },
            Err(e) => Err(e),
        }
    } else if is_word_text(name, "ram_size") {
        let mut b = f;
        match b.expect_unsigned_byte() {
            Ok(v) => {
                info.ram_size = v;
                Ok(())
            },
            Err(e) => Err(e),
        }
    } else if is_word_text(name, "interrupt_mode") {
        match small_field_of(f, 1, ".interrupt_mode must be 0 or 1.") {
            Ok(v) => {
                info.interrupt_mode = v;
                Ok(())
            },
            Err(e) => Err(e),
        }
    } else if is_word_text(name, "hardware_rev") {
        match small_field_of(f, 3, ".interrupt_mode must be an unsigned 2 bit value (max: 3, min: 0).") {
            Ok(v) => {
                info.hardware_rev = v;
                Ok(())
            },
            Err(e) => Err(e),
        }
    } else if is_word_text(name, "region") {
        match small_field_of(f, 7, ".interrupt_mode must be an unsigned 3 bit value (max: 7, min: 0).") {
            Ok(v) => {
                info.region = v;
                Ok(())
            },
            Err(e) => Err(e),
        }
    } else {
        Err(AssemblyError::StructuralError { line, reason: owned("Unknown header field directive.") })
    }
}

/// The first error of an interrupt table's entries, or all their words.
pub open spec fn entries_upto(es: Seq<(Seq<char>, BuilderView)>, n: int) -> Result<Seq<OperandView>, ErrDesc>
    decreases n,
{
    if n <= 0 {
        Ok(Seq::empty())
    } else {
        match entries_upto(es, n - 1) {
            Err(d) => Err(d),
            Ok(prefix) => if es[n - 1].0 != "word"@ {
                Err(desc(ErrorKind::Structure, Some(es[n - 1].1.line), entry_kind_msg()))
            } else {
                match operands_spec(es[n - 1].1) {
                    Err(d) => Err(d),
                    Ok(vs) => match data_error(vs, 0, 65535, unsigned_word_msg(), word_kind_msg(), es[n - 1].1.line) {
                        Some(d) => Err(d),
                        None => Ok(prefix + vs),
                    },
                }
            },
        }
    }
}

pub open spec fn entry_kind_msg() -> Seq<char> {
    "Fields of a .interrupt_table directive must be .word directives."@
}

pub open spec fn table_size_msg() -> Seq<char> {
    "Vector interrupt table must contain at least 12 entries and at most 16 entries."@
}

proof fn lemma_entries_error_extends(es: Seq<(Seq<char>, BuilderView)>, n: int, m: int)
    requires
        0 <= n <= m,
        entries_upto(es, n) is Err,
    ensures
        entries_upto(es, m) == entries_upto(es, n),
    decreases m - n,
{
    if n < m {
        lemma_entries_error_extends(es, n + 1, m);
    }
}

impl AstBuilder {
    /// A `.header_start` block from its field lines.
    pub fn build_header_directive(self, fields: Vec<AstBuilder>) -> (r: Result<Directive, AssemblyError>)
        requires
            fresh_builders(fields@),
        ensures
            match fields_upto(builders_view(fields@), fields@.len() as int) {
                Ok(h) => r matches Ok(Directive::Header(info)) && header_view(info) == h,
                Err(d) => dir_fails_with(r, d),
            },
    {
        let ghost fs = builders_view(fields@);
        let ghost total = fields@.len() as int;
        let mut info = HeaderInfo {
            boot_anim: String::new(),
            title: String::new(),
            developer: String::new(),
            version: 0,
            mapper: 0,
            rom_size: 0,
            ram_size: 0,
            interrupt_mode: 0,
            hardware_rev: 0,
            region: 0,
        };
        let n0 = fields.len();
        let mut rest = fields;
        let mut i: usize = 0;
        while rest.len() > 0
            invariant
                fs == builders_view(fields@),
                total == fields@.len(),
                n0 == total,
                fs.len() == total,
                total <= usize::MAX,
                i + rest@.len() == total,
                fresh_builders(rest@),
                forall|k: int| 0 <= k < rest@.len() ==> fs[i + k] == (#[trigger] rest@[k].rule@, rest@[k]@),
                fields_upto(fs, i as int) == Ok::<HeaderView, ErrDesc>(header_view(info)),
            decreases rest@.len(),
        {
            let ghost before = rest@;
            let f = rest.remove(0);
            assert(fs[i as int] == (f.rule@, f@)) by {
                assert(before[0] == f);
            }
            assert forall|k: int| 0 <= k < rest@.len() implies fs[i + 1 + k] == (#[trigger] rest@[k].rule@, rest@[k]@) by {
                assert(rest@[k] == before[k + 1]);
            }
            assert(fresh_builders(rest@)) by {
                assert forall|k: int| 0 <= k < rest@.len() implies (#[trigger] rest@[k]).wf() && rest@[k].next == 0 by {
                    assert(rest@[k] == before[k + 1]);
                }
            }
            let r = apply_field(&mut info, f);
            if let Err(e) = r {
                proof {
                    lemma_fields_error_extends(fs, i + 1, total);
                }
                return Err(e);
            }
            i = i + 1;
        }
        Ok(Directive::Header(info))
    }

    /// An `.interrupt_table` block from its `.word` lines: between 12 and
    /// 16 entries.
    pub fn build_interrupt_directive(self, entries: Vec<AstBuilder>) -> (r: Result<Directive, AssemblyError>)
        requires
            fresh_builders(entries@),
        ensures
            match entries_upto(builders_view(entries@), entries@.len() as int) {
                Ok(vs) => if vs.len() < 12 || vs.len() > 16 {
                    dir_fails_with(r, err_at(self@, table_size_msg()))
                } else {
                    r matches Ok(Directive::Interrupt(v)) && v@.len() == vs.len()
                        && forall|i: int| 0 <= i < vs.len() ==> (#[trigger] v@[i])@ == vs[i]
                },
                Err(d) => dir_fails_with(r, d),
            },
    {
        let ghost es = builders_view(entries@);
        let ghost total = entries@.len() as int;
        let mut table: Vec<Operand> = Vec::new();
        let n0 = entries.len();
        let mut rest = entries;
        let mut i: usize = 0;
        while rest.len() > 0
            invariant
                es == builders_view(entries@),
                total == entries@.len(),
                n0 == total,
                es.len() == total,
                total <= usize::MAX,
                i + rest@.len() == total,
                fresh_builders(rest@),
                forall|k: int| 0 <= k < rest@.len() ==> es[i + k] == (#[trigger] rest@[k].rule@, rest@[k]@),
                entries_upto(es, i as int) matches Ok(vs) && table@.len() == vs.len()
                    && forall|j: int| 0 <= j < vs.len() ==> (#[trigger] table@[j])@ == vs[j],
            decreases rest@.len(),
        {
            let ghost before = rest@;
            let ghost prefix = entries_upto(es, i as int)->Ok_0;
            let e = rest.remove(0);
            assert(es[i as int] == (e.rule@, e@)) by {
                assert(before[0] == e);
            }
            assert forall|k: int| 0 <= k < rest@.len() implies es[i + 1 + k] == (#[trigger] rest@[k].rule@, rest@[k]@) by {
                assert(rest@[k] == before[k + 1]);
            }
            assert(fresh_builders(rest@)) by {
                assert forall|k: int| 0 <= k < rest@.len() implies (#[trigger] rest@[k]).wf() && rest@[k].next == 0 by {
                    assert(rest@[k] == before[k + 1]);
                }
            }
            let line = e.line_number;
            if !is_word_text(e.rule.as_slice(), "word") {
                proof {
                    assert(entries_upto(es, i + 1) is Err);
                    lemma_entries_error_extends(es, i + 1, total);
                }
                return Err(AssemblyError::StructuralError {
                    line,
                    reason: owned("Fields of a .interrupt_table directive must be .word directives."),
                });
            }
            let ghost ev = e@;
            match e.build_word_directive() {
                Ok(Directive::Word(mut data)) => {
                    let ghost vs = operands_spec(ev)->Ok_0;
                    let ghost old_table = table@;
                    table.append(&mut data);
                    assert(entries_upto(es, i + 1) == Ok::<Seq<OperandView>, ErrDesc>(prefix + vs));
                    assert forall|j: int| 0 <= j < (prefix + vs).len() implies (#[trigger] table@[j])@ == (prefix + vs)[j] by {
                        if j < prefix.len() {
                            assert(table@[j] == old_table[j]);
                        }
                    }
                },
                Ok(_) => {
                    proof {
                        assert(false);
                    }
                    return Err(AssemblyError::StructuralError { line, reason: owned("Invalid word data.") });
                },
                Err(err) => {
                    proof {
                        assert(entries_upto(es, i + 1) is Err);
                        lemma_entries_error_extends(es, i + 1, total);
                    }
                    return Err(err);
                },
            }
            i = i + 1;
        }
        if table.len() < 12 || table.len() > 16 {
            return Err(AssemblyError::StructuralError {
                line: self.line_number,
                reason: owned("Vector interrupt table must contain at least 12 entries and at most 16 entries."),
            });
        }
        Ok(Directive::Interrupt(table))
    }
}

/// The directives the grammar knows, besides the header and interrupt table blocks.
#[derive(PartialEq, Eq, Structural)]
pub enum DirRule {
    Org,
    Bank,
    Byte,
    Word,
    Define,
    Include,
    Incbin,
    Align,
    SectionStart,
    SectionEnd,
    WrongCount,
    Unknown,
}

/// Which directive a name and its operand texts select.
pub open spec fn dir_rule(m: Seq<char>, texts: Seq<Seq<char>>) -> DirRule {
    if m == "org"@ {
        if texts.len() == 1 {
            DirRule::Org
        } else {
            DirRule::WrongCount
        }
    } else if m == "bank"@ {
        if texts.len() == 1 {
            DirRule::Bank
        } else {
            DirRule::WrongCount
        }
    } else if m == "byte"@ {
        DirRule::Byte
    } else if m == "word"@ {
        DirRule::Word
    } else if m == "define"@ {
        if texts.len() == 2 {
            DirRule::Define
        } else {
            DirRule::WrongCount
        }
    } else if m == "include"@ {
        if texts.len() == 1 {
            DirRule::Include
        } else {
            DirRule::WrongCount
        }
    } else if m == "incbin"@ {
        if texts.len() == 1 {
            DirRule::Incbin
        } else {
            DirRule::WrongCount
        }
    } else if m == "align"@ {
        if texts.len() == 1 {
            DirRule::Align
        } else {
            DirRule::WrongCount
        }
    } else if m == "section"@ {
        DirRule::SectionStart
    } else if m == "section_end"@ {
        if texts.len() == 0 {
            DirRule::SectionEnd
        } else {
            DirRule::WrongCount
        }
    } else {
        DirRule::Unknown
    }
}

fn select_dir_rule(m: &[char], n: usize) -> (r: DirRule)
    ensures
        forall|texts: Seq<Seq<char>>| texts.len() == n ==> r == #[trigger] dir_rule(m@, texts),
{
    if is_word_text(m, "org") {
        if n == 1 {
            DirRule::Org
        } else {
            DirRule::WrongCount
        }
    } else if is_word_text(m, "bank") {
        if n == 1 {
            DirRule::Bank
        } else {
            DirRule::WrongCount
        }
    } else if is_word_text(m, "byte") {
        DirRule::Byte
    } else if is_word_text(m, "word") {
        DirRule::Word
    } else if is_word_text(m, "define") {
        if n == 2 {
            DirRule::Define
        } else {
            DirRule::WrongCount
        }
    } else if is_word_text(m, "include") {
        if n == 1 {
            DirRule::Include
        } else {
            DirRule::WrongCount
        }
    } else if is_word_text(m, "incbin") {
        if n == 1 {
            DirRule::Incbin
        } else {
            DirRule::WrongCount
        }
    } else if is_word_text(m, "align") {
        if n == 1 {
            DirRule::Align
        } else {
            DirRule::WrongCount
        }
    } else if is_word_text(m, "section") {
        DirRule::SectionStart
    } else if is_word_text(m, "section_end") {
        if n == 0 {
            DirRule::SectionEnd
        } else {
            DirRule::WrongCount
        }
    } else {
        DirRule::Unknown
    }
}

pub open spec fn unknown_directive_msg(m: Seq<char>) -> Seq<char> {
    "Unknown directive: ."@ + m
}

pub open spec fn wrong_dir_operands_msg(m: Seq<char>) -> Seq<char> {
    "Invalid operands for directive: ."@ + m
}

/// The directive that the builder's name and operands describe.
pub open spec fn directive_ok(m: Seq<char>, b: BuilderView, r: Result<Directive, AssemblyError>) -> bool {
    match dir_rule(m, b.texts) {
        DirRule::Org => build_org_directive_ok(b, r),
        DirRule::Bank => build_bank_directive_ok(b, r),
        DirRule::Byte => data_ok(b, r, 0, 255, unsigned_byte_msg(), byte_kind_msg(), false),
        DirRule::Word => data_ok(b, r, 0, 65535, unsigned_word_msg(), word_kind_msg(), true),
        DirRule::Define => build_define_directive_ok(b, r),
        DirRule::Include => path_ok(b, r, false),
        DirRule::Incbin => path_ok(b, r, true),
        DirRule::Align => build_align_directive_ok(b, r),
        DirRule::SectionStart => build_section_start_directive_ok(b, r),
        DirRule::SectionEnd => r == Ok::<Directive, AssemblyError>(Directive::SectionEnd),
        DirRule::WrongCount => dir_fails_with(r, desc(ErrorKind::Syntax, Some(b.line), wrong_dir_operands_msg(m))),
        DirRule::Unknown => dir_fails_with(r, desc(ErrorKind::Syntax, Some(b.line), unknown_directive_msg(m))),
    }
}

impl AstBuilder {
    /// Builds the directive its name and operands describe.
    pub fn build_directive(self) -> (r: Result<Directive, AssemblyError>)
        requires
            self.wf(),
            self.next == 0,
        ensures
            directive_ok(self.rule@, self@, r),
    {
        let rule = select_dir_rule(self.rule.as_slice(), self.pairs.len());
        proof {
            assert(rule == dir_rule(self.rule@, self@.texts));
        }
        match rule {
            DirRule::Org => self.build_org_directive(),
            DirRule::Bank => self.build_bank_directive(),
            DirRule::Byte => self.build_byte_directive(),
            DirRule::Word => self.build_word_directive(),
            DirRule::Define => self.build_define_directive(),
            DirRule::Include => self.build_include_directive(),
            DirRule::Incbin => self.build_incbin_directive(),
            DirRule::Align => self.build_align_directive(),
            DirRule::SectionStart => self.build_section_start_directive(),
            DirRule::SectionEnd => Ok(Directive::SectionEnd),
            DirRule::WrongCount => {
                let m = string_from_chars(self.rule.as_slice());
                Err(AssemblyError::SyntaxError {
                    line: self.line_number,
                    reason: join2("Invalid operands for directive: .", m.as_str()),
                })
            },
            DirRule::Unknown => {
                let m = string_from_chars(self.rule.as_slice());
                Err(AssemblyError::SyntaxError { line: self.line_number, reason: join2("Unknown directive: .", m.as_str()) })
            },
        }
    }
}

} // verus!
