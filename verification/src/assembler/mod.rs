pub mod code_pass;
pub mod constant_table;
pub mod encoder;
pub mod label_table;
pub mod layout;
pub mod passes;
pub mod preprocessor;
pub mod section_stack;
pub mod symbol_pass;
pub mod symbol_table;
pub mod tile_converter;

use vstd::prelude::*;
use crate::assembler::constant_table::ConstantTable;
use crate::assembler::preprocessor::constant::{
    directive_after_error, directive_error, directive_replaced, instruction_after_error, instruction_constants_spec,
    process_directive_constants, process_instruction_constants,
};
use crate::ast::{AssemblyLine, Directive, Operand};
use crate::errors::{bytes_match, desc, AssemblyError, ErrDesc, ErrorKind};
use crate::assembler::code_pass::{
    bytecode_spec, lemma_pass2_error_extends, lemma_rom_image_fills_banks, pad_rom, pass2_line, pass2_upto, CodePass,
};
use crate::assembler::layout::section_name_of;
use crate::assembler::symbol_pass::{lemma_pass1_error_extends, pass1_line, pass1_params, pass1_upto, symbols_spec, SymbolPass};
use crate::assembler::symbol_table::SymbolTable;
use crate::text::{hex4_string, join2, join3, owned};
use vstd::string::StringExecFns;

verus! {

pub open spec fn duplicate_constant_msg(label: Seq<char>) -> Seq<char> {
    "Duplicate constant definition: "@ + label
}

pub open spec fn invalid_define_msg() -> Seq<char> {
    "Invalid value for .define statement."@
}

/// The constants after one more line: a `.define` adds its name, which must
/// be new, with its value, which must be a number.
pub open spec fn define_step(consts: Map<Seq<char>, i32>, line: AssemblyLine) -> Result<Map<Seq<char>, i32>, ErrDesc> {
    match line.directive {
        Some(Directive::Define(label, op)) => if consts.contains_key(label@) {
            Err(desc(ErrorKind::Semantic, Some(line.line_number), duplicate_constant_msg(label@)))
        } else {
            match op {
                Operand::Immediate(v) => Ok(consts.insert(label@, v)),
                _ => Err(desc(ErrorKind::Semantic, Some(line.line_number), invalid_define_msg())),
            }
        },
        _ => Ok(consts),
    }
}

/// The constants the `.define` directives of `lines` give, or the first error.
pub open spec fn constants_spec(lines: Seq<AssemblyLine>) -> Result<Map<Seq<char>, i32>, ErrDesc>
    decreases lines.len(),
{
    if lines.len() == 0 {
        Ok(Map::empty())
    } else {
        match constants_spec(lines.drop_last()) {
            Ok(consts) => define_step(consts, lines.last()),
            Err(d) => Err(d),
        }
    }
}

/// Line `l` defines the constant `key`.
pub open spec fn defines(l: AssemblyLine, key: Seq<char>) -> bool {
    l.directive matches Some(Directive::Define(label, _)) && label@ == key
}

/// The constant table holds exactly the names the `.define` directives give,
/// each defined once, with the number its directive gives.
pub proof fn lemma_constants_are_the_defines(lines: Seq<AssemblyLine>)
    requires
        constants_spec(lines) is Ok,
    ensures
        forall|key: Seq<char>| #[trigger] constants_spec(lines)->Ok_0.contains_key(key)
            <==> exists|i: int| 0 <= i < lines.len() && #[trigger] defines(lines[i], key),
        forall|i: int, key: Seq<char>| 0 <= i < lines.len() && #[trigger] defines(lines[i], key)
            ==> lines[i].directive->Some_0->Define_1 == Operand::Immediate(constants_spec(lines)->Ok_0[key]),
        forall|i: int, j: int, key: Seq<char>|
            0 <= i < j < lines.len() && #[trigger] defines(lines[i], key) ==> !#[trigger] defines(lines[j], key),
    decreases lines.len(),
{
    if lines.len() > 0 {
        let pre = lines.drop_last();
        lemma_constants_are_the_defines(pre);
        let m0 = constants_spec(pre)->Ok_0;
        let m = constants_spec(lines)->Ok_0;
        let last = lines.len() - 1;
        assert(lines.last() == lines[last]);
        assert(constants_spec(lines) == define_step(m0, lines[last]));
        assert forall|k: int| 0 <= k < pre.len() implies #[trigger] pre[k] == lines[k] by {}
        assert forall|key: Seq<char>| #[trigger] m.contains_key(key)
            <==> exists|i: int| 0 <= i < lines.len() && #[trigger] defines(lines[i], key) by {
            if m.contains_key(key) && !m0.contains_key(key) {
                assert(defines(lines[last], key));
            }
            if m0.contains_key(key) {
                let i = choose|i: int| 0 <= i < pre.len() && #[trigger] defines(pre[i], key);
                assert(defines(lines[i], key));
            }
            if exists|i: int| 0 <= i < lines.len() && #[trigger] defines(lines[i], key) {
                let i = choose|i: int| 0 <= i < lines.len() && #[trigger] defines(lines[i], key);
                if i < last {
                    assert(defines(pre[i], key));
                }
            }
        }
        assert forall|i: int, key: Seq<char>| 0 <= i < lines.len() && #[trigger] defines(lines[i], key)
            implies lines[i].directive->Some_0->Define_1 == Operand::Immediate(m[key]) by {
            if i < last {
                assert(defines(pre[i], key));
                if defines(lines[last], key) {
                    assert(m0.contains_key(key));
                }
            }
        }
        assert forall|i: int, j: int, key: Seq<char>|
            0 <= i < j < lines.len() && #[trigger] defines(lines[i], key) implies !#[trigger] defines(lines[j], key) by {
            if j == last && defines(lines[j], key) {
                assert(pre[i] == lines[i]);
                assert(defines(pre[i], key));
                assert(m0.contains_key(key));
                assert(define_step(m0, lines[last]) is Err);
            } else if j < last {
                assert(pre[i] == lines[i]);
                assert(pre[j] == lines[j]);
                assert(defines(pre[i], key));
                assert(!defines(pre[j], key));
            }
        }
    }
}

/// Every `.define` of the lines gives a number.
pub open spec fn defines_numbers(lines: Seq<AssemblyLine>) -> bool {
    forall|i: int| 0 <= i < lines.len() ==> ((#[trigger] lines[i]).directive matches Some(Directive::Define(_, op))
        ==> op is Immediate)
}

/// No two `.define` directives of the lines give the same name.
pub open spec fn defines_distinct(lines: Seq<AssemblyLine>) -> bool {
    forall|i: int, j: int, key: Seq<char>|
        0 <= i < j < lines.len() && #[trigger] defines(lines[i], key) ==> !#[trigger] defines(lines[j], key)
}

/// The constant table can be built exactly when every `.define` gives a
/// number and no name is defined twice.
pub proof fn lemma_constants_ok_iff(lines: Seq<AssemblyLine>)
    ensures
        constants_spec(lines) is Ok <==> (defines_numbers(lines) && defines_distinct(lines)),
    decreases lines.len(),
{
    if lines.len() > 0 {
        let pre = lines.drop_last();
        let last = lines.len() - 1;
        lemma_constants_ok_iff(pre);
        assert(lines.last() == lines[last]);
        assert forall|k: int| 0 <= k < pre.len() implies #[trigger] pre[k] == lines[k] by {}
        if constants_spec(lines) is Ok {
            lemma_constants_are_the_defines(lines);
            assert(defines_numbers(lines)) by {
                assert forall|i: int| 0 <= i < lines.len() implies ((#[trigger] lines[i]).directive
                    matches Some(Directive::Define(_, op)) ==> op is Immediate) by {
                    if let Some(Directive::Define(label, op)) = lines[i].directive {
                        assert(defines(lines[i], label@));
                    }
                }
            }
        } else if defines_numbers(lines) && defines_distinct(lines) {
            assert(defines_numbers(pre)) by {
                assert forall|i: int| 0 <= i < pre.len() implies ((#[trigger] pre[i]).directive
                    matches Some(Directive::Define(_, op)) ==> op is Immediate) by {
                    assert(pre[i] == lines[i]);
                    assert(lines[i].directive matches Some(Directive::Define(_, op)) ==> op is Immediate);
                }
            }
            assert(defines_distinct(pre)) by {
                assert forall|i: int, j: int, key: Seq<char>|
                    0 <= i < j < pre.len() && #[trigger] defines(pre[i], key) implies !#[trigger] defines(pre[j], key) by {
                    assert(pre[i] == lines[i]);
                    assert(pre[j] == lines[j]);
                }
            }
            lemma_constants_are_the_defines(pre);
            let m0 = constants_spec(pre)->Ok_0;
            assert(constants_spec(lines) == define_step(m0, lines[last]));
            if let Some(Directive::Define(label, op)) = lines[last].directive {
                assert(defines(lines[last], label@));
                if m0.contains_key(label@) {
                    let i = choose|i: int| 0 <= i < pre.len() && #[trigger] defines(pre[i], label@);
                    assert(defines(lines[i], label@));
                }
                assert(lines[last].directive matches Some(Directive::Define(_, op)) ==> op is Immediate);
            }
        }
    }
}

proof fn lemma_constants_error_extends(lines: Seq<AssemblyLine>, n: int)
    requires
        0 <= n <= lines.len(),
        constants_spec(lines.subrange(0, n)) is Err,
    ensures
        constants_spec(lines) == constants_spec(lines.subrange(0, n)),
    decreases lines.len() - n,
{
    if n < lines.len() {
        assert(lines.subrange(0, n + 1).drop_last() == lines.subrange(0, n));
        lemma_constants_error_extends(lines, n + 1);
    } else {
        assert(lines.subrange(0, n) == lines);
    }
}

/// Pass 0: collects the constants that `.define` directives give.
pub fn build_constant_table(lines: &[AssemblyLine]) -> (r: Result<ConstantTable, AssemblyError>)
    ensures
        match constants_spec(lines@) {
            Ok(consts) => r matches Ok(t) && t.wf() && t.map() == consts,
            Err(d) => r matches Err(e) && e.is(d.0, d.1, d.2),
        },
{
    let mut constant_table = ConstantTable::new();
    let mut i: usize = 0;
    assert(lines@.subrange(0, 0) == Seq::<AssemblyLine>::empty());
    while i < lines.len()
        invariant
            i <= lines@.len(),
            constant_table.wf(),
            constants_spec(lines@.subrange(0, i as int)) == Ok::<Map<Seq<char>, i32>, ErrDesc>(constant_table.map()),
        decreases lines@.len() - i,
    {
        let line = &lines[i];
        assert(lines@.subrange(0, i + 1).drop_last() == lines@.subrange(0, i as int));
        assert(lines@.subrange(0, i + 1).last() == lines@[i as int]);
        if let Some(Directive::Define(label, op)) = &line.directive {
            if constant_table.contains_key(label) {
                proof {
                    lemma_constants_error_extends(lines@, i + 1);
                }
                return Err(AssemblyError::SemanticError {
                    line: line.line_number,
                    reason: join2("Duplicate constant definition: ", label.as_str()),
                });
            }
            match op {
                Operand::Immediate(value) => {
                    constant_table.insert(crate::text::copy_string(label), *value);
                },
                _ => {
                    proof {
                        lemma_constants_error_extends(lines@, i + 1);
                    }
                    return Err(AssemblyError::SemanticError {
                        line: line.line_number,
                        reason: crate::text::owned("Invalid value for .define statement."),
                    });
                },
            }
        }
        i = i + 1;
    }
    assert(lines@.subrange(0, i as int) == lines@);
    Ok(constant_table)
}


/// The error replacing the constants of a line gives, if any: its
/// instruction's first, then its directive's.
pub open spec fn line_constants_error(l: AssemblyLine, c: Map<Seq<char>, i32>) -> Option<ErrDesc> {
    match l.instruction {
        Some(i) => match instruction_constants_spec(i, c, l.line_number) {
            Err(d) => Some(d),
            Ok(_) => match l.directive {
                Some(d) => directive_error(d, c, l.line_number),
                None => None,
            },
        },
        None => match l.directive {
            Some(d) => directive_error(d, c, l.line_number),
            None => None,
        },
    }
}

/// A line after its constants were replaced, when that succeeds.
pub open spec fn line_constants_replaced(b: AssemblyLine, a: AssemblyLine, c: Map<Seq<char>, i32>) -> bool {
    &&& a.line_number == b.line_number
    &&& a.label == b.label
    &&& match b.instruction {
        Some(i) => a.instruction is Some && instruction_constants_spec(i, c, b.line_number) == Ok::<_, ErrDesc>(a.instruction->Some_0),
        None => a.instruction is None,
    }
    &&& match b.directive {
        Some(d) => a.directive is Some && directive_replaced(d, a.directive->Some_0, c, b.line_number),
        None => a.directive is None,
    }
}

/// The line left behind when replacing its constants fails: a failing
/// instruction is left as `instruction_after_error` says, with the directive
/// untouched; otherwise the instruction is replaced and the directive is
/// left as `directive_after_error` says.
pub open spec fn line_after_error(b: AssemblyLine, a: AssemblyLine, c: Map<Seq<char>, i32>) -> bool {
    &&& a.line_number == b.line_number
    &&& a.label == b.label
    &&& match b.instruction {
        Some(i) => match instruction_constants_spec(i, c, b.line_number) {
            Err(_) => a.instruction == Some(instruction_after_error(i, c, b.line_number)) && a.directive == b.directive,
            Ok(i2) => a.instruction == Some(i2) && match b.directive {
                Some(d) => a.directive is Some && directive_after_error(d, a.directive->Some_0, c, b.line_number),
                None => false,
            },
        },
        None => a.instruction is None && match b.directive {
            Some(d) => a.directive is Some && directive_after_error(d, a.directive->Some_0, c, b.line_number),
            None => false,
        },
    }
}

/// The lines left behind when replacing constants fails at line `k`: the
/// lines before it replaced, line `k` as `line_after_error` says, the lines
/// after it as they were.
pub open spec fn lines_after_error(before: Seq<AssemblyLine>, after: Seq<AssemblyLine>, c: Map<Seq<char>, i32>, k: int) -> bool {
    &&& 0 <= k < before.len()
    &&& after.len() == before.len()
    &&& forall|j: int| 0 <= j < k ==> line_constants_replaced(#[trigger] before[j], after[j], c)
    &&& line_after_error(before[k], after[k], c)
    &&& forall|j: int| k < j < before.len() ==> #[trigger] after[j] == before[j]
}

/// The first error any of `lines` gives when its constants are replaced.
pub open spec fn first_constants_error(lines: Seq<AssemblyLine>, c: Map<Seq<char>, i32>) -> Option<ErrDesc>
    decreases lines.len(),
{
    if lines.len() == 0 {
        None
    } else {
        match first_constants_error(lines.drop_last(), c) {
            Some(d) => Some(d),
            None => line_constants_error(lines.last(), c),
        }
    }
}

proof fn lemma_first_error_extends(lines: Seq<AssemblyLine>, c: Map<Seq<char>, i32>, n: int)
    requires
        0 <= n <= lines.len(),
        first_constants_error(lines.subrange(0, n), c) is Some,
    ensures
        first_constants_error(lines, c) == first_constants_error(lines.subrange(0, n), c),
    decreases lines.len() - n,
{
    if n < lines.len() {
        assert(lines.subrange(0, n + 1).drop_last() == lines.subrange(0, n));
        lemma_first_error_extends(lines, c, n + 1);
    } else {
        assert(lines.subrange(0, n) == lines);
    }
}

/// Pass 0.5: replaces the names of constants among the operands of every
/// line by their values.
pub fn process_constants(lines: &mut Vec<AssemblyLine>, constant_table: &ConstantTable) -> (r: Result<(), AssemblyError>)
    requires
        constant_table.wf(),
    ensures
        match first_constants_error(old(lines)@, constant_table.map()) {
            None => r is Ok && final(lines)@.len() == old(lines)@.len()
                && forall|i: int| 0 <= i < old(lines)@.len()
                    ==> line_constants_replaced(#[trigger] old(lines)@[i], final(lines)@[i], constant_table.map()),
            Some(d) => r matches Err(e) && e.is(d.0, d.1, d.2) && exists|k: int|
                first_constants_error(old(lines)@.subrange(0, k), constant_table.map()) is None
                && line_constants_error(#[trigger] old(lines)@[k], constant_table.map()) is Some
                && lines_after_error(old(lines)@, final(lines)@, constant_table.map(), k),
        },
{
    let ghost before = lines@;
    let ghost c = constant_table.map();
    let mut i: usize = 0;
    assert(before.subrange(0, 0) == Seq::<AssemblyLine>::empty());
    while i < lines.len()
        invariant
            constant_table.wf(),
            c == constant_table.map(),
            before == old(lines)@,
            i <= lines@.len(),
            lines@.len() == before.len(),
            first_constants_error(before.subrange(0, i as int), c) is None,
            forall|j: int| 0 <= j < i ==> line_constants_replaced(#[trigger] before[j], lines@[j], c),
            forall|j: int| i <= j < lines@.len() ==> #[trigger] lines@[j] == before[j],
        decreases lines@.len() - i,
    {
        assert(before.subrange(0, i + 1).drop_last() == before.subrange(0, i as int));
        assert(before.subrange(0, i + 1).last() == before[i as int]);
        let ghost mid = lines@;
        let line = &mut lines[i];
        let line_number = line.line_number;
        let r1 = match &mut line.instruction {
            Some(instruction) => process_instruction_constants(instruction, constant_table, &line_number),
            None => Ok(()),
        };
        let r2 = if r1.is_ok() {
            match &mut line.directive {
                Some(directive) => process_directive_constants(directive, constant_table, &line_number),
                None => Ok(()),
            }
        } else {
            Ok(())
        };
        if r1.is_err() || r2.is_err() {
            proof {
                lemma_first_error_extends(before, c, i + 1);
                assert(lines_after_error(before, lines@, c, i as int)) by {
                    assert forall|j: int| i < j < before.len() implies #[trigger] lines@[j] == before[j] by {
                        assert(lines@[j] == mid[j]);
                    }
                    assert forall|j: int| 0 <= j < i implies line_constants_replaced(#[trigger] before[j], lines@[j], c) by {
                        assert(lines@[j] == mid[j]);
                    }
                }
                assert(line_constants_error(before[i as int], c) is Some);
            }
            if r1.is_err() {
                return r1;
            }
            return r2;
        }
        i = i + 1;
    }
    assert(before.subrange(0, i as int) == before);
    Ok(())
}


fn misplaced_error(what: &str, expected: u16, found: u32) -> (e: AssemblyError)
    ensures
        e.is(
            ErrorKind::StructureNoLine,
            None,
            what@ + crate::text::hex4_text(expected as nat) + ", found at "@ + crate::text::hex4_text(found as nat),
        ),
{
    let h1 = hex4_string(expected as u64);
    let h2 = hex4_string(found as u64);
    let mut reason = owned(what);
    reason.append(h1.as_str());
    reason.append(", found at ");
    reason.append(h2.as_str());
    AssemblyError::StructuralErrorNoLine { reason }
}

fn missing_error(what: &str, expected: u16) -> (e: AssemblyError)
    ensures
        e.is(ErrorKind::StructureNoLine, None, what@ + crate::text::hex4_text(expected as nat)),
{
    let h = hex4_string(expected as u64);
    AssemblyError::StructuralErrorNoLine { reason: join2(what, h.as_str()) }
}

/// Pass 1: gives every label the logical address and bank where it stands,
/// and checks how the directives lay out the rom.
pub fn build_symbol_table(
    lines: &[AssemblyLine],
    final_logical_addr: &u16,
    expected_interrupt_table_addr: Option<u16>,
    expected_header_addr: Option<u16>,
    constant_table: &ConstantTable,
) -> (r: Result<SymbolTable, AssemblyError>)
    requires
        constant_table.wf(),
    ensures
        match symbols_spec(
            lines@,
            pass1_params(*final_logical_addr, expected_interrupt_table_addr, expected_header_addr, constant_table.map()),
        ) {
            Ok(m) => r matches Ok(t) && t.wf() && t.map() == m,
            Err(d) => r matches Err(e) && e.is(d.0, d.1, d.2),
        },
{
    let ghost p = pass1_params(*final_logical_addr, expected_interrupt_table_addr, expected_header_addr, constant_table.map());
    let mut st = SymbolPass::new();
    let mut i: usize = 0;
    while i < lines.len()
        invariant
            constant_table.wf(),
            p == pass1_params(*final_logical_addr, expected_interrupt_table_addr, expected_header_addr, constant_table.map()),
            i <= lines@.len(),
            st.wf(),
            pass1_upto(lines@, i as int, p) == Ok::<_, ErrDesc>(st@),
        decreases lines@.len() - i,
    {
        let r = pass1_line(&mut st, &lines[i], *final_logical_addr, expected_interrupt_table_addr, expected_header_addr, constant_table);
        if let Err(e) = r {
            proof {
                lemma_pass1_error_extends(lines@, i + 1, p);
            }
            return Err(e);
        }
        i = i + 1;
    }
    if let Some(ctx) = &st.section {
        let name = section_name_of(&ctx.name);
        return Err(AssemblyError::StructuralErrorNoLine {
            reason: join3("section \"", name.as_str(), "\" has no matching .section_end statement."),
        });
    }
    match (expected_header_addr, st.found_header) {
        (Some(ex_addr), Some(found_addr)) => {
            if ex_addr as u32 != found_addr {
                return Err(misplaced_error("Expected cartridge rom header at ", ex_addr, found_addr));
            }
        },
        (Some(ex_addr), None) => {
            return Err(missing_error("Expected cartridge rom header at ", ex_addr));
        },
        _ => {},
    }
    match (expected_interrupt_table_addr, st.found_interrupt) {
        (Some(ex_addr), Some(found_addr)) => {
            if ex_addr as u32 != found_addr {
                return Err(misplaced_error("Expected interrupt vector table at ", ex_addr, found_addr));
            }
        },
        (Some(ex_addr), None) => {
            return Err(missing_error("Expected interrupt vector table at ", ex_addr));
        },
        _ => {},
    }
    Ok(st.symbols)
}


/// Pass 2: emits the machine code of every line, and pads the result with
/// 0xFF to whole rom banks, at least two.
pub fn generate_bytecode(lines: &[AssemblyLine], symbol_table: &SymbolTable) -> (r: Result<Vec<u8>, AssemblyError>)
    requires
        symbol_table.wf(),
    ensures
        bytes_match(r, bytecode_spec(lines@, symbol_table.map())),
        r matches Ok(v) ==> v@.len() % 16384 == 0 && v@.len() >= 32768,
{
    let ghost syms = symbol_table.map();
    let mut cp = CodePass::new();
    let mut i: usize = 0;
    while i < lines.len()
        invariant
            symbol_table.wf(),
            syms == symbol_table.map(),
            i <= lines@.len(),
            pass2_upto(lines@, i as int, syms) == Ok::<_, ErrDesc>(cp@),
        decreases lines@.len() - i,
    {
        let r = pass2_line(&mut cp, &lines[i], symbol_table);
        if let Err(e) = r {
            proof {
                lemma_pass2_error_extends(lines@, i + 1, syms);
            }
            return Err(e);
        }
        i = i + 1;
    }
    let mut bytecode = cp.bytecode;
    pad_rom(&mut bytecode);
    proof {
        lemma_rom_image_fills_banks(cp@.bytes);
    }
    Ok(bytecode)
}

} // verus!
