pub mod ast_builder;
pub mod lexer;
pub mod line;
pub mod program;

use vstd::prelude::*;
use crate::ast::{AssemblyLine, Directive, Operand, OperandView};
use crate::errors::{AssemblyError, ErrDesc, ErrorKind};
use crate::file_reader::{path_key, same_path, FileReader, FileView};
use crate::parser::ast_builder::directive::{
    builders_view, dir_rule, directive_ok, entries_upto, fields_upto, header_view, table_size_msg, DirRule,
};
use crate::parser::ast_builder::validators::pop_spec;
use crate::parser::ast_builder::instruction::instruction_ok;
use crate::parser::ast_builder::validators::err_at;
use crate::parser::line::{lines_of, split_lines, texts_of};
use crate::parser::program::{all_ready, fields_view, group_lines, group_spec, plans_of, Plan, Unit};
use crate::text::{chars_of, join2, join3};

verus! {

/// The parser of the assembly language.
pub struct CicadaParser;

/// Whether `r` is what building item `p` gives.
pub open spec fn plan_item_ok(p: Plan, r: Result<AssemblyLine, AssemblyError>) -> bool {
    match p {
        Plan::Label(l, n) => r matches Ok(a) && a.line_number == n && a.instruction is None && a.directive is None
            && (a.label matches Some(s) && s@ == l),
        Plan::Instr(m, bv) => match r {
            Ok(a) => a.line_number == bv.line && a.label is None && a.directive is None
                && (a.instruction matches Some(i) && instruction_ok(m, bv, Ok(i))),
            Err(e) => instruction_ok(m, bv, Err(e)),
        },
        Plan::Dir(m, bv) => match r {
            Ok(a) => a.line_number == bv.line && a.label is None && a.instruction is None
                && (a.directive matches Some(d) && directive_ok(m, bv, Ok(d))),
            Err(e) => directive_ok(m, bv, Err(e)),
        },
        Plan::Header(bv, fs) => match fields_upto(fs, fs.len() as int) {
            Ok(h) => r matches Ok(a) && a.line_number == bv.line && a.label is None && a.instruction is None
                && (a.directive matches Some(Directive::Header(info)) && header_view(info) == h),
            Err(d) => r matches Err(e) && e.is(d.0, d.1, d.2),
        },
        Plan::Table(bv, es) => match entries_upto(es, es.len() as int) {
            Ok(vs) => if vs.len() < 12 || vs.len() > 16 {
                r matches Err(e) && e.is(err_at(bv, table_size_msg()).0, err_at(bv, table_size_msg()).1, table_size_msg())
            } else {
                r matches Ok(a) && a.line_number == bv.line && a.label is None && a.instruction is None
                    && (a.directive matches Some(Directive::Interrupt(v)) && v@.len() == vs.len()
                    && forall|i: int| 0 <= i < vs.len() ==> (#[trigger] v@[i])@ == vs[i])
            },
            Err(d) => r matches Err(e) && e.is(d.0, d.1, d.2),
        },
    }
}

/// Whether item `p` builds.
pub open spec fn plan_builds(p: Plan) -> bool {
    exists|a: AssemblyLine| plan_item_ok(p, Ok(a))
}

/// Whether `r` is what building the items `ps` one after the other gives:
/// all of them, or the error of the first that does not build.
pub open spec fn items_ok(ps: Seq<Plan>, r: Result<Vec<AssemblyLine>, AssemblyError>) -> bool {
    match r {
        Ok(v) => v@.len() == ps.len() && forall|i: int| 0 <= i < ps.len() ==> plan_item_ok(ps[i], Ok(#[trigger] v@[i])),
        Err(e) => first_failure(ps, e),
    }
}

/// `e` is the error of the first of the items `ps` that does not build.
pub open spec fn first_failure(ps: Seq<Plan>, e: AssemblyError) -> bool {
    exists|k: int|
        0 <= k < ps.len() && plan_item_ok(#[trigger] ps[k], Err(e))
            && forall|i: int| 0 <= i < k ==> plan_builds(#[trigger] ps[i])
}

/// The items of a program's text, before they are built.
pub open spec fn source_plans(src: Seq<char>) -> Result<Seq<Plan>, ErrDesc> {
    group_spec(lines_of(src))
}

fn no_line(line_number: usize) -> (a: AssemblyLine)
    ensures
        a.line_number == line_number,
        a.label is None,
        a.instruction is None,
        a.directive is None,
{
    AssemblyLine { line_number, label: None, instruction: None, directive: None }
}

/// Builds one item.
fn build_unit(u: Unit) -> (r: Result<AssemblyLine, AssemblyError>)
    requires
        u.ready(),
    ensures
        plan_item_ok(u.plan(), r),
{
    match u {
        Unit::Label(s, n) => Ok(AssemblyLine { line_number: n, label: Some(s), instruction: None, directive: None }),
        Unit::Instr(b) => {
            let line = b.line_number;
            match b.build_instruction() {
                Ok(i) => {
                    let mut a = no_line(line);
                    a.instruction = Some(i);
                    Ok(a)
                },
                Err(e) => Err(e),
            }
        },
        Unit::Dir(b) => {
            let line = b.line_number;
            match b.build_directive() {
                Ok(d) => {
                    let mut a = no_line(line);
                    a.directive = Some(d);
                    Ok(a)
                },
                Err(e) => Err(e),
            }
        },
        Unit::Header(b, fs) => {
            let line = b.line_number;
            assert(builders_view(fs@) =~= fields_view(fs@));
            match b.build_header_directive(fs) {
                Ok(d) => {
                    let mut a = no_line(line);
                    a.directive = Some(d);
                    Ok(a)
                },
                Err(e) => Err(e),
            }
        },
        Unit::Table(b, fs) => {
            let line = b.line_number;
            assert(builders_view(fs@) =~= fields_view(fs@));
            match b.build_interrupt_directive(fs) {
                Ok(d) => {
                    let mut a = no_line(line);
                    a.directive = Some(d);
                    Ok(a)
                },
                Err(e) => Err(e),
            }
        },
    }
}

/// Builds the items one after the other, up to the first error.
fn build_units(units: Vec<Unit>) -> (r: Result<Vec<AssemblyLine>, AssemblyError>)
    requires
        all_ready(units@),
    ensures
        items_ok(plans_of(units@), r),
{
    let ghost ps = plans_of(units@);
    let ghost total = units@.len();
    let mut out: Vec<AssemblyLine> = Vec::new();
    let mut rest = units;
    while rest.len() > 0
        invariant
            ps == plans_of(units@),
            ps.len() == total,
            out@.len() + rest@.len() == total,
            all_ready(rest@),
            forall|k: int| 0 <= k < rest@.len() ==> ps[out@.len() + k] == (#[trigger] rest@[k]).plan(),
            forall|i: int| 0 <= i < out@.len() ==> plan_item_ok(ps[i], Ok(#[trigger] out@[i])),
        decreases rest@.len(),
    {
        let ghost before = rest@;
        let ghost at = out@.len() as int;
        let u = rest.remove(0);
        assert(before[0] == u);
        assert forall|k: int| 0 <= k < rest@.len() implies ps[out@.len() + 1 + k] == (#[trigger] rest@[k]).plan() by {
            assert(rest@[k] == before[k + 1]);
        }
        assert(all_ready(rest@)) by {
            assert forall|k: int| 0 <= k < rest@.len() implies (#[trigger] rest@[k]).ready() by {
                assert(rest@[k] == before[k + 1]);
            }
        }
        match build_unit(u) {
            Ok(a) => {
                out.push(a);
            },
            Err(e) => {
                assert(plan_item_ok(ps[at], Err(e)));
                assert forall|i: int| 0 <= i < at implies plan_builds(#[trigger] ps[i]) by {
                    assert(plan_item_ok(ps[i], Ok(out@[i])));
                }
                return Err(e);
            },
        }
    }
    Ok(out)
}

/// Parses the text of a program into its lines: a label stands as an item
/// of its own, followed by the instruction or directive of its line; a
/// `.header_start` or `.interrupt_table` block becomes one directive.
/// `.include` and `.incbin` stay as they are.
pub fn parse_source(source: &str) -> (r: Result<Vec<AssemblyLine>, AssemblyError>)
    ensures
        match source_plans(source@) {
            Err(d) => r matches Err(e) && e.is(d.0, d.1, d.2),
            Ok(ps) => items_ok(ps, r),
        },
{
    let chars = chars_of(source);
    let ls = split_lines(chars.as_slice());
    match group_lines(&ls) {
        Ok(units) => build_units(units),
        Err(e) => Err(e),
    }
}

pub open spec fn read_failed_msg(path: Seq<char>) -> Seq<char> {
    "Failed to read input file: "@ + path
}

/// Parses what reading the file at `file_path` gave: its text, or why it
/// could not be read.
pub fn parse_read_result(file_path: &str, read: Result<String, String>) -> (r: Result<Vec<AssemblyLine>, AssemblyError>)
    ensures
        match read {
            Err(_) => r matches Err(e) && e.is(ErrorKind::File, None, read_failed_msg(file_path@)),
            Ok(text) => match source_plans(text@) {
                Err(d) => r matches Err(e) && e.is(d.0, d.1, d.2),
                Ok(ps) => items_ok(ps, r),
            },
        },
{
    match read {
        Ok(text) => parse_source(text.as_str()),
        Err(_) => Err(AssemblyError::FileError { reason: join2("Failed to read input file: ", file_path) }),
    }
}

/// The line that an `.incbin` of the given bytes stands for: a `.byte`
/// directive with each byte as a number.
pub fn incbin_line(line_number: usize, bytes: &Vec<u8>) -> (a: AssemblyLine)
    ensures
        a.line_number == line_number,
        a.label is None,
        a.instruction is None,
        a.directive matches Some(Directive::Byte(ops)) && ops@.len() == bytes@.len()
            && forall|i: int| 0 <= i < bytes@.len() ==> (#[trigger] ops@[i])@ == OperandView::Immediate(bytes@[i] as i32),
{
    let mut ops: Vec<Operand> = Vec::new();
    let mut i: usize = 0;
    while i < bytes.len()
        invariant
            i <= bytes@.len(),
            ops@.len() == i,
            forall|k: int| 0 <= k < i ==> (#[trigger] ops@[k])@ == OperandView::Immediate(bytes@[k] as i32),
        decreases bytes@.len() - i,
    {
        ops.push(Operand::Immediate(bytes[i] as i32));
        i = i + 1;
    }
    let mut a = no_line(line_number);
    a.directive = Some(Directive::Byte(ops));
    a
}

pub open spec fn binary_failed_msg(path: Seq<char>) -> Seq<char> {
    "Failed to read binary file: "@ + path
}

/// The line that an `.incbin` of `path` on line `line_number` stands for,
/// given what reading the file gave.
pub fn incbin_read_result(line_number: usize, path: &str, read: Result<Vec<u8>, String>) -> (r: Result<AssemblyLine, AssemblyError>)
    ensures
        match read {
            Err(_) => r matches Err(e) && e.is(ErrorKind::File, None, binary_failed_msg(path@)),
            Ok(bytes) => r matches Ok(a) && a.line_number == line_number && a.label is None && a.instruction is None
                && (a.directive matches Some(Directive::Byte(ops)) && ops@.len() == bytes@.len()
                && forall|i: int| 0 <= i < bytes@.len() ==> (#[trigger] ops@[i])@ == OperandView::Immediate(bytes@[i] as i32)),
        },
{
    match read {
        Ok(bytes) => Ok(incbin_line(line_number, &bytes)),
        Err(_) => Err(AssemblyError::FileError { reason: join2("Failed to read binary file: ", path) }),
    }
}

/// Whether `path` is one of the files being read.
fn on_stack(stack: &Vec<String>, path: &str) -> (b: bool)
    ensures
        b == exists|i: int| 0 <= i < stack@.len() && path_key((#[trigger] stack@[i])@) == path_key(path@),
{
    let mut i: usize = 0;
    while i < stack.len()
        invariant
            i <= stack@.len(),
            forall|k: int| 0 <= k < i ==> path_key((#[trigger] stack@[k])@) != path_key(path@),
        decreases stack@.len() - i,
    {
        if same_path(stack[i].as_str(), path) {
            return true;
        }
        i = i + 1;
    }
    false
}

/// Neither an `.include` nor an `.incbin` is left among the lines.
pub open spec fn expanded(v: Seq<AssemblyLine>) -> bool {
    forall|i: int| 0 <= i < v.len() ==> !((#[trigger] v[i]).directive matches Some(Directive::Include(_)))
        && !(v[i].directive matches Some(Directive::Incbin(_)))
}

pub open spec fn too_many_includes_msg(path: Seq<char>) -> Seq<char> {
    "Too many nested includes: "@ + path
}

pub open spec fn circular_include_msg(path: Seq<char>) -> Seq<char> {
    "Circular include detected. ("@ + path + ")"@
}

/// The file an item includes, if it is an `.include` directive.
pub open spec fn include_path(p: Plan) -> Option<Seq<char>> {
    match p {
        Plan::Dir(m, bv) => if dir_rule(m, bv.texts) == DirRule::Include {
            match pop_spec(bv) {
                Ok((OperandView::String(q), _)) => Some(q),
                _ => None,
            }
        } else {
            None
        },
        _ => None,
    }
}

/// The file an item embeds, if it is an `.incbin` directive.
pub open spec fn incbin_path(p: Plan) -> Option<Seq<char>> {
    match p {
        Plan::Dir(m, bv) => if dir_rule(m, bv.texts) == DirRule::Incbin {
            match pop_spec(bv) {
                Ok((OperandView::String(q), _)) => Some(q),
                _ => None,
            }
        } else {
            None
        },
        _ => None,
    }
}

/// The line of a directive item.
pub open spec fn plan_line(p: Plan) -> usize {
    match p {
        Plan::Dir(_, bv) => bv.line,
        _ => 0,
    }
}

/// Every item builds.
pub open spec fn all_build(ps: Seq<Plan>) -> bool {
    forall|i: int| 0 <= i < ps.len() ==> plan_builds(#[trigger] ps[i])
}

/// One line of an expanded program: an item of some file, or the bytes an
/// `.incbin` on the given line embeds.
pub enum Leaf {
    Item(Plan),
    Bytes(usize, Seq<u8>),
}

/// Why expanding a program fails: an error it describes, or the first item
/// of `ps` that does not build.
pub enum Failure {
    Desc(ErrDesc),
    Build(Seq<Plan>),
}

/// The number of items of the file at `path`.
pub open spec fn plan_count(files: Map<Seq<Seq<char>>, FileView>, path: Seq<char>) -> int {
    match files.get(path_key(path)) {
        Some(FileView::Text(t)) => match source_plans(t) {
            Ok(ps) => ps.len() as int,
            Err(_) => 0,
        },
        _ => 0,
    }
}

/// The expanded lines of the file at `path`, read while the files of
/// `stack` are being read: its items, each `.include` replaced by the
/// expanded lines of the file it names, each `.incbin` by the bytes of the
/// file it names; or the first error.
pub open spec fn file_leaves(files: Map<Seq<Seq<char>>, FileView>, path: Seq<char>, stack: Seq<Seq<char>>) -> Result<Seq<Leaf>, Failure>
    decreases usize::MAX - stack.len(), plan_count(files, path) + 1,
{
    if stack.len() >= usize::MAX - 1 {
        Err(Failure::Desc((ErrorKind::File, None, too_many_includes_msg(path))))
    } else {
        match files.get(path_key(path)) {
            Some(FileView::Text(t)) => match source_plans(t) {
                Err(d) => Err(Failure::Desc(d)),
                Ok(ps) => if all_build(ps) {
                    leaves_upto(files, stack.push(path), ps, ps.len() as int)
                } else {
                    Err(Failure::Build(ps))
                },
            },
            _ => Err(Failure::Desc((ErrorKind::File, None, read_failed_msg(path)))),
        }
    }
}

/// The expanded lines of the first `n` items `ps` of a file, read while the
/// files of `stack` (the file itself last) are being read.
pub open spec fn leaves_upto(files: Map<Seq<Seq<char>>, FileView>, stack: Seq<Seq<char>>, ps: Seq<Plan>, n: int) -> Result<Seq<Leaf>, Failure>
    decreases usize::MAX - stack.len() + 1, n,
{
    if n <= 0 || stack.len() > usize::MAX || n > ps.len() {
        Ok(Seq::empty())
    } else {
        match leaves_upto(files, stack, ps, n - 1) {
            Err(f) => Err(f),
            Ok(acc) => {
                let p = ps[n - 1];
                match include_path(p) {
                    Some(q) => if on_path_stack(stack, q) {
                        Err(Failure::Desc((ErrorKind::CircularInclude, Some(plan_line(p)), circular_include_msg(q))))
                    } else {
                        match file_leaves(files, q, stack) {
                            Err(f) => Err(f),
                            Ok(sub) => Ok(acc + sub),
                        }
                    },
                    None => match incbin_path(p) {
                        Some(q) => match files.get(path_key(q)) {
                            Some(FileView::Binary(b)) => Ok(acc.push(Leaf::Bytes(plan_line(p), b))),
                            _ => Err(Failure::Desc((ErrorKind::File, None, binary_failed_msg(q)))),
                        },
                        None => Ok(acc.push(Leaf::Item(p))),
                    },
                }
            },
        }
    }
}

/// Whether `a` is the line that leaf `l` stands for.
pub open spec fn leaf_ok(l: Leaf, a: AssemblyLine) -> bool {
    match l {
        Leaf::Item(p) => plan_item_ok(p, Ok(a)),
        Leaf::Bytes(n, b) => a.line_number == n && a.label is None && a.instruction is None
            && (a.directive matches Some(Directive::Byte(ops)) && ops@.len() == b.len()
            && forall|i: int| 0 <= i < b.len() ==> (#[trigger] ops@[i])@ == OperandView::Immediate(b[i] as i32)),
    }
}

/// The lines `v` are those the leaves stand for, in order.
pub open spec fn leaves_match(ls: Seq<Leaf>, v: Seq<AssemblyLine>) -> bool {
    v.len() == ls.len() && forall|i: int| 0 <= i < ls.len() ==> leaf_ok(ls[i], #[trigger] v[i])
}

/// `e` is the error that failure `f` describes.
pub open spec fn failure_is(f: Failure, e: AssemblyError) -> bool {
    match f {
        Failure::Desc(d) => e.is(d.0, d.1, d.2),
        Failure::Build(ps) => first_failure(ps, e),
    }
}

/// One of the files being read is the file `q` names.
pub open spec fn on_path_stack(stack: Seq<Seq<char>>, q: Seq<char>) -> bool {
    exists|i: int| 0 <= i < stack.len() && path_key(#[trigger] stack[i]) == path_key(q)
}

/// The paths of the files being read.
pub open spec fn stack_view(v: Seq<String>) -> Seq<Seq<char>> {
    v.map_values(|s: String| s@)
}

proof fn lemma_leaves_error_extends(files: Map<Seq<Seq<char>>, FileView>, stack: Seq<Seq<char>>, ps: Seq<Plan>, n: int, m: int)
    requires
        0 <= n <= m <= ps.len(),
        stack.len() <= usize::MAX,
        leaves_upto(files, stack, ps, n) is Err,
    ensures
        leaves_upto(files, stack, ps, m) == leaves_upto(files, stack, ps, n),
    decreases m - n,
{
    if n < m {
        lemma_leaves_error_extends(files, stack, ps, n, m - 1);
    }
}

/// The directive a built item holds tells whether it includes or embeds a
/// file, and which.
proof fn lemma_built_paths(p: Plan, a: AssemblyLine)
    requires
        plan_item_ok(p, Ok(a)),
    ensures
        match a.directive {
            Some(Directive::Include(s)) => include_path(p) == Some(s@) && incbin_path(p) is None && plan_line(p) == a.line_number,
            Some(Directive::Incbin(s)) => incbin_path(p) == Some(s@) && include_path(p) is None && plan_line(p) == a.line_number,
            _ => include_path(p) is None && incbin_path(p) is None,
        },
{
}

/// Reads and parses the file at `file_path` and, in place of each
/// `.include`, the lines of the included file, read the same way; each
/// `.incbin` becomes a `.byte` directive with the file's bytes. A file that
/// includes one of the files being read (those on `include_stack`) is an
/// error.
pub fn parse_source_recursive<F: FileReader>(
    file_path: &str,
    include_stack: &mut Vec<String>,
    reader: &F,
) -> (r: Result<Vec<AssemblyLine>, AssemblyError>)
    ensures
        r matches Ok(v) ==> expanded(v@) && final(include_stack)@ == old(include_stack)@,
        reader.stable() ==> match file_leaves(reader.files(), file_path@, stack_view(old(include_stack)@)) {
            Ok(ls) => r matches Ok(v) && leaves_match(ls, v@),
            Err(f) => r matches Err(e) && failure_is(f, e),
        },
    decreases usize::MAX - old(include_stack)@.len(),
{
    let ghost files = reader.files();
    let ghost st = reader.stable();
    let ghost stack0 = stack_view(include_stack@);
    if include_stack.len() >= usize::MAX - 1 {
        return Err(AssemblyError::FileError { reason: join2("Too many nested includes: ", file_path) });
    }
    include_stack.push(crate::text::owned(file_path));
    let ghost stack1 = stack_view(include_stack@);
    assert(stack1 =~= stack0.push(file_path@));
    let read = reader.read_to_string(file_path);
    let lines = match parse_read_result(file_path, read) {
        Ok(v) => v,
        Err(e) => {
            proof {
                if st {
                    if let Some(FileView::Text(t)) = files.get(path_key(file_path@)) {
                        if let Ok(ps) = source_plans(t) {
                            let k = choose|k: int|
                                0 <= k < ps.len() && plan_item_ok(#[trigger] ps[k], Err(e))
                                    && forall|i: int| 0 <= i < k ==> plan_builds(#[trigger] ps[i]);
                            if all_build(ps) {
                                assert(plan_builds(ps[k]));
                                let a = choose|a: AssemblyLine| plan_item_ok(ps[k], Ok(a));
                                lemma_item_outcome_is_unique(ps[k], a, e);
                            }
                        }
                    }
                }
            }
            return Err(e);
        },
    };
    let ghost ps = source_plans(files.get(path_key(file_path@))->Some_0->Text_0)->Ok_0;
    proof {
        if st {
            assert(all_build(ps)) by {
                assert forall|i: int| 0 <= i < ps.len() implies plan_builds(#[trigger] ps[i]) by {
                    assert(plan_item_ok(ps[i], Ok(lines@[i])));
                }
            }
        }
    }
    let count = lines.len();
    let ghost total = lines@.len() as int;
    let ghost all = lines@;
    let mut ast: Vec<AssemblyLine> = Vec::new();
    let mut rest = lines;
    let mut idx: usize = 0;
    assert(leaves_match(Seq::<Leaf>::empty(), ast@));
    while rest.len() > 0
        invariant
            expanded(ast@),
            include_stack@.len() == old(include_stack)@.len() + 1,
            include_stack@.len() < usize::MAX,
            include_stack@.drop_last() == old(include_stack)@,
            stack1 == stack_view(include_stack@),
            st == reader.stable(),
            files == reader.files(),
            stack0 == stack_view(old(include_stack)@),
            stack1 == stack0.push(file_path@),
            idx + rest@.len() == total,
            total == count,
            forall|k: int| 0 <= k < rest@.len() ==> #[trigger] rest@[k] == all[idx + k],
            st ==> {
                &&& files.get(path_key(file_path@)) matches Some(FileView::Text(t)) && source_plans(t) == Ok::<Seq<Plan>, ErrDesc>(ps)
                &&& all_build(ps)
                &&& ps.len() == total
                &&& forall|k: int| 0 <= k < total ==> plan_item_ok(ps[k], Ok(#[trigger] all[k]))
                &&& leaves_upto(files, stack1, ps, idx as int) matches Ok(acc) && leaves_match(acc, ast@)
            },
        decreases rest@.len(),
    {
        let ghost before_rest = rest@;
        let line = rest.remove(0);
        assert(line == all[idx as int]) by {
            assert(before_rest[0] == all[idx as int]);
        }
        assert forall|k: int| 0 <= k < rest@.len() implies #[trigger] rest@[k] == all[idx + 1 + k] by {
            assert(rest@[k] == before_rest[k + 1]);
        }
        let ghost p = ps[idx as int];
        let ghost acc = leaves_upto(files, stack1, ps, idx as int)->Ok_0;
        proof {
            if st {
                lemma_built_paths(p, line);
            }
        }
        let n = line.line_number;
        let ghost a0 = ast@;
        match &line.directive {
            Some(Directive::Include(inc)) => {
                if on_stack(include_stack, inc.as_str()) {
                    proof {
                        if st {
                            assert(on_path_stack(stack1, inc@)) by {
                                let i = choose|i: int| 0 <= i < include_stack@.len() && path_key((#[trigger] include_stack@[i])@) == path_key(inc@);
                                assert(stack1[i] == include_stack@[i]@);
                            }
                            lemma_leaves_error_extends(files, stack1, ps, idx + 1, total);
                        }
                    }
                    return Err(AssemblyError::CircularIncludeError {
                        line: n,
                        reason: join3("Circular include detected. (", inc.as_str(), ")"),
                    });
                }
                proof {
                    if st {
                        assert(!on_path_stack(stack1, inc@)) by {
                            if on_path_stack(stack1, inc@) {
                                let i = choose|i: int| 0 <= i < stack1.len() && path_key(#[trigger] stack1[i]) == path_key(inc@);
                                assert(include_stack@[i]@ == stack1[i]);
                            }
                        }
                    }
                }
                let sub = parse_source_recursive(inc.as_str(), include_stack, reader);
                match sub {
                    Ok(mut v) => {
                        let ghost v0 = v@;
                        ast.append(&mut v);
                        assert forall|i: int| 0 <= i < ast@.len() implies
                            !((#[trigger] ast@[i]).directive matches Some(Directive::Include(_)))
                            && !(ast@[i].directive matches Some(Directive::Incbin(_))) by {
                            if i < a0.len() {
                                assert(ast@[i] == a0[i]);
                            } else {
                                assert(ast@[i] == v0[i - a0.len()]);
                            }
                        }
                        proof {
                            if st {
                                let sub_ls = file_leaves(files, inc@, stack1)->Ok_0;
                                assert(leaves_upto(files, stack1, ps, idx + 1) == Ok::<Seq<Leaf>, Failure>(acc + sub_ls));
                                assert forall|i: int| 0 <= i < (acc + sub_ls).len() implies
                                    leaf_ok((acc + sub_ls)[i], #[trigger] ast@[i]) by {
                                    if i < a0.len() {
                                        assert(ast@[i] == a0[i]);
                                    } else {
                                        assert(ast@[i] == v0[i - a0.len()]);
                                    }
                                }
                            }
                        }
                    },
                    Err(e) => {
                        proof {
                            if st {
                                lemma_leaves_error_extends(files, stack1, ps, idx + 1, total);
                            }
                        }
                        return Err(e);
                    },
                }
            },
            Some(Directive::Incbin(bin)) => {
                let read = reader.read_binary(bin.as_str());
                match incbin_read_result(n, bin.as_str(), read) {
                    Ok(a) => {
                        ast.push(a);
                        proof {
                            if st {
                                assert(leaves_upto(files, stack1, ps, idx + 1) == Ok::<Seq<Leaf>, Failure>(
                                    acc.push(Leaf::Bytes(n, files.get(path_key(bin@))->Some_0->Binary_0)),
                                ));
                                assert forall|i: int| 0 <= i < ast@.len() implies
                                    leaf_ok(acc.push(Leaf::Bytes(n, files.get(path_key(bin@))->Some_0->Binary_0))[i], #[trigger] ast@[i]) by {
                                    if i < a0.len() {
                                        assert(ast@[i] == a0[i]);
                                    }
                                }
                            }
                        }
                    },
                    Err(e) => {
                        proof {
                            if st {
                                lemma_leaves_error_extends(files, stack1, ps, idx + 1, total);
                            }
                        }
                        return Err(e);
                    },
                }
            },
            _ => {
                ast.push(line);
                proof {
                    if st {
                        assert(leaves_upto(files, stack1, ps, idx + 1) == Ok::<Seq<Leaf>, Failure>(acc.push(Leaf::Item(p))));
                        assert forall|i: int| 0 <= i < ast@.len() implies
                            leaf_ok(acc.push(Leaf::Item(p))[i], #[trigger] ast@[i]) by {
                            if i < a0.len() {
                                assert(ast@[i] == a0[i]);
                            }
                        }
                    }
                }
            },
        }
        idx = idx + 1;
    }
    include_stack.pop();
    proof {
        if st {
            assert(file_leaves(files, file_path@, stack0) == leaves_upto(files, stack1, ps, total));
        }
    }
    Ok(ast)
}

/// Building an item has one outcome: it cannot both build and fail.
pub proof fn lemma_item_outcome_is_unique(p: Plan, a: AssemblyLine, e: AssemblyError)
    ensures
        !(plan_item_ok(p, Ok(a)) && plan_item_ok(p, Err(e))),
{
}

} // verus!
