use vstd::prelude::*;
use crate::errors::{desc, AssemblyError, ErrDesc, ErrorKind};
use crate::parser::ast_builder::operand_builders::is_word_text;
use crate::parser::ast_builder::validators::BuilderView;
use crate::parser::ast_builder::AstBuilder;
use crate::parser::line::{body_parts, line_parts, split_args, split_body, split_line, split_spec, split_via, texts_of, via_texts};
use crate::text::{owned, string_from_chars};

verus! {

/// The operand texts of a line's arguments: `.define` and `.section` take
/// words separated by blanks, everything else a comma separated list; a far
/// call or jump splits `target via trampoline` in two.
pub open spec fn arg_texts(is_dir: bool, name: Seq<char>, args: Seq<char>) -> Seq<Seq<char>> {
    if is_dir {
        split_spec(args, name == "define"@ || name == "section"@)
    } else if name == "call.far"@ || name == "jmp.far"@ {
        via_texts(split_spec(args, false))
    } else {
        split_spec(args, false)
    }
}

/// The directive or instruction that line `n` holds after its label:
/// whether it is a directive, its lower case name and a fresh builder.
pub open spec fn line_body(t: Seq<char>, n: usize) -> Option<(bool, Seq<char>, BuilderView)> {
    let rest = line_parts(t).1;
    if rest.len() == 0 {
        None
    } else {
        let (d, name, args) = body_parts(rest);
        Some((d, name, BuilderView { line: n, texts: arg_texts(d, name, args), next: 0 }))
    }
}

/// One item of a program, before its instruction or directive is built.
pub enum Plan {
    Label(Seq<char>, usize),
    Instr(Seq<char>, BuilderView),
    Dir(Seq<char>, BuilderView),
    /// A `.header_start` block: the builder of its first line and its fields.
    Header(BuilderView, Seq<(Seq<char>, BuilderView)>),
    /// An `.interrupt_table` block: the builder of its first line and its entries.
    Table(BuilderView, Seq<(Seq<char>, BuilderView)>),
}

/// A block that has been opened and not yet closed.
pub struct OpenBlock {
    pub header: bool,
    pub start: BuilderView,
    pub fields: Seq<(Seq<char>, BuilderView)>,
}

/// The items found so far, and the block still open, if any.
pub struct Grouping {
    pub plans: Seq<Plan>,
    pub open: Option<OpenBlock>,
}

/// Whether a line's body opens a block, and which.
pub open spec fn block_start(body: Option<(bool, Seq<char>, BuilderView)>) -> Option<bool> {
    match body {
        Some((d, name, bv)) => if d && bv.texts.len() == 0 && name == "header_start"@ {
            Some(true)
        } else if d && bv.texts.len() == 0 && name == "interrupt_table"@ {
            Some(false)
        } else {
            None
        },
        None => None,
    }
}

/// The directive that closes a block.
pub open spec fn end_name(header: bool) -> Seq<char> {
    if header {
        "header_end"@
    } else {
        "table_end"@
    }
}

pub open spec fn label_in_block_msg() -> Seq<char> {
    "A label cannot stand inside a .header_start or .interrupt_table block."@
}

pub open spec fn instruction_in_block_msg() -> Seq<char> {
    "Only directives can stand inside a .header_start or .interrupt_table block."@
}

pub open spec fn unterminated_msg(header: bool) -> Seq<char> {
    if header {
        "Unterminated .header_start block: .header_end is missing."@
    } else {
        "Unterminated .interrupt_table block: .table_end is missing."@
    }
}

pub open spec fn closed_block(o: OpenBlock) -> Plan {
    if o.header {
        Plan::Header(o.start, o.fields)
    } else {
        Plan::Table(o.start, o.fields)
    }
}

/// What line `n` adds: outside a block its label and its instruction or
/// directive, or the start of a block; inside a block, a field, or the
/// block's end.
pub open spec fn group_step(g: Grouping, t: Seq<char>, n: usize) -> Result<Grouping, ErrDesc> {
    let lab = line_parts(t).0;
    let body = line_body(t, n);
    match g.open {
        None => {
            let labeled = match lab {
                Some(l) => g.plans.push(Plan::Label(l, n)),
                None => g.plans,
            };
            match body {
                None => Ok(Grouping { plans: labeled, open: None }),
                Some((d, name, bv)) => match block_start(body) {
                    Some(h) => Ok(Grouping { plans: labeled, open: Some(OpenBlock { header: h, start: bv, fields: Seq::empty() }) }),
                    None => Ok(Grouping {
                        plans: labeled.push(if d { Plan::Dir(name, bv) } else { Plan::Instr(name, bv) }),
                        open: None,
                    }),
                },
            }
        },
        Some(o) => if lab is Some {
            Err(desc(ErrorKind::Syntax, Some(n), label_in_block_msg()))
        } else {
            match body {
                None => Ok(g),
                Some((d, name, bv)) => if !d {
                    Err(desc(ErrorKind::Syntax, Some(n), instruction_in_block_msg()))
                } else if name == end_name(o.header) && bv.texts.len() == 0 {
                    Ok(Grouping { plans: g.plans.push(closed_block(o)), open: None })
                } else {
                    Ok(Grouping {
                        plans: g.plans,
                        open: Some(OpenBlock { header: o.header, start: o.start, fields: o.fields.push((name, bv)) }),
                    })
                },
            }
        },
    }
}

/// The grouping of the first `n` lines, or the first error.
pub open spec fn group_upto(ls: Seq<Seq<char>>, n: int) -> Result<Grouping, ErrDesc>
    decreases n,
{
    if n <= 0 {
        Ok(Grouping { plans: Seq::empty(), open: None })
    } else {
        match group_upto(ls, n - 1) {
            Err(d) => Err(d),
            Ok(g) => group_step(g, ls[n - 1], n as usize),
        }
    }
}

/// The items of a program given by its lines; a block left open is an error.
pub open spec fn group_spec(ls: Seq<Seq<char>>) -> Result<Seq<Plan>, ErrDesc> {
    match group_upto(ls, ls.len() as int) {
        Err(d) => Err(d),
        Ok(g) => match g.open {
            Some(o) => Err(desc(ErrorKind::Syntax, Some(o.start.line), unterminated_msg(o.header))),
            None => Ok(g.plans),
        },
    }
}

/// A program item with its builders, ready to be built.
pub enum Unit {
    Label(String, usize),
    Instr(AstBuilder),
    Dir(AstBuilder),
    Header(AstBuilder, Vec<AstBuilder>),
    Table(AstBuilder, Vec<AstBuilder>),
}

pub open spec fn fields_view(fs: Seq<AstBuilder>) -> Seq<(Seq<char>, BuilderView)> {
    fs.map_values(|f: AstBuilder| (f.rule@, f@))
}

pub open spec fn fresh(b: AstBuilder) -> bool {
    b.wf() && b.next == 0
}

pub open spec fn all_fresh(fs: Seq<AstBuilder>) -> bool {
    forall|i: int| 0 <= i < fs.len() ==> fresh(#[trigger] fs[i])
}

impl Unit {
    pub open spec fn plan(&self) -> Plan {
        match self {
            Unit::Label(s, n) => Plan::Label(s@, *n),
            Unit::Instr(b) => Plan::Instr(b.rule@, b@),
            Unit::Dir(b) => Plan::Dir(b.rule@, b@),
            Unit::Header(b, fs) => Plan::Header(b@, fields_view(fs@)),
            Unit::Table(b, fs) => Plan::Table(b@, fields_view(fs@)),
        }
    }

    pub open spec fn ready(&self) -> bool {
        match self {
            Unit::Label(_, _) => true,
            Unit::Instr(b) => fresh(*b),
            Unit::Dir(b) => fresh(*b),
            Unit::Header(b, fs) => all_fresh(fs@),
            Unit::Table(b, fs) => all_fresh(fs@),
        }
    }
}

pub open spec fn plans_of(us: Seq<Unit>) -> Seq<Plan> {
    us.map_values(|u: Unit| u.plan())
}

pub open spec fn all_ready(us: Seq<Unit>) -> bool {
    forall|i: int| 0 <= i < us.len() ==> (#[trigger] us[i]).ready()
}

/// A block being collected.
pub struct Block {
    pub header: bool,
    pub start: AstBuilder,
    pub fields: Vec<AstBuilder>,
}

pub open spec fn block_view(b: Option<Block>) -> Option<OpenBlock> {
    match b {
        Some(k) => Some(OpenBlock { header: k.header, start: k.start@, fields: fields_view(k.fields@) }),
        None => None,
    }
}

pub open spec fn block_fresh(b: Option<Block>) -> bool {
    match b {
        Some(k) => all_fresh(k.fields@),
        None => true,
    }
}

/// The label and the builder of the body of line `n`.
fn line_pieces(t: &[char], n: usize) -> (r: (Option<Vec<char>>, Option<(bool, AstBuilder)>))
    ensures
        match r.0 {
            Some(l) => line_parts(t@).0 == Some(l@),
            None => line_parts(t@).0 is None,
        },
        match r.1 {
            Some((d, b)) => line_body(t@, n) == Some((d, b.rule@, b@)) && fresh(b),
            None => line_body(t@, n) is None,
        },
{
    let (label, rest) = split_line(t);
    if rest.len() == 0 {
        return (label, None);
    }
    let (d, name, args) = split_body(rest.as_slice());
    let texts = if d {
        let by_space = is_word_text(name.as_slice(), "define") || is_word_text(name.as_slice(), "section");
        split_args(args.as_slice(), by_space)
    } else if is_word_text(name.as_slice(), "call.far") || is_word_text(name.as_slice(), "jmp.far") {
        let parts = split_args(args.as_slice(), false);
        split_via(parts)
    } else {
        split_args(args.as_slice(), false)
    };
    proof {
        assert(texts_of(texts@) == arg_texts(d, name@, args@));
        assert(texts@.map_values(|p: Vec<char>| p@) == texts_of(texts@));
    }
    let b = AstBuilder::new(n, name, texts);
    (label, Some((d, b)))
}

/// Adds one line to the items found so far.
fn group_line(units: Vec<Unit>, open: Option<Block>, t: &[char], n: usize) -> (r: Result<(Vec<Unit>, Option<Block>), AssemblyError>)
    requires
        all_ready(units@),
        block_fresh(open),
    ensures
        match group_step(Grouping { plans: plans_of(units@), open: block_view(open) }, t@, n) {
            Ok(g) => r matches Ok((us, o)) && plans_of(us@) == g.plans && block_view(o) == g.open
                && all_ready(us@) && block_fresh(o),
            Err(d) => r matches Err(e) && e.is(d.0, d.1, d.2),
        },
{
    let (label, body) = line_pieces(t, n);
    let mut units = units;
    match open {
        None => {
            if let Some(l) = label {
                let s = string_from_chars(l.as_slice());
                let ghost before = units@;
                units.push(Unit::Label(s, n));
                assert(plans_of(units@) =~= plans_of(before).push(Plan::Label(l@, n)));
            }
            match body {
                None => Ok((units, None)),
                Some((d, b)) => {
                    let no_args = b.pairs.len() == 0;
                    if d && no_args && is_word_text(b.rule.as_slice(), "header_start") {
                        let fields: Vec<AstBuilder> = Vec::new();
                        assert(fields_view(fields@) =~= Seq::<(Seq<char>, BuilderView)>::empty());
                        Ok((units, Some(Block { header: true, start: b, fields })))
                    } else if d && no_args && is_word_text(b.rule.as_slice(), "interrupt_table") {
                        let fields: Vec<AstBuilder> = Vec::new();
                        assert(fields_view(fields@) =~= Seq::<(Seq<char>, BuilderView)>::empty());
                        Ok((units, Some(Block { header: false, start: b, fields })))
                    } else {
                        let ghost before = units@;
                        let ghost p = if d { Plan::Dir(b.rule@, b@) } else { Plan::Instr(b.rule@, b@) };
                        if d {
                            units.push(Unit::Dir(b));
                        } else {
                            units.push(Unit::Instr(b));
                        }
                        assert(plans_of(units@) =~= plans_of(before).push(p));
                        Ok((units, None))
                    }
                },
            }
        },
        Some(k) => {
            if label.is_some() {
                return Err(AssemblyError::SyntaxError {
                    line: n,
                    reason: owned("A label cannot stand inside a .header_start or .interrupt_table block."),
                });
            }
            match body {
                None => Ok((units, Some(k))),
                Some((d, b)) => {
                    if !d {
                        return Err(AssemblyError::SyntaxError {
                            line: n,
                            reason: owned("Only directives can stand inside a .header_start or .interrupt_table block."),
                        });
                    }
                    let ends = if k.header {
                        is_word_text(b.rule.as_slice(), "header_end")
                    } else {
                        is_word_text(b.rule.as_slice(), "table_end")
                    };
                    if ends && b.pairs.len() == 0 {
                        let ghost before = units@;
                        let ghost p = closed_block(block_view(Some(k))->Some_0);
                        if k.header {
                            units.push(Unit::Header(k.start, k.fields));
                        } else {
                            units.push(Unit::Table(k.start, k.fields));
                        }
                        assert(plans_of(units@) =~= plans_of(before).push(p));
                        Ok((units, None))
                    } else {
                        let mut fields = k.fields;
                        let ghost before = fields@;
                        let ghost entry = (b.rule@, b@);
                        fields.push(b);
                        assert(fields_view(fields@) =~= fields_view(before).push(entry));
                        Ok((units, Some(Block { header: k.header, start: k.start, fields })))
                    }
                },
            }
        },
    }
}

/// Groups the lines of a program into its items: labels, instructions,
/// directives and whole `.header_start` and `.interrupt_table` blocks.
pub fn group_lines(ls: &Vec<Vec<char>>) -> (r: Result<Vec<Unit>, AssemblyError>)
    ensures
        match group_spec(texts_of(ls@)) {
            Ok(ps) => r matches Ok(us) && plans_of(us@) == ps && all_ready(us@),
            Err(d) => r matches Err(e) && e.is(d.0, d.1, d.2),
        },
{
    let ghost lt = texts_of(ls@);
    let mut units: Vec<Unit> = Vec::new();
    let mut open: Option<Block> = None;
    let mut i: usize = 0;
    assert(plans_of(units@) =~= Seq::<Plan>::empty());
    while i < ls.len()
        invariant
            lt == texts_of(ls@),
            i <= ls@.len(),
            all_ready(units@),
            block_fresh(open),
            group_upto(lt, i as int) == Ok::<Grouping, ErrDesc>(Grouping { plans: plans_of(units@), open: block_view(open) }),
        decreases ls@.len() - i,
    {
        assert(lt[i as int] == ls@[i as int]@);
        match group_line(units, open, ls[i].as_slice(), i + 1) {
            Ok((us, o)) => {
                units = us;
                open = o;
            },
            Err(e) => {
                proof {
                    lemma_group_error_extends(lt, i as int + 1, lt.len() as int);
                }
                return Err(e);
            },
        }
        i = i + 1;
    }
    match open {
        Some(k) => {
            let msg = if k.header {
                owned("Unterminated .header_start block: .header_end is missing.")
            } else {
                owned("Unterminated .interrupt_table block: .table_end is missing.")
            };
            Err(AssemblyError::SyntaxError { line: k.start.line_number, reason: msg })
        },
        None => Ok(units),
    }
}

proof fn lemma_group_error_extends(ls: Seq<Seq<char>>, n: int, m: int)
    requires
        0 <= n <= m,
        group_upto(ls, n) is Err,
    ensures
        group_upto(ls, m) == group_upto(ls, n),
    decreases m - n,
{
    if n < m {
        lemma_group_error_extends(ls, n, m - 1);
    }
}

} // verus!
