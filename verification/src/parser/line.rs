use vstd::prelude::*;
use crate::parser::ast_builder::operand_builders::{lower, lower_char, lower_text};
use crate::parser::lexer::{is_ident_char, is_ident_char_char, is_space, is_space_char, sub_chars, trim_chars, trimmed};

verus! {

/// Whether position `i` of `s` lies inside a string literal.
pub open spec fn in_quote(s: Seq<char>, i: int) -> bool
    decreases i,
{
    if i <= 0 {
        false
    } else if s[i - 1] == '"' {
        !in_quote(s, i - 1)
    } else {
        in_quote(s, i - 1)
    }
}

/// How many parentheses are open before position `i` of `s`, outside strings.
pub open spec fn depth(s: Seq<char>, i: int) -> int
    decreases i,
{
    if i <= 0 {
        0
    } else if in_quote(s, i - 1) || s[i - 1] == '"' {
        depth(s, i - 1)
    } else if s[i - 1] == '(' {
        depth(s, i - 1) + 1
    } else if s[i - 1] == ')' {
        depth(s, i - 1) - 1
    } else {
        depth(s, i - 1)
    }
}

/// Where the code of a line ends: at its first `;` outside a string.
pub open spec fn code_end(s: Seq<char>, i: int) -> int
    decreases s.len() - i,
{
    if i >= s.len() {
        s.len() as int
    } else if s[i] == ';' && !in_quote(s, i) {
        i
    } else {
        code_end(s, i + 1)
    }
}

/// A line without its comment.
pub open spec fn code_of(s: Seq<char>) -> Seq<char> {
    s.subrange(0, code_end(s, 0))
}

/// Whether operands are cut at position `i`: at a comma outside strings
/// and parentheses, or, for word lists, at a blank outside strings.
pub open spec fn cut_at(s: Seq<char>, i: int, by_space: bool) -> bool {
    if by_space {
        is_space(s[i]) && !in_quote(s, i)
    } else {
        s[i] == ',' && !in_quote(s, i) && depth(s, i) == 0
    }
}

pub open spec fn add_piece(done: Seq<Seq<char>>, p: Seq<char>, by_space: bool) -> Seq<Seq<char>> {
    if by_space && p.len() == 0 {
        done
    } else {
        done.push(p)
    }
}

/// The pieces cut off before position `n`, and where the current piece starts.
pub open spec fn pieces_upto(s: Seq<char>, n: int, by_space: bool) -> (Seq<Seq<char>>, int)
    decreases n,
{
    if n <= 0 {
        (Seq::empty(), 0)
    } else {
        let (done, st) = pieces_upto(s, n - 1, by_space);
        if cut_at(s, n - 1, by_space) {
            (add_piece(done, trimmed(s.subrange(st, n - 1)), by_space), n)
        } else {
            (done, st)
        }
    }
}

/// The operand texts of an argument list, each trimmed: cut at commas, or
/// for word lists at blanks; nothing at all for a blank list.
pub open spec fn split_spec(s: Seq<char>, by_space: bool) -> Seq<Seq<char>> {
    if trimmed(s).len() == 0 {
        Seq::empty()
    } else {
        let (done, st) = pieces_upto(s, s.len() as int, by_space);
        add_piece(done, trimmed(s.subrange(st, s.len() as int)), by_space)
    }
}

pub open spec fn texts_of(v: Seq<Vec<char>>) -> Seq<Seq<char>> {
    v.map_values(|p: Vec<char>| p@)
}

/// The end of the run of identifier characters (or, with `dots`, also
/// dots) that starts at `i`.
pub open spec fn run_end(s: Seq<char>, i: int, dots: bool) -> int
    decreases s.len() - i,
{
    if i >= s.len() {
        s.len() as int
    } else if is_ident_char(s[i]) || (dots && s[i] == '.') {
        run_end(s, i + 1, dots)
    } else {
        i
    }
}

/// A line's code without its comment.
pub fn strip_comment(s: &[char]) -> (r: Vec<char>)
    ensures
        r@ == code_of(s@),
{
    let mut i: usize = 0;
    let mut q = false;
    while i < s.len()
        invariant
            i <= s@.len(),
            q == in_quote(s@, i as int),
            code_end(s@, i as int) == code_end(s@, 0),
        decreases s@.len() - i,
    {
        if s[i] == ';' && !q {
            return sub_chars(s, 0, i);
        }
        if s[i] == '"' {
            q = !q;
        }
        i = i + 1;
    }
    sub_chars(s, 0, i)
}

/// Splits an argument list into trimmed operand texts.
pub fn split_args(s: &[char], by_space: bool) -> (r: Vec<Vec<char>>)
    ensures
        texts_of(r@) == split_spec(s@, by_space),
{
    let t = trim_chars(s);
    if t.len() == 0 {
        let r: Vec<Vec<char>> = Vec::new();
        assert(texts_of(r@) =~= Seq::<Seq<char>>::empty());
        return r;
    }
    let mut done: Vec<Vec<char>> = Vec::new();
    let mut start: usize = 0;
    let mut q = false;
    let mut d: i128 = 0;
    let mut i: usize = 0;
    assert(texts_of(done@) =~= Seq::<Seq<char>>::empty());
    while i < s.len()
        invariant
            i <= s@.len(),
            start <= i,
            q == in_quote(s@, i as int),
            d == depth(s@, i as int),
            -(i as int) <= d <= i as int,
            pieces_upto(s@, i as int, by_space) == (texts_of(done@), start as int),
        decreases s@.len() - i,
    {
        let c = s[i];
        let cut = if by_space {
            is_space_char(c) && !q
        } else {
            c == ',' && !q && d == 0
        };
        if cut {
            let raw = sub_chars(s, start, i);
            let p = trim_chars(raw.as_slice());
            if !(by_space && p.len() == 0) {
                let ghost before = done@;
                done.push(p);
                assert(texts_of(done@) =~= texts_of(before).push(trimmed(s@.subrange(start as int, i as int))));
            }
            start = i + 1;
        }
        if q || c == '"' {
            if c == '"' {
                q = !q;
            }
        } else if c == '(' {
            d = d + 1;
        } else if c == ')' {
            d = d - 1;
        }
        i = i + 1;
    }
    let raw = sub_chars(s, start, s.len());
    let p = trim_chars(raw.as_slice());
    if !(by_space && p.len() == 0) {
        let ghost before = done@;
        done.push(p);
        assert(texts_of(done@) =~= texts_of(before).push(trimmed(s@.subrange(start as int, s@.len() as int))));
    }
    done
}

/// The end of the run of identifier characters (and dots, with `dots`)
/// that starts at `i`.
pub fn scan_run(s: &[char], i: usize, dots: bool) -> (j: usize)
    requires
        i <= s@.len(),
    ensures
        j == run_end(s@, i as int, dots),
        i <= j <= s@.len(),
{
    let mut j = i;
    while j < s.len() && (is_ident_char_char(s[j]) || (dots && s[j] == '.'))
        invariant
            i <= j <= s@.len(),
            run_end(s@, j as int, dots) == run_end(s@, i as int, dots),
        decreases s@.len() - j,
    {
        j = j + 1;
    }
    j
}

} // verus!

verus! {

/// Where the label of a line ends: at the colon after an identifier.
pub open spec fn label_end(c: Seq<char>) -> Option<int> {
    if c.len() > 0 && crate::parser::lexer::is_ident_start(c[0]) {
        let k = run_end(c, 0, false);
        if k < c.len() && c[k] == ':' {
            Some(k)
        } else {
            None
        }
    } else {
        None
    }
}

/// A line's label, if any, and the code after it, both trimmed.
pub open spec fn line_parts(s: Seq<char>) -> (Option<Seq<char>>, Seq<char>) {
    let c = trimmed(code_of(s));
    match label_end(c) {
        Some(k) => (Some(c.subrange(0, k)), trimmed(c.subrange(k + 1, c.len() as int))),
        None => (None, c),
    }
}

/// The code after a label: a directive (a dot and its name) or an
/// instruction (its mnemonic), the name in lower case, then the arguments.
pub open spec fn body_parts(rest: Seq<char>) -> (bool, Seq<char>, Seq<char>) {
    if rest.len() > 0 && rest[0] == '.' {
        let e = run_end(rest, 1, false);
        (true, lower_text(rest.subrange(1, e)), rest.subrange(e, rest.len() as int))
    } else {
        let e = run_end(rest, 0, true);
        (false, lower_text(rest.subrange(0, e)), rest.subrange(e, rest.len() as int))
    }
}

/// Splits a line into its label and the code after it.
pub fn split_line(s: &[char]) -> (r: (Option<Vec<char>>, Vec<char>))
    ensures
        match r.0 {
            Some(l) => line_parts(s@).0 == Some(l@),
            None => line_parts(s@).0 is None,
        },
        r.1@ == line_parts(s@).1,
{
    let code = strip_comment(s);
    let c = trim_chars(code.as_slice());
    if c.len() > 0 && crate::parser::lexer::is_ident_start_char(c[0]) {
        let k = scan_run(c.as_slice(), 0, false);
        if k < c.len() && c[k] == ':' {
            let label = sub_chars(c.as_slice(), 0, k);
            let raw = sub_chars(c.as_slice(), k + 1, c.len());
            let rest = trim_chars(raw.as_slice());
            return (Some(label), rest);
        }
    }
    (None, c)
}

/// Splits the code after a label into kind, lower case name and arguments.
pub fn split_body(rest: &[char]) -> (r: (bool, Vec<char>, Vec<char>))
    ensures
        r.0 == body_parts(rest@).0,
        r.1@ == body_parts(rest@).1,
        r.2@ == body_parts(rest@).2,
{
    if rest.len() > 0 && rest[0] == '.' {
        let e = scan_run(rest, 1, false);
        let raw = sub_chars(rest, 1, e);
        let name = crate::parser::ast_builder::operand_builders::to_lower(raw.as_slice());
        (true, name, sub_chars(rest, e, rest.len()))
    } else {
        let e = scan_run(rest, 0, true);
        let raw = sub_chars(rest, 0, e);
        let name = crate::parser::ast_builder::operand_builders::to_lower(raw.as_slice());
        (false, name, sub_chars(rest, e, rest.len()))
    }
}

/// Whether `via` starts at position `k` of a far call's operand text,
/// with blanks on both sides.
pub open spec fn via_at(p: Seq<char>, k: int) -> bool {
    1 <= k && k + 3 < p.len() && is_space(p[k - 1]) && lower(p[k]) == 'v' && lower(p[k + 1]) == 'i'
        && lower(p[k + 2]) == 'a' && is_space(p[k + 3])
}

/// The first position where `via` stands in `p`, if any.
pub open spec fn first_via(p: Seq<char>, k: int) -> Option<int>
    decreases p.len() - k,
{
    if k >= p.len() {
        None
    } else if via_at(p, k) {
        Some(k)
    } else {
        first_via(p, k + 1)
    }
}

/// A far call's single operand text `target via trampoline`, split in two.
pub open spec fn via_texts(texts: Seq<Seq<char>>) -> Seq<Seq<char>> {
    if texts.len() == 1 {
        match first_via(texts[0], 0) {
            Some(k) => seq![
                trimmed(texts[0].subrange(0, k)),
                trimmed(texts[0].subrange(k + 3, texts[0].len() as int)),
            ],
            None => texts,
        }
    } else {
        texts
    }
}

fn is_via_at(p: &[char], k: usize) -> (b: bool)
    ensures
        b == via_at(p@, k as int),
{
    1 <= k && k < p.len() && p.len() - k > 3 && is_space_char(p[k - 1]) && lower_char(p[k]) == 'v'
        && lower_char(p[k + 1]) == 'i' && lower_char(p[k + 2]) == 'a' && is_space_char(p[k + 3])
}

/// Splits `target via trampoline` into its two operand texts.
pub fn split_via(texts: Vec<Vec<char>>) -> (r: Vec<Vec<char>>)
    ensures
        texts_of(r@) == via_texts(texts_of(texts@)),
{
    if texts.len() != 1 {
        return texts;
    }
    let p = texts[0].as_slice();
    assert(texts_of(texts@)[0] == p@);
    let mut k: usize = 0;
    while k < p.len()
        invariant
            k <= p@.len(),
            first_via(p@, k as int) == first_via(p@, 0),
            texts@.len() == 1,
            texts_of(texts@)[0] == p@,
        decreases p@.len() - k,
    {
        if is_via_at(p, k) {
            assert(first_via(p@, k as int) == Some(k as int));
            let left_raw = sub_chars(p, 0, k);
            let right_raw = sub_chars(p, k + 3, p.len());
            let left = trim_chars(left_raw.as_slice());
            let right = trim_chars(right_raw.as_slice());
            let mut r: Vec<Vec<char>> = Vec::new();
            r.push(left);
            r.push(right);
            assert(texts_of(r@) =~= via_texts(texts_of(texts@)));
            return r;
        }
        k = k + 1;
    }
    texts
}

/// The lines of a text, cut at each newline.
pub open spec fn lines_upto(s: Seq<char>, n: int) -> (Seq<Seq<char>>, int)
    decreases n,
{
    if n <= 0 {
        (Seq::empty(), 0)
    } else {
        let (done, st) = lines_upto(s, n - 1);
        if s[n - 1] == '\n' {
            (done.push(s.subrange(st, n - 1)), n)
        } else {
            (done, st)
        }
    }
}

pub open spec fn lines_of(s: Seq<char>) -> Seq<Seq<char>> {
    let (done, st) = lines_upto(s, s.len() as int);
    done.push(s.subrange(st, s.len() as int))
}

/// Cuts a text into its lines.
pub fn split_lines(s: &[char]) -> (r: Vec<Vec<char>>)
    ensures
        texts_of(r@) == lines_of(s@),
{
    let mut done: Vec<Vec<char>> = Vec::new();
    let mut start: usize = 0;
    let mut i: usize = 0;
    assert(texts_of(done@) =~= Seq::<Seq<char>>::empty());
    while i < s.len()
        invariant
            i <= s@.len(),
            start <= i,
            lines_upto(s@, i as int) == (texts_of(done@), start as int),
        decreases s@.len() - i,
    {
        if s[i] == '\n' {
            let l = sub_chars(s, start, i);
            let ghost before = done@;
            done.push(l);
            assert(texts_of(done@) =~= texts_of(before).push(s@.subrange(start as int, i as int)));
            start = i + 1;
        }
        i = i + 1;
    }
    let l = sub_chars(s, start, s.len());
    let ghost before = done@;
    done.push(l);
    assert(texts_of(done@) =~= texts_of(before).push(s@.subrange(start as int, s@.len() as int)));
    done
}

} // verus!
