use vstd::prelude::*;
use crate::parser::ast_builder::operand_builders::chars_eq;
use crate::text::{chars_of, copy_string, join2};
use crate::parser::lexer::sub_chars;

verus! {

/// A path's next component, added to those before it: a component that is
/// empty or `.` names nothing, except at the start of the path, where an
/// empty component is the root and `.` the current directory.
pub open spec fn add_part(done: Seq<Seq<char>>, piece: Seq<char>, first: bool) -> Seq<Seq<char>> {
    if piece.len() == 0 {
        if first {
            done.push(seq!['/'])
        } else {
            done
        }
    } else if piece == seq!['.'] {
        if first {
            done.push(piece)
        } else {
            done
        }
    } else {
        done.push(piece)
    }
}

/// The components of a path cut off before position `n`, and where the
/// current one starts.
pub open spec fn key_upto(p: Seq<char>, n: int) -> (Seq<Seq<char>>, int)
    decreases n,
{
    if n <= 0 {
        (Seq::empty(), 0)
    } else {
        let (done, st) = key_upto(p, n - 1);
        if p[n - 1] == '/' {
            (add_part(done, p.subrange(st, n - 1), st == 0), n)
        } else {
            (done, st)
        }
    }
}

/// The components of a path, by which two paths name the same file:
/// repeated and trailing slashes and `.` components inside the path do not
/// count.
pub open spec fn path_key(p: Seq<char>) -> Seq<Seq<char>> {
    if p.len() == 0 {
        Seq::empty()
    } else {
        let (done, st) = key_upto(p, p.len() as int);
        add_part(done, p.subrange(st, p.len() as int), st == 0)
    }
}

pub open spec fn parts_view(v: Seq<Vec<char>>) -> Seq<Seq<char>> {
    v.map_values(|p: Vec<char>| p@)
}

fn push_part(done: &mut Vec<Vec<char>>, piece: Vec<char>, first: bool)
    ensures
        parts_view(final(done)@) == add_part(parts_view(old(done)@), piece@, first),
{
    let ghost before = parts_view(done@);
    if piece.len() == 0 {
        if first {
            let mut root: Vec<char> = Vec::new();
            root.push('/');
            done.push(root);
            assert(parts_view(done@) =~= before.push(seq!['/']));
        }
    } else if piece.len() == 1 && piece[0] == '.' {
        assert(piece@ =~= seq!['.']);
        if first {
            done.push(piece);
            assert(parts_view(done@) =~= before.push(seq!['.']));
        }
    } else {
        assert(piece@ != seq!['.']);
        let ghost pv = piece@;
        done.push(piece);
        assert(parts_view(done@) =~= before.push(pv));
    }
}

/// The components of a path.
pub fn path_key_of(path: &str) -> (r: Vec<Vec<char>>)
    ensures
        parts_view(r@) == path_key(path@),
{
    let s = chars_of(path);
    let mut done: Vec<Vec<char>> = Vec::new();
    if s.len() == 0 {
        assert(parts_view(done@) =~= Seq::<Seq<char>>::empty());
        return done;
    }
    let mut start: usize = 0;
    let mut i: usize = 0;
    assert(parts_view(done@) =~= Seq::<Seq<char>>::empty());
    while i < s.len()
        invariant
            s@ == path@,
            i <= s@.len(),
            start <= i,
            key_upto(s@, i as int) == (parts_view(done@), start as int),
        decreases s@.len() - i,
    {
        if s[i] == '/' {
            let piece = sub_chars(s.as_slice(), start, i);
            push_part(&mut done, piece, start == 0);
            start = i + 1;
        }
        i = i + 1;
    }
    let piece = sub_chars(s.as_slice(), start, s.len());
    push_part(&mut done, piece, start == 0);
    done
}

/// Whether two paths name the same file.
pub fn same_path(a: &str, b: &str) -> (r: bool)
    ensures
        r == (path_key(a@) == path_key(b@)),
{
    let ka = path_key_of(a);
    let kb = path_key_of(b);
    if ka.len() != kb.len() {
        assert(parts_view(ka@).len() != parts_view(kb@).len());
        return false;
    }
    let mut i: usize = 0;
    while i < ka.len()
        invariant
            parts_view(ka@) == path_key(a@),
            parts_view(kb@) == path_key(b@),
            ka@.len() == kb@.len(),
            i <= ka@.len(),
            forall|k: int| 0 <= k < i ==> ka@[k]@ == kb@[k]@,
        decreases ka@.len() - i,
    {
        if !chars_eq(ka[i].as_slice(), kb[i].as_slice()) {
            assert(parts_view(ka@)[i as int] != parts_view(kb@)[i as int]);
            return false;
        }
        i = i + 1;
    }
    assert(parts_view(ka@) =~= parts_view(kb@));
    true
}

/// Where the assembler gets the text of its source files and the bytes of
/// the files that `.incbin` embeds. Programs read the disk; tests use
/// [`MockFileReader`].
///
/// A reader that is `stable` gives back what `files` holds: the text of a
/// text file, the bytes of a binary file, and an error for anything else. A
/// reader of the disk is not stable: the disk may change between reads.
pub trait FileReader {
    /// The files the reader holds, by path; none unless a reader says.
    open spec fn files(&self) -> Map<Seq<Seq<char>>, FileView> {
        Map::empty()
    }

    /// Whether reads give back what `files` holds; not unless a reader says.
    open spec fn stable(&self) -> bool {
        false
    }

    /// The text of the file at `path`, or why it cannot be read.
    fn read_to_string(&self, path: &str) -> (r: Result<String, String>)
        ensures
            self.stable() ==> match self.files().get(path_key(path@)) {
                Some(FileView::Text(t)) => r matches Ok(s) && s@ == t,
                _ => r is Err,
            },
    ;

    /// The bytes of the file at `path`, or why they cannot be read.
    fn read_binary(&self, path: &str) -> (r: Result<Vec<u8>, String>)
        ensures
            self.stable() ==> match self.files().get(path_key(path@)) {
                Some(FileView::Binary(b)) => r matches Ok(v) && v@ == b,
                _ => r is Err,
            },
    ;
}

/// The content of a file of a [`MockFileReader`].
pub enum FileData {
    Text(String),
    Binary(Vec<u8>),
}

/// What a mock file holds.
pub enum FileView {
    Text(Seq<char>),
    Binary(Seq<u8>),
}

impl View for FileData {
    type V = FileView;

    open spec fn view(&self) -> FileView {
        match self {
            FileData::Text(s) => FileView::Text(s@),
            FileData::Binary(b) => FileView::Binary(b@),
        }
    }
}

/// A file system held in memory, for tests: each path names one file.
pub struct MockFileReader {
    files: Vec<(String, FileData)>,
}

impl View for MockFileReader {
    type V = Map<Seq<Seq<char>>, FileView>;

    closed spec fn view(&self) -> Map<Seq<Seq<char>>, FileView> {
        Map::new(
            |p: Seq<Seq<char>>| exists|i: int| 0 <= i < self.files@.len() && path_key((#[trigger] self.files@[i]).0@) == p,
            |p: Seq<Seq<char>>| self.files@[self.index_of(p)].1@,
        )
    }
}

impl MockFileReader {
    /// Where the file named `p` is kept.
    closed spec fn index_of(&self, p: Seq<Seq<char>>) -> int {
        choose|i: int| 0 <= i < self.files@.len() && path_key((#[trigger] self.files@[i]).0@) == p
    }

    /// No path is kept twice.
    pub closed spec fn wf(&self) -> bool {
        forall|i: int, j: int|
            0 <= i < j < self.files@.len() ==> path_key((#[trigger] self.files@[i]).0@) != path_key((#[trigger] self.files@[j]).0@)
    }

    /// Where the file named `path` is kept, if anywhere.
    fn find(&self, path: &str) -> (r: Option<usize>)
        requires
            self.wf(),
        ensures
            match r {
                Some(i) => i < self.files@.len() && path_key(self.files@[i as int].0@) == path_key(path@) && self@.dom().contains(path_key(path@))
                    && self@[path_key(path@)] == self.files@[i as int].1@,
                None => !self@.dom().contains(path_key(path@)),
            },
    {
        let mut i: usize = 0;
        while i < self.files.len()
            invariant
                self.wf(),
                i <= self.files@.len(),
                forall|k: int| 0 <= k < i ==> path_key((#[trigger] self.files@[k]).0@) != path_key(path@),
            decreases self.files@.len() - i,
        {
            if same_path(self.files[i].0.as_str(), path) {
                proof {
                    assert(self@.dom().contains(path_key(path@)));
                    let j = self.index_of(path_key(path@));
                    assert(path_key(self.files@[j].0@) == path_key(path@));
                    if j != i {
                        if j < i {
                            assert(path_key(self.files@[j].0@) != path_key(self.files@[i as int].0@));
                        } else {
                            assert(path_key(self.files@[i as int].0@) != path_key(self.files@[j].0@));
                        }
                    }
                }
                return Some(i);
            }
            i = i + 1;
        }
        None
    }

    /// Keeps `data` under `path`, in place of what was there.
    fn put(&mut self, path: &str, data: FileData)
        requires
            old(self).wf(),
        ensures
            final(self).wf(),
            final(self)@ == old(self)@.insert(path_key(path@), data@),
    {
        let ghost dv = data@;
        match self.find(path) {
            Some(i) => {
                let name = copy_string(&self.files[i].0);
                let ghost before = self.files@;
                self.files.set(i, (name, data));
                proof {
                    assert forall|a: int, b: int| 0 <= a < b < self.files@.len() implies
                        path_key((#[trigger] self.files@[a]).0@) != path_key((#[trigger] self.files@[b]).0@) by {
                        assert(path_key(self.files@[a].0@) == path_key(before[a].0@));
                        assert(path_key(self.files@[b].0@) == path_key(before[b].0@));
                    }
                    assert forall|p: Seq<Seq<char>>| #[trigger] self@.dom().contains(p) <==> old(self)@.insert(path_key(path@), dv).dom().contains(p) by {
                        if self@.dom().contains(p) {
                            let k = choose|k: int| 0 <= k < self.files@.len() && path_key((#[trigger] self.files@[k]).0@) == p;
                            assert(path_key(before[k].0@) == p);
                        }
                        if old(self)@.dom().contains(p) {
                            let k = choose|k: int| 0 <= k < before.len() && path_key((#[trigger] before[k]).0@) == p;
                            assert(path_key(self.files@[k].0@) == p);
                        }
                        if p == path_key(path@) {
                            assert(path_key(self.files@[i as int].0@) == p);
                        }
                    }
                    assert forall|p: Seq<Seq<char>>| #[trigger] self@.dom().contains(p) implies self@[p] == old(self)@.insert(path_key(path@), dv)[p] by {
                        let j = self.index_of(p);
                        if p == path_key(path@) {
                            assert(j == i) by {
                                if j != i {
                                    if j < i {
                                        assert(path_key(self.files@[j].0@) != path_key(self.files@[i as int].0@));
                                    } else {
                                        assert(path_key(self.files@[i as int].0@) != path_key(self.files@[j].0@));
                                    }
                                }
                            }
                        } else {
                            let k = old(self).index_of(p);
                            assert(path_key(before[k].0@) == p);
                            assert(j == k) by {
                                if j != k {
                                    if j < k {
                                        assert(path_key(self.files@[j].0@) != path_key(self.files@[k].0@));
                                    } else {
                                        assert(path_key(self.files@[k].0@) != path_key(self.files@[j].0@));
                                    }
                                }
                            }
                        }
                    }
                    assert(self@ =~= old(self)@.insert(path_key(path@), dv));
                }
            },
            None => {
                let name = crate::text::owned(path);
                let ghost before = self.files@;
                self.files.push((name, data));
                proof {
                    let n = before.len() as int;
                    assert forall|a: int, b: int| 0 <= a < b < self.files@.len() implies
                        path_key((#[trigger] self.files@[a]).0@) != path_key((#[trigger] self.files@[b]).0@) by {
                        if b == n {
                            assert(self.files@[a] == before[a]);
                            assert(!old(self)@.dom().contains(path_key(path@)));
                            if path_key(before[a].0@) == path_key(path@) {
                                assert(old(self)@.dom().contains(path_key(path@)));
                            }
                        } else {
                            assert(self.files@[a] == before[a]);
                            assert(self.files@[b] == before[b]);
                        }
                    }
                    assert forall|p: Seq<Seq<char>>| #[trigger] self@.dom().contains(p) <==> old(self)@.insert(path_key(path@), dv).dom().contains(p) by {
                        if self@.dom().contains(p) {
                            let k = choose|k: int| 0 <= k < self.files@.len() && path_key((#[trigger] self.files@[k]).0@) == p;
                            if k < n {
                                assert(path_key(before[k].0@) == p);
                            }
                        }
                        if old(self)@.dom().contains(p) {
                            let k = choose|k: int| 0 <= k < before.len() && path_key((#[trigger] before[k]).0@) == p;
                            assert(path_key(self.files@[k].0@) == p);
                        }
                        if p == path_key(path@) {
                            assert(path_key(self.files@[n].0@) == p);
                        }
                    }
                    assert forall|p: Seq<Seq<char>>| #[trigger] self@.dom().contains(p) implies self@[p] == old(self)@.insert(path_key(path@), dv)[p] by {
                        let j = self.index_of(p);
                        if p == path_key(path@) {
                            assert(path_key(self.files@[n].0@) == p);
                            assert(j == n) by {
                                if j != n {
                                    assert(path_key(self.files@[j].0@) != path_key(self.files@[n].0@));
                                }
                            }
                        } else {
                            let k = old(self).index_of(p);
                            assert(path_key(before[k].0@) == p);
                            assert(path_key(self.files@[k].0@) == p);
                            assert(j == k) by {
                                if j != k {
                                    if j < k {
                                        assert(path_key(self.files@[j].0@) != path_key(self.files@[k].0@));
                                    } else {
                                        assert(path_key(self.files@[k].0@) != path_key(self.files@[j].0@));
                                    }
                                }
                            }
                        }
                    }
                    assert(self@ =~= old(self)@.insert(path_key(path@), dv));
                }
            },
        }
    }

    /// Adds a text file, in place of any file with that path.
    pub fn add_file(&mut self, path: &str, content: &str)
        requires
            old(self).wf(),
        ensures
            final(self).wf(),
            final(self)@ == old(self)@.insert(path_key(path@), FileView::Text(content@)),
    {
        let text = crate::text::owned(content);
        self.put(path, FileData::Text(text));
    }

    /// Adds a binary file, in place of any file with that path.
    pub fn add_binary_file(&mut self, path: &str, content: &[u8])
        requires
            old(self).wf(),
        ensures
            final(self).wf(),
            final(self)@ == old(self)@.insert(path_key(path@), FileView::Binary(content@)),
    {
        let mut bytes: Vec<u8> = Vec::new();
        let mut i: usize = 0;
        while i < content.len()
            invariant
                i <= content@.len(),
                bytes@ == content@.subrange(0, i as int),
            decreases content@.len() - i,
        {
            bytes.push(content[i]);
            i = i + 1;
            assert(bytes@ =~= content@.subrange(0, i as int));
        }
        assert(bytes@ =~= content@);
        self.put(path, FileData::Binary(bytes));
    }
}

impl Default for MockFileReader {
    fn default() -> (r: Self)
        ensures
            r.wf(),
            r@ == Map::<Seq<Seq<char>>, FileView>::empty(),
    {
        let r = MockFileReader { files: Vec::new() };
        assert(r@ =~= Map::<Seq<Seq<char>>, FileView>::empty());
        r
    }
}

pub open spec fn not_found_msg(path: Seq<char>) -> Seq<char> {
    "Mock file not found: "@ + path
}

impl FileReader for MockFileReader {
    open spec fn files(&self) -> Map<Seq<Seq<char>>, FileView> {
        self@
    }

    open spec fn stable(&self) -> bool {
        self.wf()
    }

    fn read_to_string(&self, path: &str) -> (r: Result<String, String>)
        ensures
            self.wf() ==> match self@.get(path_key(path@)) {
                Some(FileView::Text(t)) => r matches Ok(s) && s@ == t,
                Some(FileView::Binary(_)) => r matches Err(m) && m@ == "Cannot read binary file as string: "@ + path@,
                None => r matches Err(m) && m@ == not_found_msg(path@),
            },
    {
        let mut i: usize = 0;
        while i < self.files.len()
            invariant
                i <= self.files@.len(),
                self.wf() ==> forall|k: int| 0 <= k < i ==> path_key((#[trigger] self.files@[k]).0@) != path_key(path@),
            decreases self.files@.len() - i,
        {
            if same_path(self.files[i].0.as_str(), path) {
                proof {
                    if self.wf() {
                        assert(self@.dom().contains(path_key(path@)));
                        let j = self.index_of(path_key(path@));
                        if j != i {
                            if j < i {
                                assert(path_key(self.files@[j].0@) != path_key(self.files@[i as int].0@));
                            } else {
                                assert(path_key(self.files@[i as int].0@) != path_key(self.files@[j].0@));
                            }
                        }
                    }
                }
                return match &self.files[i].1 {
                    FileData::Text(content) => Ok(copy_string(content)),
                    FileData::Binary(_) => Err(join2("Cannot read binary file as string: ", path)),
                };
            }
            i = i + 1;
        }
        Err(join2("Mock file not found: ", path))
    }

    fn read_binary(&self, path: &str) -> (r: Result<Vec<u8>, String>)
        ensures
            self.wf() ==> match self@.get(path_key(path@)) {
                Some(FileView::Binary(b)) => r matches Ok(v) && v@ == b,
                Some(FileView::Text(_)) => r matches Err(m) && m@ == "Cannot read text file as binary: "@ + path@,
                None => r matches Err(m) && m@ == not_found_msg(path@),
            },
    {
        let mut i: usize = 0;
        while i < self.files.len()
            invariant
                i <= self.files@.len(),
                self.wf() ==> forall|k: int| 0 <= k < i ==> path_key((#[trigger] self.files@[k]).0@) != path_key(path@),
            decreases self.files@.len() - i,
        {
            if same_path(self.files[i].0.as_str(), path) {
                proof {
                    if self.wf() {
                        assert(self@.dom().contains(path_key(path@)));
                        let j = self.index_of(path_key(path@));
                        if j != i {
                            if j < i {
                                assert(path_key(self.files@[j].0@) != path_key(self.files@[i as int].0@));
                            } else {
                                assert(path_key(self.files@[i as int].0@) != path_key(self.files@[j].0@));
                            }
                        }
                    }
                }
                return match &self.files[i].1 {
                    FileData::Binary(content) => {
                        let mut v: Vec<u8> = Vec::new();
                        let mut k: usize = 0;
                        while k < content.len()
                            invariant
                                k <= content@.len(),
                                v@ == content@.subrange(0, k as int),
                            decreases content@.len() - k,
                        {
                            v.push(content[k]);
                            k = k + 1;
                            assert(v@ =~= content@.subrange(0, k as int));
                        }
                        assert(v@ =~= content@);
                        Ok(v)
                    },
                    FileData::Text(_) => Err(join2("Cannot read text file as binary: ", path)),
                };
            }
            i = i + 1;
        }
        Err(join2("Mock file not found: ", path))
    }
}

/// What is added to a mock file system is what is read back from it, under
/// any path that names the same file, and the other files stay as they were.
pub proof fn lemma_reads_back_added_file(
    before: MockFileReader,
    after: MockFileReader,
    path: Seq<char>,
    data: FileView,
    same: Seq<char>,
    other: Seq<char>,
)
    requires
        after@ == before@.insert(path_key(path), data),
        path_key(same) == path_key(path),
    ensures
        after@.get(path_key(same)) == Some(data),
        path_key(other) != path_key(path) ==> after@.get(path_key(other)) == before@.get(path_key(other)),
{
}

} // verus!
