//! Command-line options and the choice of input files.
use vstd::prelude::*;

verus! {

/// Options of a batch run.
#[derive(Debug, Clone)]
pub struct Options {
    /// A file or a directory to read.
    pub input: String,
    pub output: Option<String>,
    /// Leaves out directories whose path contains `node_modules`.
    pub exclude_node_modules: bool,
}

/// What the program is asked to do.
#[derive(Debug, Clone)]
pub enum Command {
    /// Serve an editor: explain the structures of one file at a time.
    Lsp,
    /// Process a file or a directory tree once.
    Manually(Options),
}

/// The parsed command line.
#[derive(Debug, Clone)]
pub struct Arg {
    pub command: Command,
}

impl Default for Command {
    fn default() -> (r: Command)
        ensures
            r is Lsp,
    {
        Command::Lsp
    }
}

impl Default for Arg {
    fn default() -> (r: Arg)
        ensures
            r.command is Lsp,
    {
        Arg { command: Command::Lsp }
    }
}

/// What the file system holds at a path, as read by the caller: nothing, a
/// file, or a directory with the entries that could be read.
#[derive(Debug)]
pub enum InputTree {
    Missing,
    File { path: String },
    Directory { path: String, entries: Vec<InputTree> },
}

/// Why the input of a run cannot be used.
#[derive(Debug, Clone, Copy, PartialEq, Eq, Structural)]
pub enum InputError {
    /// Nothing exists at the input path.
    NotFound,
    /// The input is a single file of an unsupported kind.
    Unsupported,
}

/// The index of the last `c` in `s`, or -1.
pub open spec fn last_index_of(s: Seq<char>, c: char) -> int
    decreases s.len(),
{
    if s.len() == 0 {
        -1
    } else if s.last() == c {
        s.len() - 1
    } else {
        last_index_of(s.drop_last(), c)
    }
}

/// The last segment of a `/`-separated path.
pub open spec fn file_name(p: Seq<char>) -> Seq<char> {
    p.subrange(last_index_of(p, '/') + 1, p.len() as int)
}

/// The extension of a path: what follows the last `.` of its file name,
/// where that `.` is not the name's first character.
pub open spec fn extension(p: Seq<char>) -> Option<Seq<char>> {
    let name = file_name(p);
    let i = last_index_of(name, '.');
    if i > 0 {
        Some(name.subrange(i + 1, name.len() as int))
    } else {
        None
    }
}

/// A path of a source file that can be read: `.ts`, `.js`, `.jsx` or `.tsx`.
pub open spec fn supported_path(p: Seq<char>) -> bool {
    match extension(p) {
        Some(e) => e == seq!['t', 's'] || e == seq!['j', 's'] || e == seq!['j', 's', 'x'] || e
            == seq!['t', 's', 'x'],
        None => false,
    }
}

/// Whether `pat` occurs in `s`.
pub open spec fn contains_seq(s: Seq<char>, pat: Seq<char>) -> bool {
    exists|i: int| 0 <= i <= s.len() - pat.len() && #[trigger] s.subrange(i, i + pat.len()) == pat
}

pub open spec fn node_modules() -> Seq<char> {
    seq!['n', 'o', 'd', 'e', '_', 'm', 'o', 'd', 'u', 'l', 'e', 's']
}

/// Whether a directory met below the input is left out.
pub open spec fn excluded_dir(p: Seq<char>, exclude_node_modules: bool) -> bool {
    exclude_node_modules && contains_seq(p, node_modules())
}

/// The source files under a tree met below the input, in the order read.
pub open spec fn tree_files(t: InputTree, exclude_node_modules: bool) -> Seq<Seq<char>>
    decreases t,
{
    match t {
        InputTree::Missing => Seq::empty(),
        InputTree::File { path } => if supported_path(path@) {
            seq![path@]
        } else {
            Seq::empty()
        },
        InputTree::Directory { path, entries } => if excluded_dir(path@, exclude_node_modules) {
            Seq::empty()
        } else {
            entries_files(entries@, exclude_node_modules)
        },
    }
}

/// The source files under each of the entries, one entry after the other.
pub open spec fn entries_files(s: Seq<InputTree>, exclude_node_modules: bool) -> Seq<Seq<char>>
    decreases s,
{
    if s.len() == 0 {
        Seq::empty()
    } else {
        entries_files(s.drop_last(), exclude_node_modules) + tree_files(
            s.last(),
            exclude_node_modules,
        )
    }
}

/// The input files of a run whose input path holds `t`: a supported file
/// alone, or every supported file below a directory.
pub open spec fn input_files(t: InputTree, exclude_node_modules: bool) -> Result<
    Seq<Seq<char>>,
    InputError,
> {
    match t {
        InputTree::Missing => Err(InputError::NotFound),
        InputTree::File { path } => if supported_path(path@) {
            Ok(seq![path@])
        } else {
            Err(InputError::Unsupported)
        },
        InputTree::Directory { path, entries } => Ok(entries_files(entries@, exclude_node_modules)),
    }
}

pub open spec fn string_views(v: Seq<String>) -> Seq<Seq<char>> {
    v.map_values(|s: String| s@)
}

fn last_index(s: &str, c: char) -> (r: Option<usize>)
    ensures
        match r {
            Some(k) => k == last_index_of(s@, c) && k < s@.len(),
            None => last_index_of(s@, c) == -1,
        },
{
    let n = s.unicode_len();
    let mut i: usize = n;
    assert(s@.subrange(0, n as int) =~= s@);
    while i > 0
        invariant
            i <= n,
            n == s@.len(),
            last_index_of(s@, c) == last_index_of(s@.subrange(0, i as int), c),
        decreases i,
    {
        let ghost pre = s@.subrange(0, i as int);
        assert(pre.drop_last() =~= s@.subrange(0, i - 1));
        if s.get_char(i - 1) == c {
            assert(pre.last() == c);
            return Some(i - 1);
        }
        i = i - 1;
    }
    None
}

/// Whether the path `p` names a supported source file.
pub fn is_supported_path(p: &str) -> (r: bool)
    ensures
        r == supported_path(p@),
{
    let n = p.unicode_len();
    let start = match last_index(p, '/') {
        Some(k) => k + 1,
        None => 0,
    };
    let name = p.substring_char(start, n);
    assert(name@ == file_name(p@));
    let dot = match last_index(name, '.') {
        Some(k) => k,
        None => {
            return false;
        },
    };
    if dot == 0 {
        return false;
    }
    let m = name.unicode_len();
    let ext = name.substring_char(dot + 1, m);
    let k = ext.unicode_len();
    proof {
        assert(extension(p@) == Some(ext@));
    }
    if k == 2 {
        let a = ext.get_char(0);
        let b = ext.get_char(1);
        let r = (a == 't' || a == 'j') && b == 's';
        proof {
            if r {
                assert(ext@ =~= seq![a, b]);
            }
        }
        r
    } else if k == 3 {
        let a = ext.get_char(0);
        let b = ext.get_char(1);
        let x = ext.get_char(2);
        let r = (a == 't' || a == 'j') && b == 's' && x == 'x';
        proof {
            if r {
                assert(ext@ =~= seq![a, b, x]);
            }
        }
        r
    } else {
        false
    }
}

fn node_modules_text() -> (r: Vec<char>)
    ensures
        r@ == node_modules(),
{
    let r = vec!['n', 'o', 'd', 'e', '_', 'm', 'o', 'd', 'u', 'l', 'e', 's'];
    assert(r@ =~= node_modules());
    r
}

/// Whether `pat` occurs in `s`.
pub fn contains_text(s: &str, pat: &Vec<char>) -> (r: bool)
    ensures
        r == contains_seq(s@, pat@),
{
    let n = s.unicode_len();
    let m = pat.len();
    if m > n {
        return false;
    }
    let mut i: usize = 0;
    while i <= n - m
        invariant
            m <= n,
            n == s@.len(),
            m == pat@.len(),
            forall|j: int| 0 <= j < i ==> #[trigger] s@.subrange(j, j + m) != pat@,
        decreases n - m + 1 - i,
    {
        let mut k: usize = 0;
        while k < m && s.get_char(i + k) == pat[k]
            invariant
                k <= m,
                i + m <= n,
                n == s@.len(),
                m == pat@.len(),
                s@.subrange(i as int, i + k) =~= pat@.subrange(0, k as int),
            decreases m - k,
        {
            k = k + 1;
        }
        if k == m {
            assert(s@.subrange(i as int, i + m) =~= pat@);
            return true;
        }
        assert(s@.subrange(i as int, i + m)[k as int] != pat@[k as int]);
        i = i + 1;
    }
    false
}

fn push_tree_files(t: &InputTree, exclude_node_modules: bool, out: &mut Vec<String>)
    ensures
        string_views(final(out)@) == string_views(old(out)@) + tree_files(*t, exclude_node_modules),
    decreases t,
{
    match t {
        InputTree::Missing => {
            assert(string_views(out@) =~= string_views(out@) + Seq::<Seq<char>>::empty());
        },
        InputTree::File { path } => {
            if is_supported_path(path.as_str()) {
                let ghost before = out@;
                out.push(path.clone());
                assert(string_views(out@) =~= string_views(before) + seq![path@]);
            } else {
                assert(string_views(out@) =~= string_views(out@) + Seq::<Seq<char>>::empty());
            }
        },
        InputTree::Directory { path, entries } => {
            let pat = node_modules_text();
            if exclude_node_modules && contains_text(path.as_str(), &pat) {
                assert(string_views(out@) =~= string_views(out@) + Seq::<Seq<char>>::empty());
            } else {
                push_entries_files(entries, exclude_node_modules, out);
            }
        },
    }
}

fn push_entries_files(v: &Vec<InputTree>, exclude_node_modules: bool, out: &mut Vec<String>)
    ensures
        string_views(final(out)@) == string_views(old(out)@) + entries_files(
            v@,
            exclude_node_modules,
        ),
    decreases v,
{
    let ghost start = string_views(out@);
    let mut i: usize = 0;
    while i < v.len()
        invariant
            i <= v.len(),
            string_views(out@) == start + entries_files(v@.subrange(0, i as int), exclude_node_modules),
        decreases v.len() - i,
    {
        proof {
            assert(v@.subrange(0, i + 1).drop_last() =~= v@.subrange(0, i as int));
        }
        push_tree_files(&v[i], exclude_node_modules, out);
        proof {
            assert(string_views(out@) =~= start + entries_files(
                v@.subrange(0, i + 1),
                exclude_node_modules,
            ));
        }
        i = i + 1;
    }
    assert(v@.subrange(0, v.len() as int) =~= v@);
}

impl Options {
    /// Whether the reader should look into the directory at `path` met below
    /// the input.
    pub fn enters_directory(&self, path: &str) -> (r: bool)
        ensures
            r == !excluded_dir(path@, self.exclude_node_modules),
    {
        let pat = node_modules_text();
        !(self.exclude_node_modules && contains_text(path, &pat))
    }

    /// The files to process, given what the file system holds at the input
    /// path: a missing input and a single unsupported file are errors; below
    /// a directory every supported file is taken, in the order read.
    pub fn get_all_input_files(&self, tree: &InputTree) -> (r: Result<Vec<String>, InputError>)
        ensures
            match r {
                Ok(v) => input_files(*tree, self.exclude_node_modules) == Ok::<
                    Seq<Seq<char>>,
                    InputError,
                >(string_views(v@)),
                Err(e) => input_files(*tree, self.exclude_node_modules) == Err::<
                    Seq<Seq<char>>,
                    InputError,
                >(e),
            },
    {
        match tree {
            InputTree::Missing => Err(InputError::NotFound),
            InputTree::File { path } => {
                if is_supported_path(path.as_str()) {
                    let v = vec![path.clone()];
                    assert(string_views(v@) =~= seq![path@]);
                    Ok(v)
                } else {
                    Err(InputError::Unsupported)
                }
            },
            InputTree::Directory { path, entries } => {
                let mut out: Vec<String> = Vec::new();
                push_entries_files(entries, self.exclude_node_modules, &mut out);
                assert(string_views(out@) =~= entries_files(entries@, self.exclude_node_modules));
                Ok(out)
            },
        }
    }
}

} // verus!
