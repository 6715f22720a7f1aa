//! Path layout of published artifacts. Paths are '/'-separated strings.
use vstd::prelude::*;
use vstd::string::*;

verus! {

/// Index of the last `c` among the first `n` characters of `s`, or -1.
pub open spec fn last_index(s: Seq<char>, c: char, n: int) -> int
    decreases n,
{
    if n <= 0 {
        -1
    } else if s[n - 1] == c {
        n - 1
    } else {
        last_index(s, c, n - 1)
    }
}

pub proof fn lemma_last_index_bounds(s: Seq<char>, c: char, n: int)
    requires
        0 <= n <= s.len(),
    ensures
        -1 <= last_index(s, c, n) < n,
        last_index(s, c, n) >= 0 ==> s[last_index(s, c, n)] == c,
    decreases n,
{
    if n > 0 && s[n - 1] != c {
        lemma_last_index_bounds(s, c, n - 1);
    }
}

/// Index of the last path separator, or -1.
pub open spec fn sep_index(p: Seq<char>) -> int {
    last_index(p, '/', p.len() as int)
}

/// Everything up to and including the last separator ("" when there is none).
pub open spec fn dir_prefix(p: Seq<char>) -> Seq<char> {
    p.subrange(0, sep_index(p) + 1)
}

/// Everything after the last separator.
pub open spec fn file_name(p: Seq<char>) -> Seq<char> {
    p.subrange(sep_index(p) + 1, p.len() as int)
}

/// A file name that names a file: not empty, not "." and not "..".
pub open spec fn valid_file_name(n: Seq<char>) -> bool {
    n.len() > 0 && n != seq!['.'] && n != seq!['.', '.']
}

/// A file name without its extension; a leading dot starts no extension.
pub open spec fn file_stem(n: Seq<char>) -> Seq<char> {
    let d = last_index(n, '.', n.len() as int);
    if d > 0 {
        n.subrange(0, d)
    } else {
        n
    }
}

pub open spec fn elfs_name() -> Seq<char> {
    seq!['e', 'l', 'f', 's']
}

pub open spec fn guest_name() -> Seq<char> {
    seq!['g', 'u', 'e', 's', 't']
}

/// `name` inside directory `dir`.
pub open spec fn join_path(dir: Seq<char>, name: Seq<char>) -> Seq<char> {
    if dir.len() == 0 {
        name
    } else if dir.last() == '/' {
        dir + name
    } else {
        dir + seq!['/'] + name
    }
}

/// The publish directory of a package: `elfs` beside its manifest.
pub open spec fn elfs_dir(manifest: Seq<char>) -> Seq<char> {
    dir_prefix(manifest) + elfs_name()
}

/// The shared scratch directory of a run: `guest` inside the workspace target directory.
pub open spec fn spec_guest_target_dir(target: Seq<char>) -> Seq<char> {
    join_path(target, guest_name())
}

/// The base path, without extension, under which a guest binary is published.
pub open spec fn artifact_base(manifest: Seq<char>, guest_path: Seq<char>) -> Seq<char> {
    elfs_dir(manifest) + seq!['/'] + file_stem(file_name(guest_path))
}

/// `base` with extension `ext`.
pub open spec fn with_ext(base: Seq<char>, ext: Seq<char>) -> Seq<char> {
    base + seq!['.'] + ext
}

/// Position of the last `c` in `s`.
pub fn find_last(s: &str, c: char) -> (r: Option<usize>)
    ensures
        match r {
            Some(i) => i as int == last_index(s@, c, s@.len() as int),
            None => last_index(s@, c, s@.len() as int) == -1,
        },
{
    let n = s.unicode_len();
    let mut i: usize = n;
    while i > 0
        invariant
            i <= n,
            n == s@.len(),
            last_index(s@, c, n as int) == last_index(s@, c, i as int),
        decreases i,
    {
        if s.get_char(i - 1) == c {
            return Some(i - 1);
        }
        i = i - 1;
    }
    None
}

/// The directory part of `p`, with its trailing separator.
pub fn dir_prefix_of(p: &str) -> (r: &str)
    ensures
        r@ == dir_prefix(p@),
{
    proof {
        lemma_last_index_bounds(p@, '/', p@.len() as int);
    }
    let n = p.unicode_len();
    match find_last(p, '/') {
        Some(i) => p.substring_char(0, i + 1),
        None => p.substring_char(0, 0),
    }
}

/// The file name part of `p`.
pub fn file_name_of(p: &str) -> (r: &str)
    ensures
        r@ == file_name(p@),
{
    proof {
        lemma_last_index_bounds(p@, '/', p@.len() as int);
    }
    let n = p.unicode_len();
    match find_last(p, '/') {
        Some(i) => p.substring_char(i + 1, n),
        None => p.substring_char(0, n),
    }
}

/// The stem of file name `n`.
pub fn file_stem_of(n: &str) -> (r: &str)
    ensures
        r@ == file_stem(n@),
{
    proof {
        lemma_last_index_bounds(n@, '.', n@.len() as int);
    }
    let len = n.unicode_len();
    match find_last(n, '.') {
        Some(d) => {
            if d > 0 {
                n.substring_char(0, d)
            } else {
                n.substring_char(0, len)
            }
        },
        None => n.substring_char(0, len),
    }
}

/// Whether `n` names a file.
pub fn is_valid_file_name(n: &str) -> (r: bool)
    ensures
        r == valid_file_name(n@),
{
    let len = n.unicode_len();
    if len == 0 {
        return false;
    }
    if len > 2 {
        assert(n@.len() != seq!['.'].len());
        assert(n@.len() != seq!['.', '.'].len());
        return true;
    }
    let c0 = n.get_char(0);
    if len == 1 {
        if c0 == '.' {
            assert(n@ =~= seq!['.']);
            false
        } else {
            assert(n@[0] != seq!['.'][0]);
            assert(n@.len() != seq!['.', '.'].len());
            true
        }
    } else {
        let c1 = n.get_char(1);
        if c0 == '.' && c1 == '.' {
            assert(n@ =~= seq!['.', '.']);
            false
        } else {
            assert(n@.len() != seq!['.'].len());
            if c0 != '.' {
                assert(n@[0] != seq!['.', '.'][0]);
            } else {
                assert(n@[1] != seq!['.', '.'][1]);
            }
            true
        }
    }
}

/// `name` inside directory `dir`.
pub fn join(dir: &str, name: &str) -> (r: String)
    ensures
        r@ == join_path(dir@, name@),
{
    let len = dir.unicode_len();
    if len == 0 {
        String::from_str(name)
    } else if dir.get_char(len - 1) == '/' {
        String::from_str(dir).concat(name)
    } else {
        let r = String::from_str(dir).concat("/").concat(name);
        proof {
            reveal_strlit("/");
        }
        r
    }
}

/// The scratch directory shared by every build of one run.
pub fn guest_target_dir(target: &str) -> (r: String)
    ensures
        r@ == spec_guest_target_dir(target@),
{
    proof {
        reveal_strlit("guest");
    }
    join(target, "guest")
}

/// The publish directory of the package whose manifest is at `manifest`.
pub fn elfs_dir_of(manifest: &str) -> (r: String)
    ensures
        r@ == elfs_dir(manifest@),
{
    proof {
        reveal_strlit("elfs");
    }
    String::from_str(dir_prefix_of(manifest)).concat("elfs")
}

/// `base` with extension `ext`.
pub fn path_with_ext(base: &str, ext: &str) -> (r: String)
    ensures
        r@ == with_ext(base@, ext@),
{
    proof {
        reveal_strlit(".");
    }
    String::from_str(base).concat(".").concat(ext)
}

} // verus!
