//! Decomposition of forward-slash paths into directory, file name, stem and
//! extension.  Templates observe POSIX-style paths regardless of host, so
//! the decomposition is plain character logic: the host-specific conversion
//! to slash form happens outside the library.

use vstd::prelude::*;

verus! {

/// Index of the last occurrence of `c` in `s`, or -1.
pub open spec fn last_index_of(s: Seq<char>, c: char) -> int
    decreases s.len(),
{
    if s.len() == 0 {
        -1
    } else if s.last() == c {
        s.len() - 1
    } else {
        last_index_of(s.drop_last(), c)
    }
}

pub proof fn lemma_last_index_found(s: Seq<char>, c: char, k: int)
    requires
        0 <= k < s.len(),
        s[k] == c,
        forall|j: int| k < j < s.len() ==> s[j] != c,
    ensures
        last_index_of(s, c) == k,
    decreases s.len(),
{
    if k < s.len() - 1 {
        assert(s.last() != c);
        assert(s.drop_last()[k] == s[k]);
        lemma_last_index_found(s.drop_last(), c, k);
    }
}

pub proof fn lemma_last_index_absent(s: Seq<char>, c: char)
    requires
        forall|j: int| 0 <= j < s.len() ==> s[j] != c,
    ensures
        last_index_of(s, c) == -1,
    decreases s.len(),
{
    if s.len() > 0 {
        lemma_last_index_absent(s.drop_last(), c);
    }
}

/// The directory part: everything before the last slash; `/` for a path in
/// the root; empty for a bare name.
pub open spec fn dir_of(s: Seq<char>) -> Seq<char> {
    let k = last_index_of(s, '/');
    if k < 0 {
        Seq::empty()
    } else if k == 0 {
        s.subrange(0, 1)
    } else {
        s.subrange(0, k)
    }
}

/// The last path component: everything after the last slash.
pub open spec fn name_of(s: Seq<char>) -> Seq<char> {
    let k = last_index_of(s, '/');
    if k < 0 {
        s
    } else {
        s.subrange(k + 1, s.len() as int)
    }
}

/// The file name of the directory part.
pub open spec fn dirname_of(s: Seq<char>) -> Seq<char> {
    name_of(dir_of(s))
}

/// The stem: the file name up to its last dot, except that a leading dot
/// (a hidden file) starts no extension.
pub open spec fn stem_of(s: Seq<char>) -> Seq<char> {
    let n = name_of(s);
    let d = last_index_of(n, '.');
    if d <= 0 {
        n
    } else {
        n.subrange(0, d)
    }
}

/// The extension: the file name after its last dot, or empty.
pub open spec fn ext_of(s: Seq<char>) -> Seq<char> {
    let n = name_of(s);
    let d = last_index_of(n, '.');
    if d <= 0 {
        Seq::empty()
    } else {
        n.subrange(d + 1, n.len() as int)
    }
}

pub open spec fn is_absolute(s: Seq<char>) -> bool {
    s.len() > 0 && s[0] == '/'
}

/// A relative path resolved against a working directory.
pub open spec fn resolved(cwd: Seq<char>, s: Seq<char>) -> Seq<char> {
    if is_absolute(s) {
        s
    } else if cwd.len() > 0 && cwd.last() == '/' {
        cwd + s
    } else {
        cwd + seq!['/'] + s
    }
}

/// Index of the last occurrence of `c`, scanning backwards.
fn find_last(s: &str, c: char) -> (r: Option<usize>)
    ensures
        r matches Some(i) ==> i < s@.len() && last_index_of(s@, c) == i as int,
        r is None ==> last_index_of(s@, c) == -1,
{
    let n = s.unicode_len();
    let mut i = n;
    while i > 0
        invariant
            i <= n,
            n == s@.len(),
            forall|j: int| i <= j < s@.len() ==> s@[j] != c,
        decreases i,
    {
        i = i - 1;
        if s.get_char(i) == c {
            proof {
                lemma_last_index_found(s@, c, i as int);
            }
            return Some(i);
        }
    }
    proof {
        lemma_last_index_absent(s@, c);
    }
    None
}

/// The directory part of a slash path.
pub fn path_dir(path: &str) -> (r: String)
    ensures
        r@ == dir_of(path@),
{
    match find_last(path, '/') {
        None => String::new(),
        Some(k) => {
            if k == 0 {
                path.substring_char(0, 1).to_owned()
            } else {
                path.substring_char(0, k).to_owned()
            }
        }
    }
}

/// The last component of a slash path.
pub fn path_name(path: &str) -> (r: String)
    ensures
        r@ == name_of(path@),
{
    let n = path.unicode_len();
    match find_last(path, '/') {
        None => path.to_owned(),
        Some(k) => path.substring_char(k + 1, n).to_owned(),
    }
}

/// The name of the directory holding the path.
pub fn path_dirname(path: &str) -> (r: String)
    ensures
        r@ == dirname_of(path@),
{
    let dir = path_dir(path);
    path_name(dir.as_str())
}

/// The file name without its extension.
pub fn path_stem(path: &str) -> (r: String)
    ensures
        r@ == stem_of(path@),
{
    let name = path_name(path);
    match find_last(name.as_str(), '.') {
        None => name,
        Some(d) => {
            if d == 0 {
                name
            } else {
                name.as_str().substring_char(0, d).to_owned()
            }
        }
    }
}

/// The extension after the last dot, or empty.
pub fn path_ext(path: &str) -> (r: String)
    ensures
        r@ == ext_of(path@),
{
    let name = path_name(path);
    let n = name.as_str().unicode_len();
    match find_last(name.as_str(), '.') {
        None => String::new(),
        Some(d) => {
            if d == 0 {
                String::new()
            } else {
                name.as_str().substring_char(d + 1, n).to_owned()
            }
        }
    }
}

/// Whether the slash path is absolute.
pub fn path_is_absolute(path: &str) -> (r: bool)
    ensures
        r == is_absolute(path@),
{
    path.unicode_len() > 0 && path.get_char(0) == '/'
}

/// Resolve a possibly relative slash path against a working directory.
pub fn path_resolve(cwd: &str, path: &str) -> (r: String)
    ensures
        r@ == resolved(cwd@, path@),
{
    if path_is_absolute(path) {
        return path.to_owned();
    }
    let mut out = cwd.to_owned();
    let n = cwd.unicode_len();
    if n == 0 || cwd.get_char(n - 1) != '/' {
        out.append("/");
        proof {
            reveal_strlit("/");
            assert(out@ =~= cwd@ + seq!['/']);
        }
    }
    out.append(path);
    proof {
        if cwd@.len() > 0 && cwd@.last() == '/' {
            assert(out@ == cwd@ + path@);
        } else {
            assert(out@ =~= cwd@ + seq!['/'] + path@);
        }
    }
    out
}

/// The sibling path `{stem}{suffix}.{ext}`, beside the original; a path
/// with no extension gets the suffix alone.
pub open spec fn sibling_of(s: Seq<char>, suffix: Seq<char>) -> Seq<char> {
    let base = if dir_of(s).len() == 0 {
        stem_of(s) + suffix
    } else if dir_of(s).last() == '/' {
        dir_of(s) + stem_of(s) + suffix
    } else {
        dir_of(s) + seq!['/'] + stem_of(s) + suffix
    };
    if ext_of(s).len() == 0 {
        base
    } else {
        base + seq!['.'] + ext_of(s)
    }
}

/// The sibling of a path whose stem carries the given suffix, keeping the
/// directory and the extension.
pub fn sibling_path(path: &str, suffix: &str) -> (r: String)
    ensures
        r@ == sibling_of(path@, suffix@),
{
    let dir = path_dir(path);
    let stem = path_stem(path);
    let ext = path_ext(path);
    let mut out = String::new();
    let n = dir.as_str().unicode_len();
    if n > 0 {
        out.append(dir.as_str());
        if dir.as_str().get_char(n - 1) != '/' {
            out.append("/");
        }
    }
    out.append(stem.as_str());
    out.append(suffix);
    if ext.as_str().unicode_len() > 0 {
        out.append(".");
        out.append(ext.as_str());
    }
    proof {
        reveal_strlit("/");
        reveal_strlit(".");
        assert(out@ =~= sibling_of(path@, suffix@));
    }
    out
}

} // verus!
