//! Paths as texts, with `/` between their components: the name of a file, its
//! stem and extension, its folder, and a name placed in a folder.

use vstd::prelude::*;
use vstd::string::*;

verus! {

/// The position of the last `c` in `s`, or -1 where `s` holds none.
pub open spec fn last_index_of(s: Seq<char>, c: char) -> int
    decreases s.len(),
{
    if s.len() == 0 {
        -1
    } else if s.last() == c {
        s.len() - 1
    } else {
        last_index_of(s.drop_last(), c)
    }
}

/// What [`last_index_of`] finds is a `c`, and no `c` stands behind it.
pub proof fn lemma_last_index_of(s: Seq<char>, c: char)
    ensures
        -1 <= last_index_of(s, c) < s.len(),
        last_index_of(s, c) >= 0 ==> s[last_index_of(s, c)] == c,
        forall|i: int| last_index_of(s, c) < i < s.len() ==> s[i] != c,
    decreases s.len(),
{
    if s.len() > 0 && s.last() != c {
        let front = s.drop_last();
        lemma_last_index_of(front, c);
        assert forall|i: int| last_index_of(s, c) < i < s.len() implies s[i] != c by {
            if i < front.len() {
                assert(s[i] == front[i]);
            }
        }
    }
}

/// A position that holds `c` with no `c` behind it is what [`last_index_of`] finds.
pub proof fn lemma_last_index_of_is(s: Seq<char>, c: char, at: int)
    requires
        -1 <= at < s.len(),
        at >= 0 ==> s[at] == c,
        forall|i: int| at < i < s.len() ==> s[i] != c,
    ensures
        last_index_of(s, c) == at,
{
    lemma_last_index_of(s, c);
}

/// Whether `s` holds `c` anywhere.
pub open spec fn has_char(s: Seq<char>, c: char) -> bool {
    exists|i: int| 0 <= i < s.len() && s[i] == c
}

/// The last component of a path: what follows its last `/`.
pub open spec fn spec_file_name(path: Seq<char>) -> Seq<char> {
    path.subrange(last_index_of(path, '/') + 1, path.len() as int)
}

/// A file name without its extension: what stands before the last `.`. A name
/// without a `.`, or whose only `.` is its first character, is its own stem.
pub open spec fn spec_file_stem(name: Seq<char>) -> Seq<char> {
    let dot = last_index_of(name, '.');
    if dot <= 0 {
        name
    } else {
        name.subrange(0, dot)
    }
}

/// A file name's extension: what follows the last `.`, without it. Empty for a
/// name that is its own stem.
pub open spec fn spec_extension(name: Seq<char>) -> Seq<char> {
    let dot = last_index_of(name, '.');
    if dot <= 0 {
        Seq::empty()
    } else {
        name.subrange(dot + 1, name.len() as int)
    }
}

/// The directory that holds a path's last component. The empty path and the
/// root have none; a bare file name lies in the empty (current) directory.
pub open spec fn spec_parent(path: Seq<char>) -> Option<Seq<char>> {
    let slash = last_index_of(path, '/');
    if path.len() == 0 {
        None
    } else if slash < 0 {
        Some(Seq::empty())
    } else if slash == 0 {
        if path.len() == 1 {
            None
        } else {
            Some(path.subrange(0, 1))
        }
    } else {
        Some(path.subrange(0, slash))
    }
}

/// A file name placed in a directory.
pub open spec fn spec_join(dir: Seq<char>, name: Seq<char>) -> Seq<char> {
    if dir.len() == 0 {
        name
    } else if dir.last() == '/' {
        dir + name
    } else {
        dir + seq!['/'] + name
    }
}

/// The lower-case form of an ASCII capital; any other character is itself.
pub open spec fn spec_ascii_lower(c: char) -> char {
    if 'A' <= c && c <= 'Z' {
        ((c as u8) + 32) as char
    } else {
        c
    }
}

/// A text with each ASCII capital in lower case.
pub open spec fn spec_lowercase(s: Seq<char>) -> Seq<char> {
    Seq::new(s.len(), |i: int| spec_ascii_lower(s[i]))
}

fn last_position(s: &str, c: char) -> (at: Option<usize>)
    ensures
        match at {
            Some(i) => last_index_of(s@, c) == i && i < s@.len(),
            None => last_index_of(s@, c) == -1,
        },
{
    let n = s.unicode_len();
    let mut i: usize = n;
    while i > 0
        invariant
            i <= n,
            n == s@.len(),
            forall|j: int| i <= j < s@.len() ==> s@[j] != c,
        decreases i,
    {
        if s.get_char(i - 1) == c {
            proof {
                lemma_last_index_of_is(s@, c, i - 1);
            }
            return Some(i - 1);
        }
        i = i - 1;
    }
    proof {
        lemma_last_index_of_is(s@, c, -1);
    }
    None
}

/// The last component of `path`.
pub fn file_name(path: &str) -> (name: String)
    ensures
        name@ == spec_file_name(path@),
{
    let n = path.unicode_len();
    let start = match last_position(path, '/') {
        Some(i) => i + 1,
        None => 0,
    };
    String::from_str(path.substring_char(start, n))
}

/// `name` without its extension.
pub fn file_stem(name: &str) -> (stem: String)
    ensures
        stem@ == spec_file_stem(name@),
{
    match last_position(name, '.') {
        Some(dot) => {
            if dot == 0 {
                String::from_str(name)
            } else {
                String::from_str(name.substring_char(0, dot))
            }
        },
        None => String::from_str(name),
    }
}

/// The extension of `name`, as written.
pub fn extension(name: &str) -> (ext: String)
    ensures
        ext@ == spec_extension(name@),
{
    let n = name.unicode_len();
    match last_position(name, '.') {
        Some(dot) => {
            if dot == 0 {
                String::new()
            } else {
                String::from_str(name.substring_char(dot + 1, n))
            }
        },
        None => String::new(),
    }
}

/// The directory of `path`, where it has one.
pub fn parent(path: &str) -> (dir: Option<String>)
    ensures
        match dir {
            Some(d) => spec_parent(path@) == Some(d@),
            None => spec_parent(path@) is None,
        },
{
    let n = path.unicode_len();
    if n == 0 {
        return None;
    }
    match last_position(path, '/') {
        Some(slash) => {
            if slash == 0 {
                if n == 1 {
                    None
                } else {
                    Some(String::from_str(path.substring_char(0, 1)))
                }
            } else {
                Some(String::from_str(path.substring_char(0, slash)))
            }
        },
        None => Some(String::new()),
    }
}

/// `name` placed in `dir`.
pub fn join(dir: &str, name: &str) -> (path: String)
    ensures
        path@ == spec_join(dir@, name@),
{
    let n = dir.unicode_len();
    if n == 0 {
        String::from_str(name)
    } else if dir.get_char(n - 1) == '/' {
        String::from_str(dir).concat(name)
    } else {
        proof {
            reveal_strlit("/");
        }
        String::from_str(dir).concat("/").concat(name)
    }
}

/// The lower-case form of an ASCII capital; any other character unchanged.
pub fn ascii_lower(c: char) -> (lower: char)
    ensures
        lower == spec_ascii_lower(c),
{
    if 'A' <= c && c <= 'Z' {
        ((c as u8) + 32) as char
    } else {
        c
    }
}

/// Whether `text`, with its ASCII capitals in lower case, is `lowered`.
pub fn eq_ignore_ascii_case(text: &str, lowered: &str) -> (same: bool)
    ensures
        same == (spec_lowercase(text@) == lowered@),
{
    let n = text.unicode_len();
    if n != lowered.unicode_len() {
        return false;
    }
    let mut i: usize = 0;
    while i < n
        invariant
            i <= n,
            n == text@.len(),
            n == lowered@.len(),
            forall|j: int| 0 <= j < i ==> spec_ascii_lower(text@[j]) == lowered@[j],
        decreases n - i,
    {
        if ascii_lower(text.get_char(i)) != lowered.get_char(i) {
            return false;
        }
        i = i + 1;
    }
    assert(spec_lowercase(text@) =~= lowered@);
    true
}

} // verus!
