//! Windows paths: the file name of an executable path.
use crate::text::{chars_of, string_from_chars};
use vstd::prelude::*;

verus! {

/// `\` and `/` both separate the components of a Windows path.
pub open spec fn is_separator(c: char) -> bool {
    c == '\\' || c == '/'
}

/// A separator of a path that is verbatim (`v`, only `\`) or not (`\` and
/// `/`).
pub open spec fn separates(c: char, v: bool) -> bool {
    c == '\\' || (!v && c == '/')
}

/// The end of the component of `s` that starts at `i`: the next separator,
/// or the end of `s`.
pub open spec fn comp_end(s: Seq<char>, i: int, v: bool) -> int
    decreases s.len() - i,
{
    if i < 0 {
        0
    } else if i >= s.len() || separates(s[i], v) {
        i
    } else {
        comp_end(s, i + 1, v)
    }
}

/// `c` is an ASCII letter.
pub open spec fn is_drive_letter(c: char) -> bool {
    ('a' <= c && c <= 'z') || ('A' <= c && c <= 'Z')
}

/// `c` starts with a drive letter and a colon, as in `C:`.
pub open spec fn has_drive_prefix(c: Seq<char>) -> bool {
    &&& c.len() >= 2
    &&& c[1] == ':'
    &&& is_drive_letter(c[0])
}

/// `s` is a verbatim path: it starts with `\\?\`.
pub open spec fn starts_verbatim(s: Seq<char>) -> bool {
    s.len() >= 4 && s[0] == '\\' && s[1] == '\\' && s[2] == '?' && s[3] == '\\'
}

/// The length of the prefix of a Windows path (`std::path::Prefix`):
/// `\\?\UNC\server\share`, `\\?\C:`, `\\?\name`, `\\.\device`,
/// `\\server\share` (both parts non-empty) or `C:`; 0 when it has none.
pub open spec fn prefix_len(s: Seq<char>) -> int {
    if starts_verbatim(s) {
        if s.len() >= 8 && s[4] == 'U' && s[5] == 'N' && s[6] == 'C' && s[7] == '\\' {
            let se = comp_end(s, 8, true);
            if se < s.len() {
                comp_end(s, se + 1, true)
            } else {
                se
            }
        } else if s.len() >= 6 && is_drive_letter(s[4]) && s[5] == ':' && (s.len() == 6 || s[6] == '\\') {
            6
        } else {
            comp_end(s, 4, true)
        }
    } else if s.len() >= 2 && is_separator(s[0]) && is_separator(s[1]) {
        if s.len() >= 4 && s[2] == '.' && is_separator(s[3]) {
            comp_end(s, 4, false)
        } else {
            let se = comp_end(s, 2, false);
            if se > 2 && se < s.len() && comp_end(s, se + 1, false) > se + 1 {
                comp_end(s, se + 1, false)
            } else {
                0
            }
        }
    } else if has_drive_prefix(s) {
        2
    } else {
        0
    }
}

/// The end of the first `n` characters of `s` once trailing separators and
/// (in a path that is not verbatim) trailing `.` components are dropped.
pub open spec fn tail_end(s: Seq<char>, n: int, v: bool) -> int
    decreases n,
{
    if n <= 0 {
        0
    } else if separates(s[n - 1], v) {
        tail_end(s, n - 1, v)
    } else if !v && n >= 2 && s[n - 1] == '.' && separates(s[n - 2], v) {
        tail_end(s, n - 1, v)
    } else {
        n
    }
}

/// The start of the component of `s` that ends at `e`.
pub open spec fn component_start(s: Seq<char>, e: int, v: bool) -> int
    decreases e,
{
    if e <= 0 {
        0
    } else if separates(s[e - 1], v) {
        e
    } else {
        component_start(s, e - 1, v)
    }
}

/// The last component of `r` (the part of a path after its prefix) when it
/// is a name, or nothing when `r` has no component or ends in `.` or `..`.
pub open spec fn last_name(r: Seq<char>, v: bool) -> Seq<char> {
    let e = tail_end(r, r.len() as int, v);
    let b = component_start(r, e, v);
    let c = r.subrange(b, e);
    if c == seq!['.'] || c == seq!['.', '.'] {
        Seq::empty()
    } else {
        c
    }
}

/// The file name of a Windows path: its last normal component after the
/// prefix, or nothing when the path ends in `..`, is a prefix or a root, or
/// is empty (`Path::file_name`, with `""` for `None`).
pub open spec fn file_name(s: Seq<char>) -> Seq<char> {
    last_name(s.skip(prefix_len(s)), starts_verbatim(s))
}

fn separator(c: char, v: bool) -> (b: bool)
    ensures
        b == separates(c, v),
{
    c == '\\' || (!v && c == '/')
}

fn drive_letter(c: char) -> (b: bool)
    ensures
        b == is_drive_letter(c),
{
    ('a' <= c && c <= 'z') || ('A' <= c && c <= 'Z')
}

/// Where the component of `cs` that starts at `i` ends.
fn component_end(cs: &Vec<char>, i: usize, v: bool) -> (e: usize)
    requires
        i <= cs@.len(),
    ensures
        e == comp_end(cs@, i as int, v),
        i <= e <= cs@.len(),
{
    let mut k: usize = i;
    while k < cs.len() && !separator(cs[k], v)
        invariant
            i <= k <= cs@.len(),
            comp_end(cs@, i as int, v) == comp_end(cs@, k as int, v),
        decreases cs@.len() - k,
    {
        k = k + 1;
    }
    k
}

/// The length of the prefix of `cs`.
fn prefix_length(cs: &Vec<char>) -> (p: usize)
    ensures
        p == prefix_len(cs@),
        p <= cs@.len(),
{
    let n = cs.len();
    if n >= 4 && cs[0] == '\\' && cs[1] == '\\' && cs[2] == '?' && cs[3] == '\\' {
        if n >= 8 && cs[4] == 'U' && cs[5] == 'N' && cs[6] == 'C' && cs[7] == '\\' {
            let se = component_end(cs, 8, true);
            if se < n {
                component_end(cs, se + 1, true)
            } else {
                se
            }
        } else if n >= 6 && drive_letter(cs[4]) && cs[5] == ':' && (n == 6 || cs[6] == '\\') {
            6
        } else {
            component_end(cs, 4, true)
        }
    } else if n >= 2 && separator(cs[0], false) && separator(cs[1], false) {
        if n >= 4 && cs[2] == '.' && separator(cs[3], false) {
            component_end(cs, 4, false)
        } else {
            let se = component_end(cs, 2, false);
            if se > 2 && se < n {
                let he = component_end(cs, se + 1, false);
                if he > se + 1 {
                    he
                } else {
                    0
                }
            } else {
                0
            }
        }
    } else if n >= 2 && cs[1] == ':' && drive_letter(cs[0]) {
        2
    } else {
        0
    }
}

/// The last name of `r`, as `last_name` says.
fn last_name_of(r: &Vec<char>, v: bool) -> (name: String)
    ensures
        name@ == last_name(r@, v),
{
    let ghost s = r@;
    let mut e: usize = r.len();
    while e > 0 && (separator(r[e - 1], v) || (!v && e >= 2 && r[e - 1] == '.' && separator(
        r[e - 2],
        v,
    )))
        invariant
            r@ == s,
            e <= s.len(),
            tail_end(s, s.len() as int, v) == tail_end(s, e as int, v),
        decreases e,
    {
        e = e - 1;
    }
    assert(tail_end(s, e as int, v) == e as int);
    let mut b: usize = e;
    while b > 0 && !separator(r[b - 1], v)
        invariant
            r@ == s,
            b <= e <= s.len(),
            component_start(s, e as int, v) == component_start(s, b as int, v),
        decreases b,
    {
        b = b - 1;
    }
    assert(component_start(s, b as int, v) == b as int);
    let mut part: Vec<char> = Vec::new();
    let mut k: usize = b;
    while k < e
        invariant
            r@ == s,
            b <= k <= e <= s.len(),
            part@ == s.subrange(b as int, k as int),
        decreases e - k,
    {
        part.push(r[k]);
        assert(part@ =~= s.subrange(b as int, k + 1));
        k = k + 1;
    }
    let dots = (part.len() == 1 && part[0] == '.') || (part.len() == 2 && part[0] == '.' && part[1]
        == '.');
    assert(dots == (part@ =~= seq!['.'] || part@ =~= seq!['.', '.']));
    if dots {
        String::new()
    } else {
        string_from_chars(part.as_slice())
    }
}

/// The executable's file name in `path`, or `""` when it has none.
pub fn exe_file_name(path: &str) -> (name: String)
    ensures
        name@ == file_name(path@),
{
    let cs = chars_of(path);
    let v = cs.len() >= 4 && cs[0] == '\\' && cs[1] == '\\' && cs[2] == '?' && cs[3] == '\\';
    let p = prefix_length(&cs);
    let mut rest: Vec<char> = Vec::new();
    let mut k: usize = p;
    while k < cs.len()
        invariant
            cs@ == path@,
            p <= k <= cs@.len(),
            rest@ == cs@.subrange(p as int, k as int),
        decreases cs@.len() - k,
    {
        rest.push(cs[k]);
        assert(rest@ =~= cs@.subrange(p as int, k + 1));
        k = k + 1;
    }
    assert(rest@ =~= path@.skip(p as int));
    last_name_of(&rest, v)
}

} // verus!
