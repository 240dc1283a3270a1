use vstd::prelude::*;

use crate::text::{decimal, lemma_replace_absent, push_decimal, push_range, replace_all, replace_char};

verus! {

/// Index of the last occurrence of `c` in `s`, or -1 when `c` does not occur.
pub open spec fn rfind(s: Seq<char>, c: char) -> int
    decreases s.len(),
{
    if s.len() == 0 {
        -1
    } else if s.last() == c {
        s.len() - 1
    } else {
        rfind(s.drop_last(), c)
    }
}

/// `rfind` is an index of `c`, or -1, with no `c` after it.
pub proof fn lemma_rfind_bounds(s: Seq<char>, c: char)
    ensures
        -1 <= rfind(s, c) < s.len(),
        rfind(s, c) >= 0 ==> s[rfind(s, c)] == c,
        forall|j: int| rfind(s, c) < j < s.len() ==> s[j] != c,
    decreases s.len(),
{
    if s.len() > 0 && s.last() != c {
        lemma_rfind_bounds(s.drop_last(), c);
        assert(forall|j: int| 0 <= j < s.len() - 1 ==> s.drop_last()[j] == s[j]);
    }
}

/// Finds the last occurrence of `c` in `s`.
pub fn last_index_of(s: &str, c: char) -> (r: Option<usize>)
    ensures
        r == (if rfind(s@, c) < 0 { None } else { Some(rfind(s@, c) as usize) }),
{
    let len = s.unicode_len();
    let mut i: usize = len;
    assert(s@.subrange(0, len as int) =~= s@);
    while i > 0
        invariant
            i <= len == s@.len(),
            rfind(s@, c) == rfind(s@.subrange(0, i as int), c),
        decreases i,
    {
        let ch = s.get_char(i - 1);
        let ghost t = s@.subrange(0, i as int);
        if ch == c {
            return Some(i - 1);
        }
        assert(t.drop_last() =~= s@.subrange(0, i - 1));
        i = i - 1;
    }
    assert(s@.subrange(0, 0).len() == 0);
    None
}

/// Index where the last component of `p` starts: just after its last `/`.
pub open spec fn name_start(p: Seq<char>) -> int {
    rfind(p, '/') + 1
}

/// The last component of `p`, the text after its last `/`.
pub open spec fn file_name(p: Seq<char>) -> Seq<char> {
    p.subrange(name_start(p), p.len() as int)
}

/// Index in the file name of the dot that starts the extension.
pub open spec fn ext_dot(p: Seq<char>) -> int {
    rfind(file_name(p), '.')
}

/// `p` names a file with a non-empty stem and an extension: its last
/// component holds a dot that is not its first character, and is not `..`.
pub open spec fn has_extension(p: Seq<char>) -> bool {
    ext_dot(p) > 0 && file_name(p) != seq!['.', '.']
}

/// The directory part of `p`, its trailing `/` included.
pub open spec fn dir_of(p: Seq<char>) -> Seq<char> {
    p.subrange(0, name_start(p))
}

/// The file name of `p` without its extension.
pub open spec fn stem_of(p: Seq<char>) -> Seq<char> {
    file_name(p).subrange(0, ext_dot(p))
}

/// The extension of `p`, without its dot.
pub open spec fn ext_of(p: Seq<char>) -> Seq<char> {
    file_name(p).subrange(ext_dot(p) + 1, file_name(p).len() as int)
}

/// The `n`-th candidate of the uniqueness guard: `p` itself for 0, and
/// `dir/stem_n.ext` after it.
pub open spec fn candidate(p: Seq<char>, n: nat) -> Seq<char> {
    if n == 0 {
        p
    } else {
        dir_of(p) + stem_of(p) + seq!['_'] + decimal(n) + seq!['.'] + ext_of(p)
    }
}

/// The parts of a path that names a file with an extension.
pub struct PathParts {
    pub dir: String,
    pub stem: String,
    pub ext: String,
}

/// Splits `path` into directory, stem and extension; `None` when its file
/// name has no stem or no extension.
pub fn split_path(path: &str) -> (r: Option<PathParts>)
    ensures
        r.is_some() == has_extension(path@),
        r matches Some(parts) ==> parts.dir@ == dir_of(path@) && parts.stem@ == stem_of(path@)
            && parts.ext@ == ext_of(path@),
{
    let len = path.unicode_len();
    proof {
        lemma_rfind_bounds(path@, '/');
    }
    let start: usize = match last_index_of(path, '/') {
        Some(i) => i + 1,
        None => 0,
    };
    let name = path.substring_char(start, len);
    assert(name@ == file_name(path@));
    let dot = last_index_of(name, '.');
    proof {
        lemma_rfind_bounds(name@, '.');
    }
    match dot {
        None => None,
        Some(d) => {
            if d == 0 {
                return None;
            }
            if d == 1 && name.unicode_len() == 2 && name.get_char(0) == '.' {
                assert(name@ =~= seq!['.', '.']);
                return None;
            }
            let mut dir = String::new();
            push_range(&mut dir, path, 0, start);
            let mut stem = String::new();
            push_range(&mut stem, name, 0, d);
            let mut ext = String::new();
            push_range(&mut ext, name, d + 1, name.unicode_len());
            assert(dir@ =~= dir_of(path@));
            assert(stem@ =~= stem_of(path@));
            assert(ext@ =~= ext_of(path@));
            Some(PathParts { dir, stem, ext })
        },
    }
}

/// Builds candidate `n` of the uniqueness guard from the parts of a path.
pub fn numbered_path(parts: &PathParts, n: u64) -> (r: String)
    ensures
        r@ == parts.dir@ + parts.stem@ + seq!['_'] + decimal(n as nat) + seq!['.'] + parts.ext@,
{
    let mut out = String::new();
    push_range(&mut out, parts.dir.as_str(), 0, parts.dir.as_str().unicode_len());
    push_range(&mut out, parts.stem.as_str(), 0, parts.stem.as_str().unicode_len());
    out.append("_");
    push_decimal(&mut out, n);
    out.append(".");
    push_range(&mut out, parts.ext.as_str(), 0, parts.ext.as_str().unicode_len());
    proof {
        reveal_strlit("_");
        reveal_strlit(".");
    }
    assert(parts.dir@.subrange(0, parts.dir@.len() as int) =~= parts.dir@);
    assert(parts.stem@.subrange(0, parts.stem@.len() as int) =~= parts.stem@);
    assert(parts.ext@.subrange(0, parts.ext@.len() as int) =~= parts.ext@);
    assert(out@ =~= parts.dir@ + parts.stem@ + seq!['_'] + decimal(n as nat) + seq!['.'] + parts.ext@);
    out
}

/// `is_taken` answered `answer` when asked about the path `p`.
pub open spec fn answered<F: Fn(&str) -> bool>(is_taken: F, p: Seq<char>, answer: bool) -> bool {
    exists|x: &str| x@ == p && is_taken.ensures((x,), answer)
}

/// Asks `is_taken` about `path`, then about `dir/stem_1.ext`,
/// `dir/stem_2.ext`, ..., in that order, and returns the first candidate
/// reported free. `None` only when every numbered candidate that a `u64`
/// can count was reported taken.
pub fn ensure_unique_filename<F: Fn(&str) -> bool>(path: &str, is_taken: F) -> (r: Option<String>)
    requires
        has_extension(path@),
        forall|s: &str| is_taken.requires((s,)),
    ensures
        r matches Some(s) ==> exists|n: nat|
            s@ == candidate(path@, n) && answered(is_taken, s@, false)
                && forall|k: nat| k < n ==> answered(is_taken, #[trigger] candidate(path@, k), true),
        r is None ==> forall|k: nat| k < u64::MAX ==> answered(is_taken, #[trigger] candidate(path@, k), true),
{
    let taken = is_taken(path);
    if !taken {
        let r = String::from_str(path);
        assert(answered(is_taken, r@, false));
        assert(r@ == candidate(path@, 0));
        return Some(r);
    }
    assert(answered(is_taken, candidate(path@, 0), true));
    let parts = match split_path(path) {
        Some(parts) => parts,
        None => {
            return None;
        },
    };
    let mut counter: u64 = 1;
    while counter < u64::MAX
        invariant
            1 <= counter <= u64::MAX,
            parts.dir@ == dir_of(path@) && parts.stem@ == stem_of(path@) && parts.ext@ == ext_of(path@),
            forall|s: &str| is_taken.requires((s,)),
            forall|k: nat| k < counter ==> answered(is_taken, #[trigger] candidate(path@, k), true),
        decreases u64::MAX - counter,
    {
        let next = numbered_path(&parts, counter);
        assert(next@ == candidate(path@, counter as nat));
        let taken = is_taken(next.as_str());
        if !taken {
            assert(answered(is_taken, next@, false));
            return Some(next);
        }
        assert(answered(is_taken, candidate(path@, counter as nat), true));
        counter = counter + 1;
    }
    None
}

/// When `is_taken` answers by membership in a fixed set of existing paths,
/// a result of `ensure_unique_filename` (candidate `n`) is not in that set,
/// and every earlier candidate is.
pub proof fn lemma_unique_against_existing<F: Fn(&str) -> bool>(
    path: Seq<char>,
    is_taken: F,
    existing: Set<Seq<char>>,
    n: nat,
)
    requires
        forall|x: &str, b: bool| is_taken.ensures((x,), b) ==> b == existing.contains(x@),
        answered(is_taken, candidate(path, n), false),
        forall|k: nat| k < n ==> answered(is_taken, #[trigger] candidate(path, k), true),
    ensures
        !existing.contains(candidate(path, n)),
        forall|k: nat| k < n ==> existing.contains(#[trigger] candidate(path, k)),
{
    assert forall|k: nat| k < n implies existing.contains(#[trigger] candidate(path, k)) by {
        assert(answered(is_taken, candidate(path, k), true));
    }
}

/// Wildcard substitution: every `*` of `template` becomes `name` when a name
/// is given; without one the template is kept as it is.
pub fn substitute_wildcard(template: &str, name: Option<&str>) -> (r: String)
    ensures
        r@ == (match name {
            Some(n) => replace_char(template@, '*', n@),
            None => template@,
        }),
        !template@.contains('*') ==> r@ == template@,
{
    match name {
        Some(n) => {
            proof {
                if !template@.contains('*') {
                    lemma_replace_absent(template@, '*', n@);
                }
            }
            replace_all(template, '*', n)
        },
        None => String::from_str(template),
    }
}

} // verus!
