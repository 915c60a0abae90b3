use vstd::prelude::*;
use crate::error::EngineError;

verus! {

/// Index of the last `.` in `s`, or -1 when there is none.
pub open spec fn last_dot(s: Seq<char>) -> int
    decreases s.len(),
{
    if s.len() == 0 {
        -1
    } else if s.last() == '.' {
        s.len() - 1
    } else {
        last_dot(s.drop_last())
    }
}

/// A file name without its extension: everything before the last dot, unless
/// that dot opens the name (a hidden file such as `.profile` keeps its name).
pub open spec fn stem_of(s: Seq<char>) -> Seq<char> {
    if last_dot(s) > 0 {
        s.subrange(0, last_dot(s))
    } else {
        s
    }
}

pub open spec fn is_ident_start(c: char) -> bool {
    ('a' <= c && c <= 'z') || ('A' <= c && c <= 'Z') || c == '_' || c == '$'
}

pub open spec fn is_ident_char(c: char) -> bool {
    is_ident_start(c) || ('0' <= c && c <= '9')
}

/// A name that script code can write in a construction expression.
pub open spec fn is_identifier(s: Seq<char>) -> bool {
    &&& s.len() > 0
    &&& is_ident_start(s[0])
    &&& forall|i: int| 0 < i < s.len() ==> is_ident_char(#[trigger] s[i])
}

proof fn lemma_last_dot_range(s: Seq<char>)
    ensures
        -1 <= last_dot(s) < s.len(),
        last_dot(s) >= 0 ==> s[last_dot(s)] == '.',
    decreases s.len(),
{
    if s.len() > 0 && s.last() != '.' {
        lemma_last_dot_range(s.drop_last());
    }
}

fn is_ident_start_char(c: char) -> (r: bool)
    ensures
        r == is_ident_start(c),
{
    ('a' <= c && c <= 'z') || ('A' <= c && c <= 'Z') || c == '_' || c == '$'
}

/// The stem of a file or directory name.
pub fn file_stem(name: &str) -> (r: String)
    ensures
        r@ == stem_of(name@),
{
    let n = name.unicode_len();
    let mut i: usize = n;
    assert(name@.subrange(0, n as int) =~= name@);
    while i > 0 && name.get_char(i - 1) != '.'
        invariant
            i <= n,
            n == name@.len(),
            last_dot(name@.subrange(0, i as int)) == last_dot(name@),
        decreases i,
    {
        proof {
            let pre = name@.subrange(0, i as int);
            assert(pre.drop_last() =~= name@.subrange(0, i - 1));
        }
        i = i - 1;
    }
    proof {
        let pre = name@.subrange(0, i as int);
        if i == 0 {
            assert(pre.len() == 0);
            assert(last_dot(name@) == -1);
        } else {
            assert(pre.last() == name@[i - 1]);
            assert(last_dot(name@) == i - 1);
        }
    }
    if i > 1 {
        String::from_str(name.substring_char(0, i - 1))
    } else {
        String::from_str(name)
    }
}

/// Whether `name` is an identifier that a construction expression can use.
pub fn is_valid_identifier(name: &str) -> (r: bool)
    ensures
        r == is_identifier(name@),
{
    let n = name.unicode_len();
    if n == 0 {
        return false;
    }
    if !is_ident_start_char(name.get_char(0)) {
        return false;
    }
    let mut i: usize = 1;
    while i < n
        invariant
            1 <= i <= n,
            n == name@.len(),
            forall|k: int| 0 < k < i ==> is_ident_char(#[trigger] name@[k]),
        decreases n - i,
    {
        let c = name.get_char(i);
        if !(is_ident_start_char(c) || ('0' <= c && c <= '9')) {
            return false;
        }
        i = i + 1;
    }
    true
}

/// The namespace name of a directory entry: its stem, which must be an identifier.
pub fn namespace_name(dir_name: &str) -> (r: Result<String, EngineError>)
    ensures
        is_identifier(stem_of(dir_name@)) ==> (r matches Ok(s) && s@ == stem_of(dir_name@)),
        !is_identifier(stem_of(dir_name@)) ==> (r matches Err(EngineError::InvalidNamespaceName(
            s,
        )) && s@ == dir_name@),
{
    let stem = file_stem(dir_name);
    if is_valid_identifier(stem.as_str()) {
        Ok(stem)
    } else {
        Err(EngineError::InvalidNamespaceName(String::from_str(dir_name)))
    }
}

} // verus!
