//! Character and string utilities shared by the rest of the library:
//! conversion between `String` and `Vec<char>`, equality, substring and
//! prefix search, and extraction of a filename stem.
use vstd::prelude::*;
use vstd::string::StrSliceExecFns;
use vstd::string::StringExecFns;

verus! {

/// What `char::is_alphanumeric` returns; the Unicode tables behind it are
/// not restated here.
pub uninterp spec fn is_alnum(c: char) -> bool;

/// Relies on `char::is_alphanumeric`: a pure function of the character alone.
pub assume_specification[ char::is_alphanumeric ](c: char) -> (r: bool)
    ensures
        r == is_alnum(c),
;

/// Relies on `String::push`: appends exactly the one character.
#[verifier::external_body]
pub(crate) fn push_char(s: &mut String, c: char)
    ensures
        final(s)@ == old(s)@.push(c),
{
    s.push(c);
}

/// Collects the characters of a string slice into a vector.
pub fn str_to_chars(s: &str) -> (r: Vec<char>)
    ensures
        r@ == s@,
{
    let n = s.unicode_len();
    let mut r: Vec<char> = Vec::new();
    let mut i: usize = 0;
    while i < n
        invariant
            n == s@.len(),
            i <= n,
            r@ == s@.take(i as int),
        decreases n - i,
    {
        let c = s.get_char(i);
        r.push(c);
        i = i + 1;
        proof {
            assert(r@ =~= s@.take(i as int));
        }
    }
    proof {
        assert(s@.take(n as int) =~= s@);
    }
    r
}

/// Builds a string whose characters are exactly those of the vector.
pub fn chars_to_string(v: &Vec<char>) -> (r: String)
    ensures
        r@ == v@,
{
    let mut r = String::new();
    let mut i: usize = 0;
    while i < v.len()
        invariant
            i <= v@.len(),
            r@ == v@.take(i as int),
        decreases v@.len() - i,
    {
        push_char(&mut r, v[i]);
        i = i + 1;
        proof {
            assert(r@ =~= v@.take(i as int));
        }
    }
    proof {
        assert(v@.take(v@.len() as int) =~= v@);
    }
    r
}

/// Character-wise string equality.
pub fn str_eq(a: &str, b: &str) -> (r: bool)
    ensures
        r == (a@ == b@),
{
    let na = a.unicode_len();
    let nb = b.unicode_len();
    if na != nb {
        proof {
            assert(a@ != b@);
        }
        return false;
    }
    let mut i: usize = 0;
    while i < na
        invariant
            na == a@.len(),
            na == b@.len(),
            i <= na,
            forall|j: int| 0 <= j < i ==> a@[j] == b@[j],
        decreases na - i,
    {
        if a.get_char(i) != b.get_char(i) {
            return false;
        }
        i = i + 1;
    }
    proof {
        assert(a@ =~= b@);
    }
    true
}

/// The needle occurs in the haystack starting at position `i`.
pub open spec fn matches_at(hay: Seq<char>, needle: Seq<char>, i: int) -> bool {
    0 <= i && i + needle.len() <= hay.len() && (forall|j: int|
        0 <= j < needle.len() ==> hay[i + j] == needle[j])
}

/// The needle occurs somewhere in the haystack.
pub open spec fn contains_seq(hay: Seq<char>, needle: Seq<char>) -> bool {
    exists|i: int| matches_at(hay, needle, i)
}

/// Substring search by direct character comparison.
pub fn contains_str(hay: &str, needle: &str) -> (r: bool)
    ensures
        r == contains_seq(hay@, needle@),
{
    let nh = hay.unicode_len();
    let nn = needle.unicode_len();
    if nn > nh {
        return false;
    }
    let mut i: usize = 0;
    while i <= nh - nn
        invariant
            nh == hay@.len(),
            nn == needle@.len(),
            nn <= nh,
            i <= nh - nn + 1,
            forall|k: int| 0 <= k < i ==> !matches_at(hay@, needle@, k),
        decreases nh - nn + 1 - i,
    {
        let mut j: usize = 0;
        let mut all_eq = true;
        while j < nn && all_eq
            invariant
                nh == hay@.len(),
                nn == needle@.len(),
                i + nn <= nh,
                j <= nn,
                all_eq ==> (forall|l: int| 0 <= l < j ==> hay@[i + l] == needle@[l]),
                !all_eq ==> !matches_at(hay@, needle@, i as int),
            decreases nn - j,
        {
            if hay.get_char(i + j) != needle.get_char(j) {
                all_eq = false;
                proof {
                    assert(hay@[i + j] != needle@[j as int]);
                }
            }
            j = j + 1;
        }
        if all_eq {
            proof {
                assert(matches_at(hay@, needle@, i as int));
            }
            return true;
        }
        i = i + 1;
    }
    false
}

/// The prefix relation on character sequences.
pub open spec fn starts_with_seq(s: Seq<char>, prefix: Seq<char>) -> bool {
    matches_at(s, prefix, 0)
}

/// Prefix test by direct character comparison.
pub fn starts_with_str(s: &str, prefix: &str) -> (r: bool)
    ensures
        r == starts_with_seq(s@, prefix@),
{
    let ns = s.unicode_len();
    let np = prefix.unicode_len();
    if np > ns {
        return false;
    }
    let mut j: usize = 0;
    while j < np
        invariant
            ns == s@.len(),
            np == prefix@.len(),
            np <= ns,
            j <= np,
            forall|l: int| 0 <= l < j ==> s@[l] == prefix@[l],
        decreases np - j,
    {
        if s.get_char(j) != prefix.get_char(j) {
            proof {
                assert(s@[j as int] != prefix@[j as int]);
            }
            return false;
        }
        j = j + 1;
    }
    true
}

/// The suffix relation on character sequences.
pub open spec fn ends_with_seq(s: Seq<char>, suffix: Seq<char>) -> bool {
    s.len() >= suffix.len() && s.subrange(s.len() - suffix.len(), s.len() as int) == suffix
}

/// Concatenation of a directory, a slash and a name.
pub fn join_slash(dir: &str, name: &str) -> (r: String)
    ensures
        r@ == dir@ + "/"@ + name@,
{
    let r = String::from_str(dir).concat("/").concat(name);
    proof {
        assert(r@ =~= dir@ + "/"@ + name@);
    }
    r
}

/// Index of the last `.` in the sequence, or -1 when there is none.
pub open spec fn last_dot_index(s: Seq<char>) -> int
    decreases s.len(),
{
    if s.len() == 0 {
        -1
    } else if s.last() == '.' {
        s.len() - 1
    } else {
        last_dot_index(s.drop_last())
    }
}

/// The filename stem: everything before the last `.`, unless that dot is the
/// first character or there is no dot, in which case the whole name.
pub open spec fn stem_spec(s: Seq<char>) -> Seq<char> {
    let i = last_dot_index(s);
    if i >= 1 {
        s.take(i)
    } else {
        s
    }
}

proof fn lemma_last_dot_prefix(s: Seq<char>, j: int)
    requires
        0 <= j <= s.len(),
        forall|k: int| j <= k < s.len() ==> s[k] != '.',
    ensures
        last_dot_index(s) == last_dot_index(s.take(j)),
    decreases s.len() - j,
{
    if j < s.len() {
        lemma_last_dot_prefix(s, j + 1);
        assert(s.take(j + 1).drop_last() =~= s.take(j));
        assert(s.take(j + 1).last() == s[j]);
        assert(s.take(s.len() as int) =~= s);
    } else {
        assert(s.take(j) =~= s);
    }
}

/// Extracts the stem of a filename.
pub fn stem_of(filename: &str) -> (r: String)
    ensures
        r@ == stem_spec(filename@),
{
    let n = filename.unicode_len();
    let mut j: usize = n;
    while j > 0 && filename.get_char(j - 1) != '.'
        invariant
            n == filename@.len(),
            j <= n,
            forall|k: int| j <= k < n ==> filename@[k] != '.',
        decreases j,
    {
        j = j - 1;
    }
    proof {
        lemma_last_dot_prefix(filename@, j as int);
        if j > 0 {
            assert(filename@.take(j as int).last() == filename@[j - 1]);
        }
    }
    if j >= 2 {
        proof {
            assert(last_dot_index(filename@) == j - 1);
        }
        let r = String::from_str(filename.substring_char(0, j - 1));
        r
    } else {
        proof {
            assert(last_dot_index(filename@) < 1);
        }
        String::from_str(filename)
    }
}

} // verus!
