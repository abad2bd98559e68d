//! Derivation of a filesystem-safe filename stem from a video title: keep
//! only alphanumerics, spaces, hyphens, underscores and dots, collapse runs
//! of spaces, trim outer spaces, and cap the length at 100 characters.
use vstd::prelude::*;
use crate::text::is_alnum;
use crate::text::str_to_chars;
use crate::text::chars_to_string;

verus! {

/// Characters that may appear in a sanitized title.
pub open spec fn allowed_char(c: char) -> bool {
    is_alnum(c) || c == ' ' || c == '-' || c == '_' || c == '.'
}

/// Every character of the sequence is allowed.
pub open spec fn all_allowed(s: Seq<char>) -> bool {
    forall|i: int| 0 <= i < s.len() ==> allowed_char(#[trigger] s[i])
}

/// No two adjacent spaces.
pub open spec fn no_double_space(s: Seq<char>) -> bool {
    forall|i: int| 0 <= i && i + 1 < s.len() ==> !(#[trigger] s[i] == ' ' && s[i + 1] == ' ')
}

/// The subsequence of allowed characters.
pub open spec fn keep_allowed(s: Seq<char>) -> Seq<char>
    decreases s.len(),
{
    if s.len() == 0 {
        s
    } else {
        let rest = keep_allowed(s.drop_last());
        if allowed_char(s.last()) {
            rest.push(s.last())
        } else {
            rest
        }
    }
}

/// Runs of spaces collapsed to a single space.
pub open spec fn collapse_spaces(s: Seq<char>) -> Seq<char>
    decreases s.len(),
{
    if s.len() == 0 {
        s
    } else {
        let rest = collapse_spaces(s.drop_last());
        if s.last() == ' ' && rest.len() > 0 && rest.last() == ' ' {
            rest
        } else {
            rest.push(s.last())
        }
    }
}

/// Leading spaces removed.
pub open spec fn trim_leading(s: Seq<char>) -> Seq<char>
    decreases s.len(),
{
    if s.len() > 0 && s.first() == ' ' {
        trim_leading(s.drop_first())
    } else {
        s
    }
}

/// Trailing spaces removed.
pub open spec fn trim_trailing(s: Seq<char>) -> Seq<char>
    decreases s.len(),
{
    if s.len() > 0 && s.last() == ' ' {
        trim_trailing(s.drop_last())
    } else {
        s
    }
}

/// At most the first `n` characters.
pub open spec fn truncate_chars(s: Seq<char>, n: int) -> Seq<char> {
    if s.len() > n {
        s.take(n)
    } else {
        s
    }
}

/// The sanitized form of a title: filtered, space-collapsed, trimmed, and
/// capped at 100 characters (with any space the cap exposes trimmed again).
pub open spec fn sanitize_spec(s: Seq<char>) -> Seq<char> {
    trim_trailing(
        truncate_chars(trim_leading(trim_trailing(collapse_spaces(keep_allowed(s)))), 100),
    )
}

proof fn lemma_keep_allowed_props(s: Seq<char>)
    ensures
        all_allowed(keep_allowed(s)),
        all_allowed(s) ==> keep_allowed(s) == s,
    decreases s.len(),
{
    if s.len() > 0 {
        lemma_keep_allowed_props(s.drop_last());
        if all_allowed(s) {
            assert(all_allowed(s.drop_last()));
            assert(keep_allowed(s) =~= s);
        }
    }
}

proof fn lemma_collapse_props(s: Seq<char>)
    ensures
        no_double_space(collapse_spaces(s)),
        all_allowed(s) ==> all_allowed(collapse_spaces(s)),
        no_double_space(s) ==> collapse_spaces(s) == s,
    decreases s.len(),
{
    if s.len() > 0 {
        lemma_collapse_props(s.drop_last());
        if all_allowed(s) {
            assert(all_allowed(s.drop_last()));
        }
        if no_double_space(s) {
            assert(no_double_space(s.drop_last()));
            if s.len() >= 2 {
                assert(s[s.len() - 2] == s.drop_last().last());
                assert(!(s[s.len() - 2] == ' ' && s[s.len() - 1] == ' '));
            }
            assert(collapse_spaces(s) =~= s);
        }
    }
}

proof fn lemma_trim_leading_props(s: Seq<char>)
    ensures
        trim_leading(s).len() <= s.len(),
        trim_leading(s).len() > 0 ==> trim_leading(s).first() != ' ',
        trim_leading(s).len() > 0 ==> trim_leading(s).last() == s.last(),
        all_allowed(s) ==> all_allowed(trim_leading(s)),
        no_double_space(s) ==> no_double_space(trim_leading(s)),
        s.len() == 0 || s.first() != ' ' ==> trim_leading(s) == s,
    decreases s.len(),
{
    if s.len() > 0 && s.first() == ' ' {
        lemma_trim_leading_props(s.drop_first());
        if all_allowed(s) {
            assert(all_allowed(s.drop_first()));
        }
        if no_double_space(s) {
            assert(no_double_space(s.drop_first()));
        }
    }
}

proof fn lemma_trim_trailing_props(s: Seq<char>)
    ensures
        trim_trailing(s).len() <= s.len(),
        trim_trailing(s).len() > 0 ==> trim_trailing(s).last() != ' ',
        trim_trailing(s).len() > 0 ==> trim_trailing(s).first() == s.first(),
        all_allowed(s) ==> all_allowed(trim_trailing(s)),
        no_double_space(s) ==> no_double_space(trim_trailing(s)),
        s.len() == 0 || s.last() != ' ' ==> trim_trailing(s) == s,
    decreases s.len(),
{
    if s.len() > 0 && s.last() == ' ' {
        lemma_trim_trailing_props(s.drop_last());
        if all_allowed(s) {
            assert(all_allowed(s.drop_last()));
        }
        if no_double_space(s) {
            assert(no_double_space(s.drop_last()));
        }
    }
}

proof fn lemma_truncate_props(s: Seq<char>, n: int)
    requires
        n >= 0,
    ensures
        truncate_chars(s, n).len() <= n,
        truncate_chars(s, n).len() > 0 ==> truncate_chars(s, n).first() == s.first(),
        all_allowed(s) ==> all_allowed(truncate_chars(s, n)),
        no_double_space(s) ==> no_double_space(truncate_chars(s, n)),
        s.len() <= n ==> truncate_chars(s, n) == s,
{
    if s.len() > n {
        let t = s.take(n);
        assert(forall|i: int| 0 <= i < t.len() ==> t[i] == s[i]);
    }
}

/// Sanitization is idempotent; its output never exceeds 100 characters and
/// holds only the allowed character classes.
pub proof fn lemma_sanitize_idempotent(s: Seq<char>)
    ensures
        sanitize_spec(sanitize_spec(s)) == sanitize_spec(s),
        sanitize_spec(s).len() <= 100,
        all_allowed(sanitize_spec(s)),
{
    let a = keep_allowed(s);
    let b = collapse_spaces(a);
    let c = trim_trailing(b);
    let d = trim_leading(c);
    let e = truncate_chars(d, 100);
    let r = trim_trailing(e);
    lemma_keep_allowed_props(s);
    lemma_collapse_props(a);
    lemma_trim_trailing_props(b);
    lemma_trim_leading_props(c);
    lemma_truncate_props(d, 100);
    lemma_trim_trailing_props(e);
    assert(all_allowed(r));
    assert(no_double_space(r));
    assert(r.len() <= 100);
    assert(r.len() > 0 ==> r.first() != ' ');
    assert(r.len() > 0 ==> r.last() != ' ');
    // A value with those four properties is a fixed point of every stage.
    lemma_keep_allowed_props(r);
    assert(keep_allowed(r) == r);
    lemma_collapse_props(r);
    assert(collapse_spaces(r) == r);
    lemma_trim_trailing_props(r);
    assert(trim_trailing(r) == r);
    lemma_trim_leading_props(r);
    assert(trim_leading(r) == r);
    lemma_truncate_props(r, 100);
    assert(truncate_chars(r, 100) == r);
}

proof fn lemma_trim_leading_skip(s: Seq<char>, j: int)
    requires
        0 <= j <= s.len(),
        forall|k: int| 0 <= k < j ==> s[k] == ' ',
    ensures
        trim_leading(s) == trim_leading(s.skip(j)),
    decreases j,
{
    if j > 0 {
        assert(s.first() == ' ');
        lemma_trim_leading_skip(s.drop_first(), j - 1);
        assert(s.drop_first().skip(j - 1) =~= s.skip(j));
    } else {
        assert(s.skip(0) =~= s);
    }
}

/// Produces the sanitized filename stem for a title.
pub fn sanitize_title(title: &str) -> (r: String)
    ensures
        r@ == sanitize_spec(title@),
        r@.len() <= 100,
        all_allowed(r@),
{
    let chars = str_to_chars(title);
    // Keep only the allowed characters.
    let mut kept: Vec<char> = Vec::new();
    let mut i: usize = 0;
    while i < chars.len()
        invariant
            chars@ == title@,
            i <= chars@.len(),
            kept@ == keep_allowed(chars@.take(i as int)),
        decreases chars@.len() - i,
    {
        let c = chars[i];
        if c.is_alphanumeric() || c == ' ' || c == '-' || c == '_' || c == '.' {
            kept.push(c);
        }
        i = i + 1;
        proof {
            assert(chars@.take(i as int).drop_last() =~= chars@.take(i - 1));
            assert(chars@.take(i as int).last() == chars@[i - 1]);
        }
    }
    proof {
        assert(chars@.take(chars@.len() as int) =~= chars@);
    }
    // Collapse runs of spaces.
    let mut collapsed: Vec<char> = Vec::new();
    let mut i2: usize = 0;
    while i2 < kept.len()
        invariant
            i2 <= kept@.len(),
            collapsed@ == collapse_spaces(kept@.take(i2 as int)),
        decreases kept@.len() - i2,
    {
        let c = kept[i2];
        if !(c == ' ' && collapsed.len() > 0 && collapsed[collapsed.len() - 1] == ' ') {
            collapsed.push(c);
        }
        i2 = i2 + 1;
        proof {
            assert(kept@.take(i2 as int).drop_last() =~= kept@.take(i2 - 1));
            assert(kept@.take(i2 as int).last() == kept@[i2 - 1]);
        }
    }
    proof {
        assert(kept@.take(kept@.len() as int) =~= kept@);
    }
    // Trim trailing spaces.
    let ghost c0 = collapsed@;
    while collapsed.len() > 0 && collapsed[collapsed.len() - 1] == ' '
        invariant
            trim_trailing(c0) == trim_trailing(collapsed@),
        decreases collapsed.len(),
    {
        collapsed.pop();
    }
    proof {
        assert(trim_trailing(collapsed@) == collapsed@);
    }
    // Trim leading spaces.
    let mut start: usize = 0;
    while start < collapsed.len() && collapsed[start] == ' '
        invariant
            start <= collapsed@.len(),
            forall|k: int| 0 <= k < start ==> collapsed@[k] == ' ',
        decreases collapsed@.len() - start,
    {
        start = start + 1;
    }
    let mut trimmed: Vec<char> = Vec::new();
    let mut k = start;
    while k < collapsed.len()
        invariant
            start <= k <= collapsed@.len(),
            trimmed@ == collapsed@.subrange(start as int, k as int),
        decreases collapsed@.len() - k,
    {
        trimmed.push(collapsed[k]);
        k = k + 1;
        proof {
            assert(trimmed@ =~= collapsed@.subrange(start as int, k as int));
        }
    }
    proof {
        lemma_trim_leading_skip(collapsed@, start as int);
        assert(trimmed@ =~= collapsed@.skip(start as int));
        assert(trim_leading(collapsed@.skip(start as int)) == collapsed@.skip(start as int));
        assert(trimmed@ == trim_leading(collapsed@));
    }
    // Cap the length.
    if trimmed.len() > 100 {
        trimmed.truncate(100);
        proof {
            assert(trimmed@ =~= truncate_chars(trim_leading(trim_trailing(collapse_spaces(
                keep_allowed(title@),
            ))), 100));
        }
    }
    // Trim any trailing space the cap exposed.
    let ghost t0 = trimmed@;
    while trimmed.len() > 0 && trimmed[trimmed.len() - 1] == ' '
        invariant
            trim_trailing(t0) == trim_trailing(trimmed@),
        decreases trimmed.len(),
    {
        trimmed.pop();
    }
    proof {
        assert(trim_trailing(trimmed@) == trimmed@);
        lemma_sanitize_idempotent(title@);
    }
    chars_to_string(&trimmed)
}

} // verus!
