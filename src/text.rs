use vstd::prelude::*;
use vstd::string::StrSliceExecFns;

verus! {

/// Whether two strings hold the same characters.
pub fn same_text(a: &str, b: &str) -> (r: bool)
    ensures
        r == (a@ == b@),
{
    let n = a.unicode_len();
    if n != b.unicode_len() {
        return false;
    }
    let mut i: usize = 0;
    while i < n
        invariant
            n == a@.len() == b@.len(),
            0 <= i <= n,
            a@.subrange(0, i as int) == b@.subrange(0, i as int),
        decreases n - i,
    {
        if a.get_char(i) != b.get_char(i) {
            return false;
        }
        proof {
            assert(a@.subrange(0, i + 1) == a@.subrange(0, i as int).push(a@[i as int]));
            assert(b@.subrange(0, i + 1) == b@.subrange(0, i as int).push(b@[i as int]));
        }
        i = i + 1;
    }
    proof {
        assert(a@ == a@.subrange(0, n as int));
        assert(b@ == b@.subrange(0, n as int));
    }
    true
}

/// What `str::to_lowercase` makes of a string.
pub uninterp spec fn lower_of(s: Seq<char>) -> Seq<char>;

/// Relies on `str::to_lowercase`: the result depends on the characters alone.
#[verifier::external_body]
pub(crate) fn lowercase(s: &str) -> (r: String)
    ensures
        r@ == lower_of(s@),
{
    s.to_lowercase()
}

/// Relies on `String::push`: the character is appended at the end.
#[verifier::external_body]
pub(crate) fn push_char(s: &mut String, c: char)
    ensures
        final(s)@ == old(s)@.push(c),
{
    s.push(c)
}

/// Relies on `String::push_str`: the text is appended at the end.
#[verifier::external_body]
pub(crate) fn push_text(s: &mut String, t: &str)
    ensures
        final(s)@ == old(s)@ + t@,
{
    s.push_str(t)
}

/// The characters that title matching ignores.
pub open spec fn is_separator(c: char) -> bool {
    c == ' ' || c == '-' || c == '_'
}

/// `s` with every separator removed, the other characters kept in order.
pub open spec fn strip_separators_of(s: Seq<char>) -> Seq<char>
    decreases s.len(),
{
    if s.len() == 0 {
        Seq::empty()
    } else {
        let rest = strip_separators_of(s.drop_last());
        if is_separator(s.last()) {
            rest
        } else {
            rest.push(s.last())
        }
    }
}

/// The key under which titles are compared: lowercased, separators removed.
pub open spec fn title_key(s: Seq<char>) -> Seq<char> {
    strip_separators_of(lower_of(s))
}

/// `s` with every space replaced by an underscore.
pub open spec fn spaces_to_underscores(s: Seq<char>) -> Seq<char> {
    s.map_values(|c: char| if c == ' ' { '_' } else { c })
}

/// Removes spaces, hyphens and underscores from `s`.
pub fn strip_separators(s: &str) -> (r: String)
    ensures
        r@ == strip_separators_of(s@),
{
    let n = s.unicode_len();
    let mut out = String::new();
    let mut i: usize = 0;
    while i < n
        invariant
            n == s@.len(),
            0 <= i <= n,
            out@ == strip_separators_of(s@.subrange(0, i as int)),
        decreases n - i,
    {
        let c = s.get_char(i);
        proof {
            assert(s@.subrange(0, i + 1).drop_last() == s@.subrange(0, i as int));
        }
        if !(c == ' ' || c == '-' || c == '_') {
            push_char(&mut out, c);
        }
        i = i + 1;
    }
    proof {
        assert(s@.subrange(0, n as int) == s@);
    }
    out
}

/// Replaces every space of `s` by an underscore.
pub fn underscore_spaces(s: &str) -> (r: String)
    ensures
        r@ == spaces_to_underscores(s@),
{
    let n = s.unicode_len();
    let mut out = String::new();
    let mut i: usize = 0;
    while i < n
        invariant
            n == s@.len(),
            0 <= i <= n,
            out@ == spaces_to_underscores(s@.subrange(0, i as int)),
        decreases n - i,
    {
        let c = s.get_char(i);
        proof {
            assert(spaces_to_underscores(s@.subrange(0, i + 1)) =~= spaces_to_underscores(
                s@.subrange(0, i as int),
            ).push(if c == ' ' { '_' } else { c }));
        }
        if c == ' ' {
            push_char(&mut out, '_');
        } else {
            push_char(&mut out, c);
        }
        i = i + 1;
    }
    proof {
        assert(s@.subrange(0, n as int) == s@);
    }
    out
}

/// The comparison key of a title: lowercased, with separators removed.
pub fn normalize(s: &str) -> (r: String)
    ensures
        r@ == title_key(s@),
{
    let lowered = lowercase(s);
    strip_separators(lowered.as_str())
}

/// Whether two already lowercased titles are equal once separators are
/// removed.
pub fn lowered_titles_match(a: &str, b: &str) -> (r: bool)
    ensures
        r == (strip_separators_of(a@) == strip_separators_of(b@)),
{
    let sa = strip_separators(a);
    let sb = strip_separators(b);
    same_text(sa.as_str(), sb.as_str())
}

/// Whether two titles are equal up to case and separators.
pub fn titles_match(a: &str, b: &str) -> (r: bool)
    ensures
        r == (title_key(a@) == title_key(b@)),
{
    let la = lowercase(a);
    let lb = lowercase(b);
    lowered_titles_match(la.as_str(), lb.as_str())
}

/// Removing separators twice removes nothing more.
pub proof fn lemma_strip_idempotent(s: Seq<char>)
    ensures
        strip_separators_of(strip_separators_of(s)) == strip_separators_of(s),
    decreases s.len(),
{
    if s.len() > 0 {
        lemma_strip_idempotent(s.drop_last());
        let rest = strip_separators_of(s.drop_last());
        if !is_separator(s.last()) {
            let t = rest.push(s.last());
            assert(t.drop_last() == rest);
        }
    }
}

} // verus!
