//! Small operations on names and selectors.
use vstd::prelude::*;

verus! {

/// Relies on `String::push`: the character is appended at the end.
#[verifier::external_body]
pub(crate) fn push_char(s: &mut String, c: char)
    ensures
        final(s)@ == old(s)@.push(c),
{
    s.push(c)
}

/// Whether a name carries the private-name marker.
pub open spec fn is_private_name(s: Seq<char>) -> bool {
    s.len() > 0 && s[0] == '_'
}

/// Whether a name begins with the private-name marker.
pub fn starts_with_underscore(s: &String) -> (r: bool)
    ensures
        r == is_private_name(s@),
{
    let t = s.as_str();
    let n = t.unicode_len();
    n > 0 && t.get_char(0) == '_'
}

/// A selector without its trailing colons.
pub open spec fn trim_colons(s: Seq<char>) -> Seq<char>
    decreases s.len(),
{
    if s.len() > 0 && s.last() == ':' {
        trim_colons(s.drop_last())
    } else {
        s
    }
}

/// A character of a selector as it stands in a function name.
pub open spec fn fn_name_char(c: char) -> char {
    if c == ':' {
        '_'
    } else {
        c
    }
}

/// The function name of a selector: trailing colons dropped, the inner ones
/// turned into underscores.
pub open spec fn fn_name_of(selector: Seq<char>) -> Seq<char> {
    trim_colons(selector).map_values(|c: char| fn_name_char(c))
}

proof fn lemma_trim_prefix(s: Seq<char>, end: int)
    requires
        0 <= end <= s.len(),
        forall|j: int| end <= j < s.len() ==> s[j] == ':',
    ensures
        trim_colons(s) == trim_colons(s.subrange(0, end)),
    decreases s.len(),
{
    if s.len() > end {
        assert(s.last() == ':');
        assert(s.drop_last().subrange(0, end) =~= s.subrange(0, end));
        lemma_trim_prefix(s.drop_last(), end);
    } else {
        assert(s.subrange(0, end) =~= s);
    }
}

/// The function name of a selector.
pub fn selector_fn_name(selector: &String) -> (r: String)
    ensures
        r@ == fn_name_of(selector@),
{
    let s = selector.as_str();
    let n = s.unicode_len();
    let mut end: usize = n;
    loop
        invariant
            n == s@.len(),
            end <= n,
            forall|j: int| end <= j < n ==> s@[j] == ':',
        ensures
            end <= n,
            forall|j: int| end <= j < n ==> s@[j] == ':',
            end == 0 || s@[end - 1] != ':',
        decreases end,
    {
        if end == 0 {
            break;
        }
        if s.get_char(end - 1) != ':' {
            break;
        }
        end = end - 1;
    }
    proof {
        lemma_trim_prefix(s@, end as int);
        if end > 0 {
            assert(s@.subrange(0, end as int).last() != ':');
        }
        assert(trim_colons(s@.subrange(0, end as int)) == s@.subrange(0, end as int));
    }
    let mut r = String::new();
    for i in 0..end
        invariant
            end <= n,
            n == s@.len(),
            r@ == s@.subrange(0, i as int).map_values(|c: char| fn_name_char(c)),
    {
        let c = s.get_char(i);
        let d = if c == ':' {
            '_'
        } else {
            c
        };
        push_char(&mut r, d);
        assert(r@ =~= s@.subrange(0, i + 1).map_values(|c: char| fn_name_char(c)));
    }
    r
}

} // verus!
