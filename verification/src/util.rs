//! Small string helpers shared by the routing and messaging code.

use vstd::prelude::*;

verus! {

/// The chat link markup for `url` labelled `text`: `<url|text>`.
pub open spec fn spec_link(url: Seq<char>, text: Seq<char>) -> Seq<char> {
    "<"@ + url + "|"@ + text + ">"@
}

/// Renders a clickable reference to `url` labelled `text`.
pub fn make_link(url: &str, text: &str) -> (r: String)
    ensures
        r@ == spec_link(url@, text@),
{
    let mut s = String::new();
    s.append("<");
    s.append(url);
    s.append("|");
    s.append(text);
    s.append(">");
    proof {
        assert(s@ =~= spec_link(url@, text@));
    }
    s
}

/// The views of a sequence of strings, in order.
pub open spec fn views_of_strings(s: Seq<String>) -> Seq<Seq<char>> {
    s.map_values(|x: String| x@)
}

/// String equality, stated over the views.
pub fn str_eq(a: &str, b: &str) -> (r: bool)
    ensures
        r == (a@ == b@),
{
    let sa = a.to_owned();
    let sb = b.to_owned();
    sa == sb
}

/// The whitespace characters recognized when testing for a blank body.
pub open spec fn is_space_char(c: char) -> bool {
    c == ' ' || c == '\t' || c == '\n' || c == '\r'
}

/// A body is blank when every character is whitespace (so also when empty).
pub open spec fn spec_blank(s: Seq<char>) -> bool {
    forall|i: int| 0 <= i < s.len() ==> is_space_char(#[trigger] s[i])
}

/// Whether `s` is empty or made of whitespace only.
pub fn is_blank(s: &str) -> (r: bool)
    ensures
        r == spec_blank(s@),
{
    let n = s.unicode_len();
    let mut i: usize = 0;
    while i < n
        invariant
            0 <= i <= n,
            n == s@.len(),
            forall|j: int| 0 <= j < i ==> is_space_char(#[trigger] s@[j]),
        decreases n - i,
    {
        let c = s.get_char(i);
        if !(c == ' ' || c == '\t' || c == '\n' || c == '\r') {
            return false;
        }
        i = i + 1;
    }
    true
}

/// `s` with every `-` replaced by `.`.
pub open spec fn dash_to_dot(s: Seq<char>) -> Seq<char> {
    s.map_values(|c: char| if c == '-' { '.' } else { c })
}

/// Replaces every `-` in `s` with `.`.
pub fn replace_dashes(s: &str) -> (r: String)
    ensures
        r@ == dash_to_dot(s@),
{
    let n = s.unicode_len();
    let mut out = String::new();
    let mut i: usize = 0;
    while i < n
        invariant
            0 <= i <= n,
            n == s@.len(),
            out@ =~= dash_to_dot(s@.take(i as int)),
        decreases n - i,
    {
        let c = s.get_char(i);
        if c == '-' {
            out.append(".");
            proof {
                reveal_strlit(".");
            }
        } else {
            let piece = s.substring_char(i, i + 1);
            out.append(piece);
        }
        proof {
            assert(out@ =~= dash_to_dot(s@.take(i + 1)));
        }
        i = i + 1;
    }
    proof {
        assert(s@.take(n as int) =~= s@);
    }
    out
}

} // verus!
