use vstd::prelude::*;

verus! {

/// The HTML entity that stands for one character, or the character itself
/// where no escaping is needed.
pub open spec fn escape_char(c: char) -> Seq<char> {
    if c == '&' {
        "&amp;"@
    } else if c == '<' {
        "&lt;"@
    } else if c == '>' {
        "&gt;"@
    } else if c == '"' {
        "&quot;"@
    } else if c == '\'' {
        "&#x27;"@
    } else {
        seq![c]
    }
}

/// A string with every HTML-significant character replaced by its entity.
pub open spec fn escape_html_spec(s: Seq<char>) -> Seq<char>
    decreases s.len(),
{
    if s.len() == 0 {
        Seq::empty()
    } else {
        escape_char(s.first()) + escape_html_spec(s.drop_first())
    }
}

/// Escapes a string for safe display in HTML.
pub fn escape_html(text: &str) -> (r: String)
    ensures
        r@ == escape_html_spec(text@),
{
    let n = text.unicode_len();
    let mut out = String::new();
    assert(text@.skip(0) == text@);
    for i in 0..n
        invariant
            n == text@.len(),
            escape_html_spec(text@) == out@ + escape_html_spec(text@.skip(i as int)),
    {
        let c = text.get_char(i);
        proof {
            assert(text@.skip(i as int).first() == c);
            assert(text@.skip(i as int).drop_first() == text@.skip(i + 1));
        }
        if c == '&' {
            out.append("&amp;");
        } else if c == '<' {
            out.append("&lt;");
        } else if c == '>' {
            out.append("&gt;");
        } else if c == '"' {
            out.append("&quot;");
        } else if c == '\'' {
            out.append("&#x27;");
        } else {
            push_char(&mut out, c);
        }
        assert(out@ + escape_html_spec(text@.skip(i + 1)) == escape_html_spec(text@));
    }
    out
}

/// Relies on String::push: appends one character to the string.
#[verifier::external_body]
fn push_char(s: &mut String, c: char)
    ensures
        final(s)@ == old(s)@.push(c),
{
    s.push(c)
}

/// Relies on str's PartialEq: two string slices compare equal exactly when
/// their character sequences do.
#[verifier::external_body]
pub(crate) fn str_eq(a: &str, b: &str) -> (r: bool)
    ensures
        r == (a@ == b@),
{
    a == b
}

} // verus!
