//! Escaping of untrusted text for the page.

use vstd::prelude::*;

verus! {

/// What stands for `c` in escaped text: an entity for each of `&`, `<`, `>`,
/// `"`, `'` and `/`, and the character itself otherwise.
pub open spec fn entity(c: char) -> Seq<char> {
    if c == '&' {
        seq!['&', 'a', 'm', 'p', ';']
    } else if c == '<' {
        seq!['&', 'l', 't', ';']
    } else if c == '>' {
        seq!['&', 'g', 't', ';']
    } else if c == '"' {
        seq!['&', 'q', 'u', 'o', 't', ';']
    } else if c == '\'' {
        seq!['&', '#', 'x', '2', '7', ';']
    } else if c == '/' {
        seq!['&', '#', 'x', '2', 'F', ';']
    } else {
        seq![c]
    }
}

/// `s` with each character replaced by what stands for it.
pub open spec fn html_safe(s: Seq<char>) -> Seq<char>
    decreases s.len(),
{
    if s.len() == 0 {
        Seq::empty()
    } else {
        html_safe(s.drop_last()) + entity(s.last())
    }
}

/// Whether `c` can open or close a tag, end a quoted attribute value or close
/// an element.
pub open spec fn is_markup(c: char) -> bool {
    c == '<' || c == '>' || c == '"' || c == '\'' || c == '/'
}

/// Escaped text holds no character that could act as markup, whatever the
/// text was.
pub proof fn lemma_escaped_has_no_markup(s: Seq<char>)
    ensures
        forall|i: int| 0 <= i < html_safe(s).len() ==> !is_markup(#[trigger] html_safe(s)[i]),
    decreases s.len(),
{
    if s.len() > 0 {
        lemma_escaped_has_no_markup(s.drop_last());
        let head = html_safe(s.drop_last());
        let tail = entity(s.last());
        assert forall|i: int| 0 <= i < html_safe(s).len() implies !is_markup(
            #[trigger] html_safe(s)[i],
        ) by {
            if i >= head.len() {
                assert(html_safe(s)[i] == tail[i - head.len()]);
            }
        }
    }
}

/// Text without any of the six escaped characters is left as it is.
pub proof fn lemma_plain_text_unchanged(s: Seq<char>)
    requires
        forall|i: int| 0 <= i < s.len() ==> !is_markup(#[trigger] s[i]) && s[i] != '&',
    ensures
        html_safe(s) == s,
    decreases s.len(),
{
    if s.len() > 0 {
        lemma_plain_text_unchanged(s.drop_last());
        assert(entity(s.last()) == seq![s.last()]);
        assert(s.drop_last() + seq![s.last()] =~= s);
    }
}

/// Calls `html_escape::encode_safe`. Trusted: the six characters `&`, `<`,
/// `>`, `"`, `'` and `/` come out as `&amp;`, `&lt;`, `&gt;`, `&quot;`,
/// `&#x27;` and `&#x2F;`, and every other character as itself.
#[verifier::external_body]
pub(crate) fn encode_html(input: &str) -> (out: String)
    ensures
        out@ == html_safe(input@),
{
    html_escape::encode_safe(input).to_string()
}

} // verus!
