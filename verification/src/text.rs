//! Text as it arrives in a form: bytes that are decoded leniently and trimmed.

use vstd::prelude::*;
use vstd::utf8::{decode_utf8, valid_utf8};

verus! {

/// The texts of `strings`, in their order.
pub open spec fn texts(strings: Seq<String>) -> Seq<Seq<char>> {
    strings.map_values(|s: String| s@)
}

/// Whether `c` has the Unicode property `White_Space`.
pub open spec fn is_space(c: char) -> bool {
    let n: u32 = c as u32;
    ||| 0x09 <= n <= 0x0D
    ||| n == 0x20
    ||| n == 0x85
    ||| n == 0xA0
    ||| n == 0x1680
    ||| 0x2000 <= n <= 0x200A
    ||| n == 0x2028
    ||| n == 0x2029
    ||| n == 0x202F
    ||| n == 0x205F
    ||| n == 0x3000
}

/// `s` without its leading white space.
pub open spec fn trim_start(s: Seq<char>) -> Seq<char>
    decreases s.len(),
{
    if s.len() > 0 && is_space(s.first()) {
        trim_start(s.drop_first())
    } else {
        s
    }
}

/// `s` without its trailing white space.
pub open spec fn trim_end(s: Seq<char>) -> Seq<char>
    decreases s.len(),
{
    if s.len() > 0 && is_space(s.last()) {
        trim_end(s.drop_last())
    } else {
        s
    }
}

/// `s` without the white space at either end.
pub open spec fn trimmed(s: Seq<char>) -> Seq<char> {
    trim_end(trim_start(s))
}

/// Whether `s` is empty or made of white space only.
pub open spec fn is_blank(s: Seq<char>) -> bool {
    forall|i: int| 0 <= i < s.len() ==> is_space(#[trigger] s[i])
}

/// What trimming at the front removes is white space, and what it leaves is
/// the rest of the text, which does not begin with white space.
pub proof fn lemma_trim_start(s: Seq<char>)
    ensures
        trim_start(s).len() <= s.len(),
        trim_start(s) == s.subrange(s.len() - trim_start(s).len(), s.len() as int),
        forall|i: int| 0 <= i < s.len() - trim_start(s).len() ==> is_space(#[trigger] s[i]),
        trim_start(s).len() > 0 ==> !is_space(trim_start(s).first()),
    decreases s.len(),
{
    if s.len() > 0 && is_space(s.first()) {
        let rest = s.drop_first();
        lemma_trim_start(rest);
        let kept = trim_start(rest);
        assert(kept =~= s.subrange(s.len() - kept.len(), s.len() as int));
        assert forall|i: int| 0 <= i < s.len() - kept.len() implies is_space(#[trigger] s[i]) by {
            if i > 0 {
                assert(s[i] == rest[i - 1]);
            }
        }
    } else {
        assert(s =~= s.subrange(0, s.len() as int));
    }
}

/// What trimming at the back removes is white space, and what it leaves is
/// the text before it, which does not end in white space.
pub proof fn lemma_trim_end(s: Seq<char>)
    ensures
        trim_end(s).len() <= s.len(),
        trim_end(s) == s.subrange(0, trim_end(s).len() as int),
        forall|i: int| trim_end(s).len() <= i < s.len() ==> is_space(#[trigger] s[i]),
        trim_end(s).len() > 0 ==> !is_space(trim_end(s).last()),
    decreases s.len(),
{
    if s.len() > 0 && is_space(s.last()) {
        let rest = s.drop_last();
        lemma_trim_end(rest);
        let kept = trim_end(rest);
        assert(kept =~= s.subrange(0, kept.len() as int));
        assert forall|i: int| kept.len() <= i < s.len() implies is_space(#[trigger] s[i]) by {
            if i < s.len() - 1 {
                assert(s[i] == rest[i]);
            }
        }
    } else {
        assert(s =~= s.subrange(0, s.len() as int));
    }
}

/// Trimming leaves nothing exactly of the texts that are empty or made of
/// white space only.
pub proof fn lemma_trimmed_empty_iff_blank(s: Seq<char>)
    ensures
        trimmed(s).len() == 0 <==> is_blank(s),
{
    lemma_trim_start(s);
    let front = trim_start(s);
    lemma_trim_end(front);
    let skipped = s.len() - front.len();
    if trimmed(s).len() == 0 {
        assert forall|i: int| 0 <= i < s.len() implies is_space(#[trigger] s[i]) by {
            if i >= skipped {
                assert(s[i] == front[i - skipped]);
            }
        }
    }
    if is_blank(s) {
        if front.len() > 0 {
            assert(front.first() == s[skipped]);
        }
    }
}

/// A text that neither begins nor ends with white space is left as it is.
pub proof fn lemma_trimmed_keeps_tight(s: Seq<char>)
    requires
        s.len() > 0 ==> !is_space(s.first()) && !is_space(s.last()),
    ensures
        trimmed(s) == s,
{
}

/// What lenient decoding makes of `bytes`: the text they encode, with each
/// ill-formed stretch replaced by U+FFFD.
pub uninterp spec fn lossy_text(bytes: Seq<u8>) -> Seq<char>;

/// What a text field of a form holds once its bytes `bytes` are decoded and
/// trimmed.
pub open spec fn field_text(bytes: Seq<u8>) -> Seq<char> {
    trimmed(lossy_text(bytes))
}

/// Calls `str::trim`. Trusted: the result is the argument without the
/// characters of the Unicode property `White_Space` at its two ends.
#[verifier::external_body]
fn trim<'a>(text: &'a str) -> (out: &'a str)
    ensures
        out@ == trimmed(text@),
{
    text.trim()
}

/// Calls `String::from_utf8_lossy` and takes the text as a `String`. Trusted:
/// the result depends on the bytes alone, and well-formed UTF-8 decodes to the
/// text it encodes.
#[verifier::external_body]
fn decode_lossy(bytes: &[u8]) -> (text: String)
    ensures
        text@ == lossy_text(bytes@),
        valid_utf8(bytes@) ==> text@ == decode_utf8(bytes@),
{
    String::from_utf8_lossy(bytes).into_owned()
}

/// Decodes the bytes of a text field and trims the result.
pub fn read_field(bytes: &[u8]) -> (text: String)
    ensures
        text@ == field_text(bytes@),
        valid_utf8(bytes@) ==> text@ == trimmed(decode_utf8(bytes@)),
{
    let decoded = decode_lossy(bytes);
    trim(decoded.as_str()).to_owned()
}

/// Says whether two texts are the same.
pub fn same_text(a: &str, b: &str) -> (same: bool)
    ensures
        same == (a@ == b@),
{
    let left = a.to_owned();
    let right = b.to_owned();
    left == right
}

} // verus!
