use vstd::prelude::*;

verus! {

/// The lowercase form of a text as `str::to_lowercase` computes it (Unicode's
/// lowercase mapping; a capital sigma depends on its neighbours, so the mapping
/// is not one of single characters).
pub uninterp spec fn lowercase(text: Seq<char>) -> Seq<char>;

/// Calls `str::to_lowercase`.
///
/// Claimed: the result is the function `lowercase` of the text; nothing more is
/// said of the Unicode mapping itself.
#[verifier::external_body]
pub(crate) fn to_lowercase(text: &str) -> (lower: String)
    ensures
        lower@ == lowercase(text@),
{
    text.to_lowercase()
}

/// Calls `String::push`.
///
/// Claimed: the character is appended at the end and nothing else changes.
#[verifier::external_body]
pub(crate) fn push_char(text: &mut String, c: char)
    ensures
        final(text)@ == old(text)@.push(c),
{
    text.push(c)
}

/// The lowercase hexadecimal digit of a value below sixteen.
pub open spec fn hex_digit(value: int) -> char {
    if value < 10 {
        (('0' as int) + value) as char
    } else {
        (('a' as int) + value - 10) as char
    }
}

/// Two lowercase hexadecimal digits per byte, most significant digit first.
pub open spec fn lower_hex(bytes: Seq<u8>) -> Seq<char>
    decreases bytes.len(),
{
    if bytes.len() == 0 {
        Seq::<char>::empty()
    } else {
        seq![hex_digit(bytes[0] as int / 16), hex_digit(bytes[0] as int % 16)] + lower_hex(bytes.drop_first())
    }
}

/// Lowercase hex is twice as long as its bytes.
pub proof fn lemma_lower_hex_len(bytes: Seq<u8>)
    ensures
        lower_hex(bytes).len() == 2 * bytes.len(),
    decreases bytes.len(),
{
    if bytes.len() > 0 {
        lemma_lower_hex_len(bytes.drop_first());
    }
}

/// The text made of the characters in `chars`, in order.
pub(crate) fn string_of_chars(chars: &Vec<char>) -> (text: String)
    ensures
        text@ == chars@,
{
    let mut text = String::new();
    let n = chars.len();
    for i in 0..n
        invariant
            n == chars@.len(),
            text@ == chars@.subrange(0, i as int),
    {
        push_char(&mut text, chars[i]);
        assert(chars@.subrange(0, i + 1) == chars@.subrange(0, i as int).push(chars@[i as int]));
    }
    assert(chars@.subrange(0, n as int) == chars@);
    text
}

/// Appends `suffix` to `text`.
pub(crate) fn append_str(text: &mut String, suffix: &str)
    ensures
        final(text)@ == old(text)@ + suffix@,
{
    text.append(suffix);
}

} // verus!
