//! URL-safe base64 without padding (RFC 4648, section 5).
use base64::Engine;
use vstd::prelude::*;

verus! {

/// The character that stands for a six-bit number.
pub open spec fn sextet_char(sextet: int) -> char {
    if sextet < 26 {
        ('A' as int + sextet) as char
    } else if sextet < 52 {
        ('a' as int + (sextet - 26)) as char
    } else if sextet < 62 {
        ('0' as int + (sextet - 52)) as char
    } else if sextet == 62 {
        '-'
    } else {
        '_'
    }
}

/// The text of some bytes: four characters for each three of them, and two or
/// three for what is left. The bits that the last character has too many are
/// zero.
pub open spec fn base64url(data: Seq<u8>) -> Seq<char>
    decreases data.len(),
{
    if data.len() == 0 {
        seq![]
    } else if data.len() == 1 {
        seq![sextet_char(data[0] as int / 4), sextet_char(data[0] as int % 4 * 16)]
    } else if data.len() == 2 {
        seq![
            sextet_char(data[0] as int / 4),
            sextet_char(data[0] as int % 4 * 16 + data[1] as int / 16),
            sextet_char(data[1] as int % 16 * 4),
        ]
    } else {
        seq![
            sextet_char(data[0] as int / 4),
            sextet_char(data[0] as int % 4 * 16 + data[1] as int / 16),
            sextet_char(data[1] as int % 16 * 4 + data[2] as int / 64),
            sextet_char(data[2] as int % 64),
        ] + base64url(data.skip(3))
    }
}

/// How many characters stand for some bytes.
pub open spec fn base64url_len(len: nat) -> nat {
    (len * 4 + 2) / 3
}

/// The text has four characters for each three bytes, rounded up.
pub proof fn lemma_base64url_len(data: Seq<u8>)
    ensures
        base64url(data).len() == base64url_len(data.len()),
    decreases data.len(),
{
    if data.len() >= 3 {
        lemma_base64url_len(data.skip(3));
    }
}

/// Different six-bit numbers have different characters.
proof fn lemma_sextet_char_injective(left: int, right: int)
    requires
        0 <= left < 64,
        0 <= right < 64,
        sextet_char(left) == sextet_char(right),
    ensures
        left == right,
{
}

/// Different bytes have different texts: nothing is lost by encoding.
pub proof fn lemma_base64url_injective(left: Seq<u8>, right: Seq<u8>)
    requires
        base64url(left) == base64url(right),
    ensures
        left == right,
    decreases left.len(),
{
    lemma_base64url_len(left);
    lemma_base64url_len(right);
    let text = base64url(left);
    assert(left.len() == right.len());
    if left.len() == 1 {
        assert(text[0] == base64url(right)[0]);
        assert(text[1] == base64url(right)[1]);
        lemma_sextet_char_injective(left[0] as int / 4, right[0] as int / 4);
        lemma_sextet_char_injective(left[0] as int % 4 * 16, right[0] as int % 4 * 16);
    } else if left.len() == 2 {
        assert(text[0] == base64url(right)[0]);
        assert(text[1] == base64url(right)[1]);
        assert(text[2] == base64url(right)[2]);
        lemma_sextet_char_injective(left[0] as int / 4, right[0] as int / 4);
        lemma_sextet_char_injective(
            left[0] as int % 4 * 16 + left[1] as int / 16,
            right[0] as int % 4 * 16 + right[1] as int / 16,
        );
        lemma_sextet_char_injective(left[1] as int % 16 * 4, right[1] as int % 16 * 4);
    } else if left.len() >= 3 {
        assert(text[0] == base64url(right)[0]);
        assert(text[1] == base64url(right)[1]);
        assert(text[2] == base64url(right)[2]);
        assert(text[3] == base64url(right)[3]);
        lemma_sextet_char_injective(left[0] as int / 4, right[0] as int / 4);
        lemma_sextet_char_injective(
            left[0] as int % 4 * 16 + left[1] as int / 16,
            right[0] as int % 4 * 16 + right[1] as int / 16,
        );
        lemma_sextet_char_injective(
            left[1] as int % 16 * 4 + left[2] as int / 64,
            right[1] as int % 16 * 4 + right[2] as int / 64,
        );
        lemma_sextet_char_injective(left[2] as int % 64, right[2] as int % 64);
        assert(text.skip(4) =~= base64url(left.skip(3)));
        assert(base64url(right).skip(4) =~= base64url(right.skip(3)));
        lemma_base64url_injective(left.skip(3), right.skip(3));
        assert forall|i: int| 3 <= i < left.len() implies left[i] == right[i] by {
            assert(left[i] == left.skip(3)[i - 3]);
            assert(right[i] == right.skip(3)[i - 3]);
        }
    }
    assert(left =~= right);
}

/// The six-bit number that a character stands for.
pub open spec fn sextet_value(c: char) -> int {
    if 'A' <= c && c <= 'Z' {
        c as int - 'A' as int
    } else if 'a' <= c && c <= 'z' {
        c as int - 'a' as int + 26
    } else if '0' <= c && c <= '9' {
        c as int - '0' as int + 52
    } else if c == '-' {
        62
    } else {
        63
    }
}

/// A character stands for the number that it was written for, and is one of the
/// 64 of the URL-safe alphabet.
pub proof fn law_sextet_reads_back(sextet: int)
    requires
        0 <= sextet < 64,
    ensures
        sextet_value(sextet_char(sextet)) == sextet,
        ({
            let c = sextet_char(sextet);
            ('A' <= c && c <= 'Z') || ('a' <= c && c <= 'z') || ('0' <= c && c <= '9') || c == '-'
                || c == '_'
        }),
{
}

/// Each byte stands in the text at its place: the bits of every third byte begin
/// with a character of their own, those of the next two with what the character
/// before has left.
pub proof fn law_text_holds_each_byte(data: Seq<u8>, i: int)
    requires
        0 <= i < data.len(),
    ensures
        ({
            let text = base64url(data);
            let at = i / 3 * 4 + i % 3;
            let high = sextet_value(text[at]);
            let low = sextet_value(text[at + 1]);
            &&& 0 <= at
            &&& at + 1 < text.len()
            &&& i % 3 == 0 ==> data[i] == high * 4 + low / 16
            &&& i % 3 == 1 ==> data[i] == high % 16 * 16 + low / 4
            &&& i % 3 == 2 ==> data[i] == high % 4 * 64 + low
        }),
    decreases data.len(),
{
    lemma_base64url_len(data);
    let text = base64url(data);
    if data.len() >= 3 {
        let a = data[0] as int / 4;
        let b = data[0] as int % 4 * 16 + data[1] as int / 16;
        let c = data[1] as int % 16 * 4 + data[2] as int / 64;
        let d = data[2] as int % 64;
        law_sextet_reads_back(a);
        law_sextet_reads_back(b);
        law_sextet_reads_back(c);
        law_sextet_reads_back(d);
        assert(text[0] == sextet_char(a));
        assert(text[1] == sextet_char(b));
        assert(text[2] == sextet_char(c));
        assert(text[3] == sextet_char(d));
        if i >= 3 {
            let rest = data.skip(3);
            law_text_holds_each_byte(rest, i - 3);
            assert(rest[i - 3] == data[i]);
            let at = (i - 3) / 3 * 4 + (i - 3) % 3;
            assert(i / 3 * 4 + i % 3 == at + 4);
            assert(text[at + 4] == base64url(rest)[at]);
            assert(text[at + 5] == base64url(rest)[at + 1]);
        }
    } else if data.len() == 2 {
        let a = data[0] as int / 4;
        let b = data[0] as int % 4 * 16 + data[1] as int / 16;
        let c = data[1] as int % 16 * 4;
        law_sextet_reads_back(a);
        law_sextet_reads_back(b);
        law_sextet_reads_back(c);
    } else {
        law_sextet_reads_back(data[0] as int / 4);
        law_sextet_reads_back(data[0] as int % 4 * 16);
    }
}

/// `encode` of the `URL_SAFE_NO_PAD` engine of `base64`: the text of the bytes,
/// in the URL-safe alphabet and without padding. The text must fit in memory.
#[verifier::external_body]
pub(crate) fn encode(data: &[u8]) -> (res: String)
    requires
        base64url_len(data@.len()) <= isize::MAX,
    ensures
        res@ == base64url(data@),
{
    base64::engine::general_purpose::URL_SAFE_NO_PAD.encode(data)
}

/// `decode` of the `URL_SAFE_NO_PAD` engine of `base64`: the bytes whose text
/// this is. It refuses every text that is not one that `encode` writes: a
/// character outside the alphabet, padding, a lone last character, or a last
/// character with surplus bits that are not zero.
#[verifier::external_body]
pub(crate) fn decode(text: &str) -> (res: Option<Vec<u8>>)
    ensures
        match res {
            Some(data) => base64url(data@) == text@,
            None => forall|data: Seq<u8>| #[trigger] base64url(data) != text@,
        },
{
    base64::engine::general_purpose::URL_SAFE_NO_PAD.decode(text).ok()
}

} // verus!
