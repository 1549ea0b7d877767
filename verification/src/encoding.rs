//! Byte and identifier encodings: lower-case hexadecimal, the big-endian
//! bytes of a UUID and its hyphenated text.
use vstd::prelude::*;

verus! {

/// The lower-case hexadecimal digit for `n < 16`.
pub open spec fn hex_digit(n: u8) -> char {
    if n < 10 {
        (('0' as u32) + (n as u32)) as char
    } else {
        (('a' as u32) + (n as u32) - 10) as char
    }
}

/// Two lower-case hexadecimal digits per byte, high nibble first.
pub open spec fn hex_text(bytes: Seq<u8>) -> Seq<char>
    decreases bytes.len(),
{
    if bytes.len() == 0 {
        Seq::empty()
    } else {
        hex_text(bytes.drop_last()) + seq![hex_digit(bytes.last() / 16), hex_digit(bytes.last() % 16)]
    }
}

/// `hex::encode`: the bytes as lower-case hexadecimal, two digits per byte,
/// high nibble first (the crate's documented and implemented behaviour).
#[verifier::external_body]
pub(crate) fn hex_encode(data: &[u8]) -> (r: String)
    ensures
        r@ == hex_text(data@),
{
    hex::encode(data)
}

/// Whether `c` is a lower-case hexadecimal digit.
pub open spec fn is_lower_hex_digit(c: char) -> bool {
    ('0' <= c && c <= '9') || ('a' <= c && c <= 'f')
}

/// The hexadecimal text of `n` bytes has `2 n` characters, each a lower-case
/// hexadecimal digit.
pub proof fn lemma_hex_text_shape(bytes: Seq<u8>)
    ensures
        hex_text(bytes).len() == 2 * bytes.len(),
        forall|i: int| 0 <= i < hex_text(bytes).len() ==> is_lower_hex_digit(#[trigger] hex_text(bytes)[i]),
    decreases bytes.len(),
{
    if bytes.len() > 0 {
        lemma_hex_text_shape(bytes.drop_last());
        let b = bytes.last();
        let hi = hex_digit(b / 16);
        let lo = hex_digit(b % 16);
        assert(is_lower_hex_digit(hi));
        assert(is_lower_hex_digit(lo));
        let prev = hex_text(bytes.drop_last());
        assert forall|i: int| 0 <= i < hex_text(bytes).len() implies is_lower_hex_digit(#[trigger] hex_text(bytes)[i]) by {
            if i < prev.len() {
                assert(hex_text(bytes)[i] == prev[i]);
            }
        }
    }
}

/// The sixteen bytes of a UUID given as a 128-bit value, most significant
/// first (as `uuid::Uuid::from_u128` lays them out).
pub open spec fn uuid_bytes(x: u128) -> Seq<u8> {
    Seq::new(16, |i: int| ((x >> ((8 * (15 - i)) as u128)) & 0xff) as u8)
}

/// The bytes of a UUID, most significant first.
pub fn uuid_to_bytes(x: u128) -> (r: Vec<u8>)
    ensures
        r@ == uuid_bytes(x),
{
    let mut r: Vec<u8> = Vec::new();
    let mut i: usize = 0;
    while i < 16
        invariant
            i <= 16,
            r@.len() == i,
            forall|j: int| 0 <= j < i ==> r@[j] == uuid_bytes(x)[j],
        decreases 16 - i,
    {
        let shift: u128 = (8 * (15 - i)) as u128;
        let b: u8 = ((x >> shift) & 0xff) as u8;
        r.push(b);
        i = i + 1;
    }
    assert(r@ =~= uuid_bytes(x));
    r
}

/// The hyphenated lower-case text of a UUID: groups of 8, 4, 4, 4 and 12
/// hexadecimal digits.
pub open spec fn uuid_hyphenated(x: u128) -> Seq<char> {
    let b = uuid_bytes(x);
    hex_text(b.subrange(0, 4)) + "-"@ + hex_text(b.subrange(4, 6)) + "-"@ + hex_text(b.subrange(6, 8))
        + "-"@ + hex_text(b.subrange(8, 10)) + "-"@ + hex_text(b.subrange(10, 16))
}

/// The `Display` form of `uuid::Uuid::from_u128(x)`: hyphenated, lower case.
#[verifier::external_body]
pub(crate) fn uuid_to_text(x: u128) -> (r: String)
    ensures
        r@ == uuid_hyphenated(x),
{
    uuid::Uuid::from_u128(x).to_string()
}

/// What `uuid::Uuid::parse_str` makes of a text, as a 128-bit value.
pub uninterp spec fn uuid_from_text(s: Seq<char>) -> Option<u128>;

/// `uuid::Uuid::parse_str`, as a 128-bit value: `None` where the text is not
/// a UUID. The accepted forms (simple, hyphenated, braced, URN) are the
/// crate's and the result is named; that the hyphenated form of a value
/// parses back to that value is documented and stated.
#[verifier::external_body]
pub(crate) fn uuid_parse(s: &str) -> (r: Option<u128>)
    ensures
        r == uuid_from_text(s@),
        forall|x: u128| s@ == uuid_hyphenated(x) ==> r == Some(x),
{
    match uuid::Uuid::parse_str(s) {
        Ok(u) => Some(u.as_u128()),
        Err(_) => None,
    }
}

} // verus!
