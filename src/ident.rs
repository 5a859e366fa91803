use vstd::prelude::*;

verus! {

/// The lowercase hexadecimal digit of a value below 16.
pub open spec fn hex_digit(n: int) -> char {
    if n == 0 { '0' }
    else if n == 1 { '1' }
    else if n == 2 { '2' }
    else if n == 3 { '3' }
    else if n == 4 { '4' }
    else if n == 5 { '5' }
    else if n == 6 { '6' }
    else if n == 7 { '7' }
    else if n == 8 { '8' }
    else if n == 9 { '9' }
    else if n == 10 { 'a' }
    else if n == 11 { 'b' }
    else if n == 12 { 'c' }
    else if n == 13 { 'd' }
    else if n == 14 { 'e' }
    else { 'f' }
}

pub open spec fn is_lower_hex(c: char) -> bool {
    ('0' <= c && c <= '9') || ('a' <= c && c <= 'f')
}

/// Two hexadecimal digits per byte, high half first.
pub open spec fn simple_hex(b: Seq<u8>) -> Seq<char> {
    Seq::new(
        2 * b.len(),
        |j: int|
            if j % 2 == 0 {
                hex_digit(b[j / 2] as int / 16)
            } else {
                hex_digit(b[j / 2] as int % 16)
            },
    )
}

/// Whether position `i` of the hyphenated text holds a hyphen.
pub open spec fn is_dash_pos(i: int) -> bool {
    i == 8 || i == 13 || i == 18 || i == 23
}

/// How many hyphens stand before position `i` of the hyphenated text.
pub open spec fn dashes_before(i: int) -> int {
    if i < 9 { 0 } else if i < 14 { 1 } else if i < 19 { 2 } else if i < 24 { 3 } else { 4 }
}

/// The hyphenated text of sixteen bytes, in groups of 8-4-4-4-12 digits:
/// `67e55044-10b1-426f-9247-bb680e5fe0c8`.
pub open spec fn hyphenated(b: Seq<u8>) -> Seq<char> {
    Seq::new(
        36,
        |i: int|
            if is_dash_pos(i) {
                '-'
            } else {
                simple_hex(b)[i - dashes_before(i)]
            },
    )
}

/// Sixteen bytes of a random (version 4, RFC 4122 variant) identifier.
pub open spec fn is_v4_bytes(b: Seq<u8>) -> bool {
    &&& b.len() == 16
    &&& b[6] as int / 16 == 4
    &&& b[8] as int / 64 == 2
}

/// The canonical text of a random identifier: 36 characters, hyphens at
/// positions 8, 13, 18 and 23, lowercase hex digits elsewhere, the version
/// digit `4` at position 14 and one of `8 9 a b` at position 19.
pub open spec fn is_v4_uuid_text(s: Seq<char>) -> bool {
    &&& s.len() == 36
    &&& forall|i: int| 0 <= i < 36 && is_dash_pos(i) ==> s[i] == '-'
    &&& forall|i: int| 0 <= i < 36 && !is_dash_pos(i) ==> is_lower_hex(#[trigger] s[i])
    &&& s[14] == '4'
    &&& (s[19] == '8' || s[19] == '9' || s[19] == 'a' || s[19] == 'b')
}

/// Relies on uuid::Uuid::new_v4: random bytes in which the version nibble
/// (high half of byte 6) is 4 and the two variant bits (top of byte 8) are 10.
#[verifier::external_body]
fn random_v4_bytes() -> (r: [u8; 16])
    ensures
        is_v4_bytes(r@),
{
    uuid::Uuid::new_v4().into_bytes()
}

/// Relies on uuid::Uuid's Display impl: the lowercase hyphenated form of the bytes.
#[verifier::external_body]
fn uuid_text(b: [u8; 16]) -> (r: String)
    ensures
        r@ == hyphenated(b@),
{
    uuid::Uuid::from_bytes(b).to_string()
}

proof fn lemma_hex_digit_is_lower_hex(n: int)
    requires
        0 <= n < 16,
    ensures
        is_lower_hex(hex_digit(n)),
{
}

/// The hyphenated text of any sixteen bytes consists of hex digits and hyphens
/// in the canonical places; with version and variant set, it has the
/// canonical random-identifier shape.
pub proof fn lemma_v4_text_shape(b: Seq<u8>)
    requires
        is_v4_bytes(b),
    ensures
        is_v4_uuid_text(hyphenated(b)),
{
    let s = hyphenated(b);
    assert forall|i: int| 0 <= i < 36 && !is_dash_pos(i) implies is_lower_hex(#[trigger] s[i]) by {
        let j = i - dashes_before(i);
        assert(0 <= j < 32);
        assert(0 <= j / 2 < 16);
        let x = b[j / 2] as int;
        assert(0 <= x / 16 < 16) by (nonlinear_arith)
            requires
                0 <= x < 256,
        ;
        assert(0 <= x % 16 < 16);
        lemma_hex_digit_is_lower_hex(x / 16);
        lemma_hex_digit_is_lower_hex(x % 16);
    }
    assert(s[14] == hex_digit(b[6] as int / 16));
    let v = b[8] as int;
    assert(8 <= v / 16 < 12) by (nonlinear_arith)
        requires
            v / 64 == 2,
            0 <= v < 256,
    ;
    assert(s[19] == hex_digit(v / 16));
}

/// Identifiers made of different bytes have different texts: the hyphenated
/// form loses nothing.
pub proof fn lemma_hyphenated_injective(b1: Seq<u8>, b2: Seq<u8>)
    requires
        b1.len() == 16,
        b2.len() == 16,
        b1 != b2,
    ensures
        hyphenated(b1) != hyphenated(b2),
{
    if !(exists|k: int| 0 <= k < 16 && b1[k] != b2[k]) {
        assert(b1 =~= b2);
    }
    let k = choose|k: int| 0 <= k < 16 && b1[k] != b2[k];
    let x = b1[k] as int;
    let y = b2[k] as int;
    assert(x / 16 != y / 16 || x % 16 != y % 16) by (nonlinear_arith)
        requires
            x != y,
            0 <= x < 256,
            0 <= y < 256,
    ;
    let j = if x / 16 != y / 16 { 2 * k } else { 2 * k + 1 };
    let i = j + dashes_before_simple(j);
    assert(!is_dash_pos(i) && i - dashes_before(i) == j && 0 <= i < 36);
    assert(j / 2 == k);
    assert(simple_hex(b1)[j] != simple_hex(b2)[j]);
    assert(hyphenated(b1)[i] != hyphenated(b2)[i]);
}

/// How many hyphens stand before the hyphenated position of digit `j`.
pub open spec fn dashes_before_simple(j: int) -> int {
    if j < 8 { 0 } else if j < 12 { 1 } else if j < 16 { 2 } else if j < 20 { 3 } else { 4 }
}

/// A fresh random identifier in its canonical textual form.
pub fn generate_uuid() -> (r: String)
    ensures
        is_v4_uuid_text(r@),
        exists|b: Seq<u8>| is_v4_bytes(b) && r@ == hyphenated(b),
{
    let b = random_v4_bytes();
    let r = uuid_text(b);
    proof {
        lemma_v4_text_shape(b@);
    }
    r
}

} // verus!
