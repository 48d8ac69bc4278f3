//! Random 128-bit identifiers and their text form.

use uuid::Uuid;
use vstd::prelude::*;

verus! {

/// Whether the version field of a 128-bit identifier says that it is random, and its variant
/// field that it has the usual layout.
pub open spec fn is_random_id(id: u128) -> bool {
    &&& (id >> 76) & 0xf == 4
    &&& (id >> 62) & 0x3 == 2
}

/// The lower-case character that stands for a hexadecimal digit.
pub open spec fn hex_char(digit: u128) -> char {
    if digit < 10 {
        (48 + digit) as char
    } else {
        (87 + digit) as char
    }
}

/// The places of the hyphens in the text form of an identifier.
pub open spec fn is_hyphen_place(place: int) -> bool {
    place == 8 || place == 13 || place == 18 || place == 23
}

/// How many hyphens stand before a place in the text form of an identifier.
pub open spec fn hyphens_before(place: int) -> int {
    if place <= 8 {
        0
    } else if place <= 13 {
        1
    } else if place <= 18 {
        2
    } else if place <= 23 {
        3
    } else {
        4
    }
}

/// The text form of an identifier: its 32 hexadecimal digits from the highest down, in groups of
/// 8, 4, 4, 4 and 12 with hyphens between them.
pub open spec fn id_text(id: u128) -> Seq<char> {
    Seq::new(
        36,
        |place: int|
            if is_hyphen_place(place) {
                '-'
            } else {
                hex_char((id >> (124 - 4 * (place - hyphens_before(place))) as u128) & 0xf)
            },
    )
}

/// Calls `Uuid::new_v4` and hands the identifier over as its 128 bits. The identifier rests on
/// chance; what holds of each is that its version and variant fields are set.
#[verifier::external_body]
pub(crate) fn random_id() -> (id: u128)
    ensures
        is_random_id(id),
{
    Uuid::new_v4().as_u128()
}

/// Calls `Uuid`'s `Display`, which writes the hyphenated form in lower case.
#[verifier::external_body]
pub(crate) fn display_id(id: u128) -> (text: String)
    ensures
        text@ == id_text(id),
{
    Uuid::from_u128(id).to_string()
}

/// The number that a hexadecimal text stands for; hyphens count for nothing.
pub open spec fn hex_value(text: Seq<char>) -> nat
    decreases text.len(),
{
    if text.len() == 0 {
        0
    } else {
        let before = hex_value(text.drop_last());
        if text.last() == '-' {
            before
        } else if text.last() <= '9' {
            16 * before + (text.last() as nat - 48) as nat
        } else {
            16 * before + (text.last() as nat - 87) as nat
        }
    }
}

/// The text form of an identifier has 36 characters, hyphens in their four places and lower-case
/// hexadecimal digits in all others, and these denote the identifier.
pub proof fn id_text_denotes_id(id: u128)
    ensures
        id_text(id).len() == 36,
        forall|place: int|
            0 <= place < 36 ==> {
                let c = #[trigger] id_text(id)[place];
                if place == 8 || place == 13 || place == 18 || place == 23 {
                    c == '-'
                } else {
                    '0' <= c <= '9' || 'a' <= c <= 'f'
                }
            },
        hex_value(id_text(id)) == id,
{
    assert forall|place: int| 0 <= place < 36 implies {
        let c = #[trigger] id_text(id)[place];
        if place == 8 || place == 13 || place == 18 || place == 23 {
            c == '-'
        } else {
            '0' <= c <= '9' || 'a' <= c <= 'f'
        }
    } by {
        if !is_hyphen_place(place) {
            lemma_digit(id, (124 - 4 * (place - hyphens_before(place))) as u128);
        }
    }
    lemma_hex_value(id, 36);
    assert(id_text(id).take(36) =~= id_text(id));
    assert(id >> 0 == id) by (bit_vector);
}

/// Different identifiers differ in their text form.
pub proof fn id_texts_are_distinct(a: u128, b: u128)
    requires
        id_text(a) == id_text(b),
    ensures
        a == b,
{
    id_text_denotes_id(a);
    id_text_denotes_id(b);
}

/// A random identifier can be told by its text form.
pub proof fn random_ids_show(id: u128)
    ensures
        is_random_id(id) <==> {
            let text = id_text(id);
            &&& text[14] == '4'
            &&& text[19] == '8' || text[19] == '9' || text[19] == 'a' || text[19] == 'b'
        },
{
    assert(((id >> 62) & 0x3 == 2) <==> 8 <= ((id >> 60) & 0xf) <= 11) by (bit_vector);
    lemma_digit(id, 76);
    lemma_digit(id, 60);
}

/// A digit of an identifier is a hexadecimal one.
proof fn lemma_digit(id: u128, shift: u128)
    ensures
        (id >> shift) & 0xf < 16,
{
    assert((id >> shift) & 0xf < 16) by (bit_vector);
}

/// The first places of the text form denote the upper bits of the identifier.
proof fn lemma_hex_value(id: u128, places: int)
    requires
        0 <= places <= 36,
    ensures
        hex_value(id_text(id).take(places)) == id >> ((128 - 4 * (places - hyphens_before(
            places,
        ))) as u128),
    decreases places,
{
    let text = id_text(id).take(places);
    if places == 0 {
        assert(id >> 128 == 0) by (bit_vector);
    } else {
        lemma_hex_value(id, places - 1);
        assert(text.drop_last() =~= id_text(id).take(places - 1));
        assert(text.last() == id_text(id)[places - 1]);
        if !is_hyphen_place(places - 1) {
            let shift = (124 - 4 * (places - 1 - hyphens_before(places - 1))) as u128;
            lemma_digit(id, shift);
            assert(id >> shift == 16 * (id >> ((shift + 4) as u128)) + ((id >> shift) & 0xf))
                by (bit_vector)
                requires
                    shift <= 124,
            ;
        }
    }
}

} // verus!
