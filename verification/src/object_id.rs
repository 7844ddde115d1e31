//! Twelve-byte object identifiers and their hexadecimal text form.
//!
//! The text form is the one the document store uses: twenty-four hexadecimal
//! digits, two per byte, high nibble first. Parsing accepts either case;
//! printing writes lower case.

use vstd::prelude::*;

verus! {

/// A twelve-byte document identifier.
#[derive(Clone, Copy, Debug)]
pub struct ObjectId {
    pub bytes: [u8; 12],
}

impl View for ObjectId {
    type V = Seq<u8>;

    open spec fn view(&self) -> Seq<u8> {
        self.bytes@
    }
}

/// Whether `c` is a hexadecimal digit, in either case.
pub open spec fn is_hex_digit(c: char) -> bool {
    ||| ('0' as int <= c as int && c as int <= '9' as int)
    ||| ('a' as int <= c as int && c as int <= 'f' as int)
    ||| ('A' as int <= c as int && c as int <= 'F' as int)
}

/// The value of a hexadecimal digit.
pub open spec fn hex_value(c: char) -> int {
    if '0' as int <= c as int && c as int <= '9' as int {
        c as int - '0' as int
    } else if 'a' as int <= c as int && c as int <= 'f' as int {
        c as int - 'a' as int + 10
    } else {
        c as int - 'A' as int + 10
    }
}

/// The lower-case hexadecimal digit of a value below sixteen.
pub open spec fn lower_hex_digit(n: int) -> char {
    seq!['0', '1', '2', '3', '4', '5', '6', '7', '8', '9', 'a', 'b', 'c', 'd', 'e', 'f'][n]
}

/// Whether `s` is the text of an object id: exactly twenty-four hexadecimal digits.
pub open spec fn is_object_id_text(s: Seq<char>) -> bool {
    &&& s.len() == 24
    &&& forall|i: int| 0 <= i < 24 ==> #[trigger] is_hex_digit(s[i])
}

/// The byte that digits `2 * i` and `2 * i + 1` of `s` spell.
pub open spec fn hex_byte(s: Seq<char>, i: int) -> int {
    hex_value(s[2 * i]) * 16 + hex_value(s[2 * i + 1])
}

/// The bytes that the text `s` of an object id spells.
pub open spec fn object_id_bytes(s: Seq<char>) -> Seq<u8> {
    Seq::new(12, |i: int| hex_byte(s, i) as u8)
}

/// The lower-case text of the bytes `b`: the high nibble of each byte, then its low nibble.
pub open spec fn object_id_text(b: Seq<u8>) -> Seq<char> {
    Seq::new(
        2 * b.len(),
        |i: int|
            if i % 2 == 0 {
                lower_hex_digit(b[i / 2] as int / 16)
            } else {
                lower_hex_digit(b[i / 2] as int % 16)
            },
    )
}

/// What parsing the text `s` gives: the id it spells, or nothing where it spells none.
pub open spec fn parsed_object_id(s: Seq<char>) -> Option<Seq<u8>> {
    if is_object_id_text(s) {
        Some(object_id_bytes(s))
    } else {
        None
    }
}

/// `bson::oid::ObjectId`'s `FromStr`, which decodes the text with `hex::decode`
/// and keeps the result where it is twelve bytes long.
///
/// Claimed: the text parses exactly when it is twenty-four hexadecimal digits
/// (either case; a character outside ASCII is never a digit, so the byte length
/// is then the character count), and byte `i` is digit `2i` times sixteen plus
/// digit `2i + 1`.
#[verifier::external_body]
pub(crate) fn parse_object_id(s: &str) -> (r: Option<ObjectId>)
    ensures
        r is Some <==> is_object_id_text(s@),
        r matches Some(id) ==> id@ == object_id_bytes(s@),
{
    s.parse::<bson::oid::ObjectId>().ok().map(|o| ObjectId { bytes: o.bytes() })
}

/// `bson::oid::ObjectId::to_hex`, which is `hex::encode` of the twelve bytes.
///
/// Claimed: the result is the lower-case digits of each byte, high nibble first.
#[verifier::external_body]
pub(crate) fn object_id_to_hex(id: &ObjectId) -> (s: String)
    ensures
        s@ == object_id_text(id@),
{
    bson::oid::ObjectId::from_bytes(id.bytes).to_hex()
}

/// `bson::oid::ObjectId::new`, which builds an id from the clock, a per-process
/// random value and a counter. Nothing is claimed of the bytes.
#[verifier::external_body]
pub(crate) fn fresh_object_id() -> (id: ObjectId) {
    ObjectId { bytes: bson::oid::ObjectId::new().bytes() }
}

proof fn lemma_hex_digit_roundtrip(n: int)
    requires
        0 <= n < 16,
    ensures
        is_hex_digit(lower_hex_digit(n)),
        hex_value(lower_hex_digit(n)) == n,
        lower_hex_digit(n) as int == (if n < 10 {
            '0' as int + n
        } else {
            'a' as int + n - 10
        }),
{
    let digits = seq!['0', '1', '2', '3', '4', '5', '6', '7', '8', '9', 'a', 'b', 'c', 'd', 'e', 'f'];
    assert(digits[n] == lower_hex_digit(n));
    if n < 10 {
        assert(digits[n] as int == '0' as int + n) by {
            assert(digits[0] == '0' && digits[1] == '1' && digits[2] == '2' && digits[3] == '3');
            assert(digits[4] == '4' && digits[5] == '5' && digits[6] == '6' && digits[7] == '7');
            assert(digits[8] == '8' && digits[9] == '9');
        }
    } else {
        assert(digits[n] as int == 'a' as int + n - 10) by {
            assert(digits[10] == 'a' && digits[11] == 'b' && digits[12] == 'c');
            assert(digits[13] == 'd' && digits[14] == 'e' && digits[15] == 'f');
        }
    }
}

/// Printing an id and parsing the text gives the same id back: the text of any
/// twelve bytes is the text of an object id, and it spells those bytes.
pub proof fn lemma_text_parses_back(b: Seq<u8>)
    requires
        b.len() == 12,
    ensures
        parsed_object_id(object_id_text(b)) == Some(b),
{
    let s = object_id_text(b);
    assert forall|i: int| 0 <= i < 24 implies #[trigger] is_hex_digit(s[i]) by {
        if i % 2 == 0 {
            lemma_hex_digit_roundtrip(b[i / 2] as int / 16);
        } else {
            lemma_hex_digit_roundtrip(b[i / 2] as int % 16);
        }
    }
    assert forall|i: int| 0 <= i < 12 implies #[trigger] object_id_bytes(s)[i] == b[i] by {
        lemma_hex_digit_roundtrip(b[i] as int / 16);
        lemma_hex_digit_roundtrip(b[i] as int % 16);
        assert(s[2 * i] == lower_hex_digit(b[i] as int / 16));
        assert(s[2 * i + 1] == lower_hex_digit(b[i] as int % 16));
    }
    assert(object_id_bytes(s) =~= b);
}

/// The lower-case form of a hexadecimal digit, as a code point: `A` to `F`
/// become `a` to `f`; every other digit stays.
pub open spec fn lower_code(c: char) -> int {
    if 'A' as int <= c as int && c as int <= 'F' as int {
        c as int + 32
    } else {
        c as int
    }
}

/// Parsing the text of an id and printing the id gives the text back in lower case.
pub proof fn lemma_parsed_prints_lower(s: Seq<char>)
    requires
        is_object_id_text(s),
    ensures
        object_id_text(object_id_bytes(s)).len() == 24,
        forall|i: int| 0 <= i < 24 ==> #[trigger] object_id_text(object_id_bytes(s))[i] as int == lower_code(s[i]),
{
    let b = object_id_bytes(s);
    let t = object_id_text(b);
    assert forall|i: int| 0 <= i < 24 implies #[trigger] t[i] as int == lower_code(s[i]) by {
        let k = i / 2;
        assert(is_hex_digit(s[2 * k]));
        assert(is_hex_digit(s[2 * k + 1]));
        let hi = hex_value(s[2 * k]);
        let lo = hex_value(s[2 * k + 1]);
        assert(0 <= hi < 16 && 0 <= lo < 16);
        assert(b[k] as int == hi * 16 + lo);
        assert(b[k] as int / 16 == hi);
        assert(b[k] as int % 16 == lo);
        if i % 2 == 0 {
            assert(i == 2 * k);
            lemma_hex_digit_roundtrip(hi);
        } else {
            assert(i == 2 * k + 1);
            lemma_hex_digit_roundtrip(lo);
        }
    }
}

} // verus!
