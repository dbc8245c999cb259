//! The store's identifier type, modeled as the library's own value: twelve
//! bytes with a canonical 24-character hexadecimal string encoding. Parsing
//! and encoding are verified against the spec functions below; only the
//! generation of a fresh identifier is delegated to the store driver.

use vstd::prelude::*;
use vstd::string::StrSliceExecFns;
use vstd::string::StringExecFns;

verus! {

/// An item identifier: an opaque twelve-byte value assigned at creation,
/// addressed on the wire by its hexadecimal encoding.
pub struct ItemId {
    bytes: Vec<u8>,
}

impl View for ItemId {
    type V = Seq<u8>;

    closed spec fn view(&self) -> Seq<u8> {
        self.bytes@
    }
}

/// True of a character that may stand in the hexadecimal encoding of an
/// identifier; both letter cases are accepted.
pub open spec fn is_hex_char(c: char) -> bool {
    ('0' <= c && c <= '9') || ('a' <= c && c <= 'f') || ('A' <= c && c <= 'F')
}

/// The value of one hexadecimal digit character.
pub open spec fn hex_char_value(c: char) -> u8 {
    if '0' <= c && c <= '9' {
        (c as int - 48) as u8
    } else if 'a' <= c && c <= 'f' {
        (c as int - 87) as u8
    } else {
        (c as int - 55) as u8
    }
}

/// The lower-case hexadecimal digit character for a value below sixteen.
pub open spec fn hex_char_of(v: u8) -> char {
    if v == 0 { '0' } else if v == 1 { '1' } else if v == 2 { '2' }
    else if v == 3 { '3' } else if v == 4 { '4' } else if v == 5 { '5' }
    else if v == 6 { '6' } else if v == 7 { '7' } else if v == 8 { '8' }
    else if v == 9 { '9' } else if v == 10 { 'a' } else if v == 11 { 'b' }
    else if v == 12 { 'c' } else if v == 13 { 'd' } else if v == 14 { 'e' }
    else { 'f' }
}

/// A string is a valid identifier encoding when it is exactly twenty-four
/// hexadecimal digit characters.
pub open spec fn valid_id_encoding(s: Seq<char>) -> bool {
    s.len() == 24 && forall|i: int| 0 <= i < s.len() ==> is_hex_char(#[trigger] s[i])
}

/// The twelve bytes denoted by a valid identifier encoding.
pub open spec fn decoded_id(s: Seq<char>) -> Seq<u8> {
    Seq::new(12, |i: int| (hex_char_value(s[2 * i]) * 16 + hex_char_value(s[2 * i + 1])) as u8)
}

/// The canonical (lower-case) encoding of twelve identifier bytes.
pub open spec fn id_encoding_of(b: Seq<u8>) -> Seq<char> {
    Seq::new(24, |i: int|
        if i % 2 == 0 {
            hex_char_of((b[i / 2] / 16) as u8)
        } else {
            hex_char_of((b[i / 2] % 16) as u8)
        })
}

/// Every hexadecimal digit character is an ASCII character.
proof fn lemma_hex_chars_ascii(s: Seq<char>)
    requires
        valid_id_encoding(s),
    ensures
        vstd::utf8::is_ascii_chars(s),
{
    assert forall|i: int| 0 <= i < s.len() implies '\0' <= #[trigger] s[i] <= '\u{7f}' by {
        assert(is_hex_char(s[i]));
    }
}

/// Encoding a value below sixteen and reading the digit back returns the value.
proof fn lemma_hex_digit_round_trip(v: u8)
    requires
        v < 16,
    ensures
        is_hex_char(hex_char_of(v)),
        hex_char_value(hex_char_of(v)) == v,
{
}

/// Decoding the canonical encoding of twelve bytes returns those bytes, and
/// the canonical encoding is itself a valid encoding.
pub proof fn lemma_id_encoding_round_trip(b: Seq<u8>)
    requires
        b.len() == 12,
    ensures
        valid_id_encoding(id_encoding_of(b)),
        decoded_id(id_encoding_of(b)) == b,
{
    let s = id_encoding_of(b);
    assert forall|i: int| 0 <= i < s.len() implies is_hex_char(#[trigger] s[i]) by {
        if i % 2 == 0 {
            lemma_hex_digit_round_trip((b[i / 2] / 16) as u8);
        } else {
            lemma_hex_digit_round_trip((b[i / 2] % 16) as u8);
        }
    }
    assert forall|i: int| 0 <= i < 12 implies decoded_id(s)[i] == b[i] by {
        lemma_hex_digit_round_trip((b[i] / 16) as u8);
        lemma_hex_digit_round_trip((b[i] % 16) as u8);
        assert(s[2 * i] == hex_char_of((b[i] / 16) as u8));
        assert(s[2 * i + 1] == hex_char_of((b[i] % 16) as u8));
        assert(decoded_id(s)[i] == (hex_char_value(s[2 * i]) * 16 + hex_char_value(s[2 * i + 1])) as u8);
        assert((b[i] / 16) * 16 + b[i] % 16 == b[i]) by (nonlinear_arith);
    }
    assert(decoded_id(s) =~= b);
}

/// The value of one hexadecimal digit byte, for ASCII input; returns the
/// digit's value, or nothing where the byte is no hexadecimal digit.
fn hex_value_of_byte(b: u8, Ghost(c): Ghost<char>) -> (r: Option<u8>)
    requires
        c <= '\u{7f}',
        b == c as u8,
    ensures
        r is Some <==> is_hex_char(c),
        r is Some ==> r->0 == hex_char_value(c) && r->0 < 16,
{
    if 48 <= b && b <= 57 {
        Some(b - 48)
    } else if 97 <= b && b <= 102 {
        Some(b - 87)
    } else if 65 <= b && b <= 70 {
        Some(b - 55)
    } else {
        None
    }
}

/// The lower-case hexadecimal digit for a value below sixteen, as a
/// one-character string.
fn hex_str_of(v: u8) -> (r: &'static str)
    requires
        v < 16,
    ensures
        r@.len() == 1,
        r@[0] == hex_char_of(v),
{
    let r: &'static str = match v {
        0 => "0", 1 => "1", 2 => "2", 3 => "3",
        4 => "4", 5 => "5", 6 => "6", 7 => "7",
        8 => "8", 9 => "9", 10 => "a", 11 => "b",
        12 => "c", 13 => "d", 14 => "e", _ => "f",
    };
    proof {
        reveal_strlit("0"); reveal_strlit("1"); reveal_strlit("2"); reveal_strlit("3");
        reveal_strlit("4"); reveal_strlit("5"); reveal_strlit("6"); reveal_strlit("7");
        reveal_strlit("8"); reveal_strlit("9"); reveal_strlit("a"); reveal_strlit("b");
        reveal_strlit("c"); reveal_strlit("d"); reveal_strlit("e"); reveal_strlit("f");
    }
    r
}

impl ItemId {
    /// An identifier always holds exactly twelve bytes.
    #[verifier::type_invariant]
    pub open spec fn inv(&self) -> bool {
        self@.len() == 12
    }

    /// Builds an identifier from its twelve bytes.
    pub fn from_bytes(bytes: Vec<u8>) -> (r: ItemId)
        requires
            bytes@.len() == 12,
        ensures
            r@ == bytes@,
    {
        ItemId { bytes }
    }

    /// The identifier's bytes.
    pub fn as_bytes(&self) -> (r: &Vec<u8>)
        ensures
            r@ == self@,
    {
        &self.bytes
    }

    /// A copy of the identifier.
    pub fn clone_id(&self) -> (r: ItemId)
        ensures
            r@ == self@,
    {
        proof {
            use_type_invariant(self);
        }
        let mut bytes: Vec<u8> = Vec::new();
        let mut i: usize = 0;
        while i < self.bytes.len()
            invariant
                i <= self.bytes@.len(),
                bytes@ =~= self.bytes@.subrange(0, i as int),
            decreases self.bytes@.len() - i,
        {
            bytes.push(self.bytes[i]);
            i = i + 1;
        }
        proof {
            assert(bytes@ =~= self.bytes@);
        }
        ItemId { bytes }
    }

    /// Whether two identifiers hold the same bytes.
    pub fn eq_id(&self, other: &ItemId) -> (r: bool)
        ensures
            r == (self@ == other@),
    {
        proof {
            use_type_invariant(self);
            use_type_invariant(other);
        }
        let mut i: usize = 0;
        while i < self.bytes.len()
            invariant
                self.bytes@.len() == 12,
                other.bytes@.len() == 12,
                i <= 12,
                forall|j: int| 0 <= j < i ==> self.bytes@[j] == other.bytes@[j],
            decreases self.bytes@.len() - i,
        {
            if self.bytes[i] != other.bytes[i] {
                proof {
                    assert(self@[i as int] != other@[i as int]);
                }
                return false;
            }
            i = i + 1;
        }
        proof {
            assert(self@ =~= other@);
        }
        true
    }

    /// Parses a path segment into an identifier: exactly twenty-four
    /// hexadecimal digit characters, either letter case; anything else is
    /// rejected.
    pub fn parse_str(s: &str) -> (r: Option<ItemId>)
        ensures
            r is Some <==> valid_id_encoding(s@),
            r is Some ==> r->0@ == decoded_id(s@),
    {
        if !s.is_ascii() {
            proof {
                if valid_id_encoding(s@) {
                    lemma_hex_chars_ascii(s@);
                }
            }
            return None;
        }
        let n: usize = s.unicode_len();
        if n != 24 {
            return None;
        }
        let mut bytes: Vec<u8> = Vec::new();
        let mut i: usize = 0;
        while i < 12
            invariant
                vstd::string::is_ascii(s),
                s@.len() == 24,
                i <= 12,
                forall|j: int| 0 <= j < 2 * i ==> is_hex_char(#[trigger] s@[j]),
                bytes@.len() == i,
                forall|j: int| 0 <= j < i ==> bytes@[j] == decoded_id(s@)[j],
            decreases 12 - i,
        {
            let hi_byte: u8 = s.get_ascii(2 * i);
            let lo_byte: u8 = s.get_ascii(2 * i + 1);
            let hi: u8 = match hex_value_of_byte(hi_byte, Ghost(s@[2 * (i as int)])) {
                Some(v) => v,
                None => {
                    proof {
                        assert(!is_hex_char(s@[2 * (i as int)]));
                    }
                    return None;
                },
            };
            let lo: u8 = match hex_value_of_byte(lo_byte, Ghost(s@[2 * (i as int) + 1])) {
                Some(v) => v,
                None => {
                    proof {
                        assert(!is_hex_char(s@[2 * (i as int) + 1]));
                    }
                    return None;
                },
            };
            bytes.push(hi * 16 + lo);
            i = i + 1;
        }
        proof {
            assert(valid_id_encoding(s@)) by {
                assert forall|j: int| 0 <= j < s@.len() implies is_hex_char(#[trigger] s@[j]) by {
                    assert(0 <= j < 2 * 12);
                }
            }
            assert(bytes@ =~= decoded_id(s@));
        }
        Some(ItemId { bytes })
    }

    /// The canonical lower-case hexadecimal encoding of the identifier,
    /// twenty-four characters long.
    pub fn to_hex(&self) -> (r: String)
        ensures
            r@ == id_encoding_of(self@),
            valid_id_encoding(r@),
            decoded_id(r@) == self@,
    {
        proof {
            use_type_invariant(self);
        }
        let mut r = String::new();
        let mut i: usize = 0;
        while i < 12
            invariant
                self.bytes@.len() == 12,
                i <= 12,
                r@ =~= id_encoding_of(self@).subrange(0, 2 * i),
            decreases 12 - i,
        {
            let b: u8 = self.bytes[i];
            r.append(hex_str_of(b / 16));
            r.append(hex_str_of(b % 16));
            proof {
                assert(id_encoding_of(self@)[2 * i] == hex_char_of((self@[i as int] / 16) as u8));
                assert(id_encoding_of(self@)[2 * i + 1] == hex_char_of((self@[i as int] % 16) as u8));
                assert(r@ =~= id_encoding_of(self@).subrange(0, 2 * (i + 1)));
            }
            i = i + 1;
        }
        proof {
            assert(r@ =~= id_encoding_of(self@));
            lemma_id_encoding_round_trip(self@);
        }
        r
    }
}

/// Relies on `bson::oid::ObjectId::new` (and `ObjectId::bytes`): a freshly
/// generated store identifier is twelve bytes long. Nothing more is assumed
/// of it; the generated value depends on the time and on process state.
/// (`ObjectId::new` itself aborts on a system clock set before 1970.)
#[verifier::external_body]
fn generated_id_bytes() -> (r: Vec<u8>)
    ensures
        r@.len() == 12,
{
    bson::oid::ObjectId::new().bytes().to_vec()
}

/// A freshly generated identifier, as the store driver produces them.
pub fn generate_id() -> (r: ItemId)
    ensures
        r@.len() == 12,
{
    ItemId::from_bytes(generated_id_bytes())
}

} // verus!
