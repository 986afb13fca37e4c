//! Identifiers: strings matching `/^[a-zA-Z0-9_-]*$/` with a byte length in 1..=128.

use vstd::prelude::*;
use vstd::string::StringSliceAdditionalSpecFns;
use vstd::utf8::{encode_utf8, is_ascii_chars, is_ascii_chars_encode_utf8};

verus! {

/// Byte that may appear in an identifier: `[a-zA-Z0-9_-]`.
pub open spec fn is_identifier_byte(b: u8) -> bool {
    ||| (48 <= b && b <= 57)
    ||| (65 <= b && b <= 90)
    ||| (97 <= b && b <= 122)
    ||| b == 95
    ||| b == 45
}

/// ASCII lower-casing of a single byte.
pub open spec fn ascii_lower(b: u8) -> u8 {
    if 65 <= b && b <= 90 {
        (b + 32) as u8
    } else {
        b
    }
}

/// The byte string equals `null` when compared ASCII-case-insensitively.
pub open spec fn is_forbidden_name(bytes: Seq<u8>) -> bool {
    &&& bytes.len() == 4
    &&& ascii_lower(bytes[0]) == 110u8
    &&& ascii_lower(bytes[1]) == 117u8
    &&& ascii_lower(bytes[2]) == 108u8
    &&& ascii_lower(bytes[3]) == 108u8
}

pub open spec fn all_identifier_bytes(bytes: Seq<u8>) -> bool {
    forall|i: int| 0 <= i < bytes.len() ==> is_identifier_byte(#[trigger] bytes[i])
}

/// The byte string is a valid identifier.
pub open spec fn valid_identifier_bytes(bytes: Seq<u8>) -> bool {
    &&& 1 <= bytes.len() <= 128
    &&& all_identifier_bytes(bytes)
    &&& !is_forbidden_name(bytes)
}

/// The text is a valid identifier (judged on its UTF-8 encoding).
pub open spec fn valid_identifier(text: Seq<char>) -> bool {
    valid_identifier_bytes(encode_utf8(text))
}

/// The error a text that is no identifier is refused with: its byte length
/// where that lies outside 1..=128, else a byte outside the alphabet, else the
/// reserved name, carrying the text.
pub open spec fn identifier_rejects(s: &str, e: IdentifierError) -> bool {
    identifier_text_rejects(s@, e)
}

/// The error a text that is no identifier is refused with, judged on the
/// text's UTF-8 encoding (see `identifier_rejects`).
pub open spec fn identifier_text_rejects(s: Seq<char>, e: IdentifierError) -> bool {
    let b = encode_utf8(s);
    if !(1 <= b.len() <= 128) {
        e == IdentifierError::InvalidLength(b.len() as usize)
    } else if !all_identifier_bytes(b) {
        e == IdentifierError::InvalidCharacter
    } else {
        e matches IdentifierError::ForbiddenName(name) && name@ == s
    }
}

/// Decimal digit character for `d < 10`.
pub open spec fn digit_char(d: nat) -> char {
    if d == 0 { '0' } else if d == 1 { '1' } else if d == 2 { '2' } else if d == 3 { '3' }
    else if d == 4 { '4' } else if d == 5 { '5' } else if d == 6 { '6' } else if d == 7 { '7' }
    else if d == 8 { '8' } else { '9' }
}

/// Decimal rendering of a natural number, without leading zeros.
pub open spec fn decimal_text(n: nat) -> Seq<char>
    decreases n,
{
    if n < 10 {
        seq![digit_char(n)]
    } else {
        decimal_text(n / 10).push(digit_char(n % 10))
    }
}

/// Appends the decimal rendering of `n` to `out`.
pub fn push_decimal(out: &mut String, n: usize)
    ensures
        final(out)@ == old(out)@ + decimal_text(n as nat),
    decreases n,
{
    if n >= 10 {
        push_decimal(out, n / 10);
    }
    let d = n % 10;
    proof {
        reveal_strlit("0");
        reveal_strlit("1");
        reveal_strlit("2");
        reveal_strlit("3");
        reveal_strlit("4");
        reveal_strlit("5");
        reveal_strlit("6");
        reveal_strlit("7");
        reveal_strlit("8");
        reveal_strlit("9");
    }
    let digit = if d == 0 { "0" } else if d == 1 { "1" } else if d == 2 { "2" } else if d == 3 {
        "3"
    } else if d == 4 { "4" } else if d == 5 { "5" } else if d == 6 { "6" } else if d == 7 {
        "7"
    } else if d == 8 { "8" } else { "9" };
    assert(digit@ == seq![digit_char(d as nat)]);
    out.append(digit);
    assert(decimal_text(n as nat) == (if n < 10 { seq![digit_char(n as nat)] } else {
        decimal_text((n / 10) as nat).push(digit_char((n % 10) as nat))
    }));
}

/// Why a string is not an identifier.
#[derive(Debug, PartialEq, Eq)]
pub enum IdentifierError {
    /// The byte length, outside of 1..=128.
    InvalidLength(usize),
    /// A byte outside `[a-zA-Z0-9_-]` occurs.
    InvalidCharacter,
    /// The name (case-insensitively `null`) is reserved.
    ForbiddenName(String),
}

impl Clone for IdentifierError {
    fn clone(&self) -> (r: Self)
        ensures
            r == *self,
    {
        match self {
            IdentifierError::InvalidLength(n) => IdentifierError::InvalidLength(*n),
            IdentifierError::InvalidCharacter => IdentifierError::InvalidCharacter,
            IdentifierError::ForbiddenName(name) => IdentifierError::ForbiddenName(name.clone()),
        }
    }
}

/// The human readable description of an identifier error.
pub open spec fn identifier_error_text(e: IdentifierError) -> Seq<char> {
    match e {
        IdentifierError::InvalidLength(n) => "string length "@ + decimal_text(n as nat)
            + " outside of allowed range 1..=128"@,
        IdentifierError::InvalidCharacter => "identifier contains characters besides [a-zA-Z0-9_-]"@,
        IdentifierError::ForbiddenName(name) => "this identifier name is not allowed: "@ + name@,
    }
}

impl IdentifierError {
    /// Renders the error the way it is shown to users.
    pub fn message(&self) -> (text: String)
        ensures
            text@ == identifier_error_text(*self),
    {
        match self {
            IdentifierError::InvalidLength(n) => {
                let mut text = String::from_str("string length ");
                push_decimal(&mut text, *n);
                text.append(" outside of allowed range 1..=128");
                text
            },
            IdentifierError::InvalidCharacter => String::from_str(
                "identifier contains characters besides [a-zA-Z0-9_-]",
            ),
            IdentifierError::ForbiddenName(name) => {
                let mut text = String::from_str("this identifier name is not allowed: ");
                text.append(name.as_str());
                text
            },
        }
    }
}

/// The outcome of checking a byte string against the identifier rules, in the
/// order the rules are applied: length first, then characters, then reserved names.
pub open spec fn identifier_check_ok(bytes: Seq<u8>) -> bool {
    valid_identifier_bytes(bytes)
}

/// A string that matches `/^[a-zA-Z0-9_-]*$/` with length in 1..=128 and is not `null`.
#[derive(Debug, PartialEq, Eq, Hash, PartialOrd, Ord)]
pub struct Identifier(String);

impl Clone for Identifier {
    fn clone(&self) -> (r: Self)
        ensures
            r@ == self@,
    {
        proof {
            use_type_invariant(self);
        }
        Identifier(self.0.clone())
    }
}

impl View for Identifier {
    type V = Seq<char>;

    closed spec fn view(&self) -> Seq<char> {
        self.0@
    }
}

impl Identifier {
    #[verifier::type_invariant]
    spec fn well_formed(self) -> bool {
        valid_identifier(self.0@)
    }

    /// Checks `s` against the identifier rules.
    pub fn parse(s: &str) -> (r: Result<Identifier, IdentifierError>)
        ensures
            r matches Ok(id) ==> id@ == s@,
            r is Ok <==> valid_identifier(s@),
            r matches Err(IdentifierError::InvalidLength(n)) ==> n == s.spec_bytes().len(),
            r is Err && r->Err_0 is InvalidLength <==> !(1 <= s.spec_bytes().len() <= 128),
            r is Err && r->Err_0 is InvalidCharacter <==> (1 <= s.spec_bytes().len() <= 128
                && !all_identifier_bytes(s.spec_bytes())),
            r is Err && r->Err_0 is ForbiddenName <==> (1 <= s.spec_bytes().len() <= 128
                && all_identifier_bytes(s.spec_bytes()) && is_forbidden_name(s.spec_bytes())),
            r matches Err(IdentifierError::ForbiddenName(name)) ==> name@ == s@,
            r matches Err(e) ==> identifier_rejects(s, e),
    {
        let bytes = s.as_bytes();
        let len = bytes.len();
        assert(bytes@ == s.spec_bytes());
        assert(bytes@ == encode_utf8(s@));
        if len < 1 || len > 128 {
            return Err(IdentifierError::InvalidLength(len));
        }
        let mut i: usize = 0;
        while i < len
            invariant
                len == bytes@.len(),
                bytes@ == s.spec_bytes(),
                bytes@ == encode_utf8(s@),
                1 <= len <= 128,
                i <= len,
                forall|j: int| 0 <= j < i ==> is_identifier_byte(#[trigger] bytes@[j]),
            decreases len - i,
        {
            let b = bytes[i];
            let ok = (48 <= b && b <= 57) || (65 <= b && b <= 90) || (97 <= b && b <= 122) || b
                == 95 || b == 45;
            if !ok {
                assert(!is_identifier_byte(bytes@[i as int]));
                return Err(IdentifierError::InvalidCharacter);
            }
            i = i + 1;
        }
        if len == 4 && lower_byte(bytes[0]) == 110 && lower_byte(bytes[1]) == 117 && lower_byte(
            bytes[2],
        ) == 108 && lower_byte(bytes[3]) == 108 {
            return Err(IdentifierError::ForbiddenName(s.to_owned()));
        }
        Ok(Identifier(s.to_owned()))
    }

    /// The text, known to satisfy the identifier rules, as an identifier.
    pub fn from_valid(text: String) -> (r: Identifier)
        requires
            valid_identifier(text@),
        ensures
            r@ == text@,
    {
        Identifier(text)
    }

    /// The identifier as text.
    pub fn as_str(&self) -> (r: &str)
        ensures
            r@ == self@,
            valid_identifier(r@),
    {
        proof {
            use_type_invariant(self);
        }
        self.0.as_str()
    }

    /// Compares two identifiers by their text.
    pub fn same_as(&self, other: &Identifier) -> (r: bool)
        ensures
            r == (self@ == other@),
    {
        self.0 == other.0
    }
}

fn lower_byte(b: u8) -> (r: u8)
    ensures
        r == ascii_lower(b),
{
    if 65 <= b && b <= 90 {
        b + 32
    } else {
        b
    }
}

impl std::str::FromStr for Identifier {
    type Err = IdentifierError;

    fn from_str(s: &str) -> (r: Result<Self, Self::Err>)
        ensures
            r is Ok <==> valid_identifier(s@),
            r matches Ok(id) ==> id@ == s@,
            r matches Err(e) ==> identifier_rejects(s, e),
    {
        Identifier::parse(s)
    }
}

/// Accepts `text` when its byte length lies in `MIN..=MAX`, and reports the
/// length otherwise.
pub fn string_within_range_inclusive<const MIN: usize, const MAX: usize>(text: String) -> (r: Result<
    String,
    IdentifierError,
>)
    ensures
        (MIN <= encode_utf8(text@).len() <= MAX) ==> r == Ok::<String, IdentifierError>(
            text,
        ),
        !(MIN <= encode_utf8(text@).len() <= MAX) ==> r == Err::<String, IdentifierError>(
            IdentifierError::InvalidLength(encode_utf8(text@).len() as usize),
        ),
{
    let len = text.as_str().as_bytes().len();
    if MIN <= len && len <= MAX {
        Ok(text)
    } else {
        Err(IdentifierError::InvalidLength(len))
    }
}


/// A character of the identifier alphabet `[a-zA-Z0-9_-]`.
pub open spec fn is_identifier_char(c: char) -> bool {
    ('a' <= c && c <= 'z') || ('A' <= c && c <= 'Z') || ('0' <= c && c <= '9') || c == '_' || c == '-'
}

/// The text is `null` in any mix of upper and lower case.
pub open spec fn is_null_text(s: Seq<char>) -> bool {
    &&& s.len() == 4
    &&& (s[0] == 'n' || s[0] == 'N')
    &&& (s[1] == 'u' || s[1] == 'U')
    &&& (s[2] == 'l' || s[2] == 'L')
    &&& (s[3] == 'l' || s[3] == 'L')
}

/// The identifier rules on texts: every text of 1 to 128 characters drawn
/// from `[a-zA-Z0-9_-]` that is not `null` in any case is an identifier; and
/// an ASCII text is an identifier only if it is such a text.
pub proof fn lemma_identifier_texts(s: Seq<char>)
    ensures
        (1 <= s.len() <= 128 && (forall|i: int| 0 <= i < s.len() ==> is_identifier_char(#[trigger] s[i])) && !is_null_text(s))
            ==> valid_identifier(s),
        is_ascii_chars(s) ==> (valid_identifier(s) <==> (1 <= s.len() <= 128 && (forall|i: int|
            0 <= i < s.len() ==> is_identifier_char(#[trigger] s[i])) && !is_null_text(s))),
{
    if (forall|i: int| 0 <= i < s.len() ==> is_identifier_char(#[trigger] s[i])) {
        assert forall|i: int| 0 <= i < s.len() implies '\0' <= #[trigger] s[i] <= '\u{7f}' by {
            assert(is_identifier_char(s[i]));
        }
        assert(is_ascii_chars(s));
    }
    if is_ascii_chars(s) {
        is_ascii_chars_encode_utf8(s);
        let b = encode_utf8(s);
        assert forall|i: int| 0 <= i < s.len() implies (is_identifier_char(#[trigger] s[i]) <==> is_identifier_byte(b[i])) by {
            assert(s[i] as u8 == b[i]);
        }
        if b.len() == 4 {
            assert(s[0] as u8 == b[0] && s[1] as u8 == b[1] && s[2] as u8 == b[2] && s[3] as u8 == b[3]);
            assert(is_null_text(s) <==> is_forbidden_name(b));
        }
        if (forall|i: int| 0 <= i < s.len() ==> is_identifier_char(#[trigger] s[i])) {
            assert forall|i: int| 0 <= i < b.len() implies is_identifier_byte(#[trigger] b[i]) by {
                assert(is_identifier_char(s[i]));
            }
        }
        if all_identifier_bytes(b) {
            assert forall|i: int| 0 <= i < s.len() implies is_identifier_char(#[trigger] s[i]) by {
                assert(is_identifier_byte(b[i]));
            }
        }
    }
}

} // verus!
