//! The words of the protocol's XML vocabulary, recognised in raw bytes,
//! and the decimal numbers of its attributes.

use vstd::prelude::*;
use vstd::utf8::*;

use crate::wire::str_from_utf8;
use crate::xml::event::XmlError;

verus! {

/// A word of the XML vocabulary: an element name, an attribute key, an
/// attribute value with a meaning, or an argument type.
#[derive(Debug, Clone, Copy, PartialEq, Eq)]
pub enum Word {
    Protocol,
    Copyright,
    Description,
    Interface,
    Request,
    Event,
    Enum,
    Entry,
    Arg,
    Name,
    Version,
    Type,
    Since,
    DeprecatedSince,
    Bitfield,
    Value,
    Summary,
    AllowNull,
    Destructor,
    True,
    False,
    Int,
    Uint,
    Fixed,
    String,
    Object,
    NewId,
    Array,
    Fd,
}

/// The bytes of a word.
pub open spec fn spec_word_bytes(w: Word) -> Seq<u8> {
    match w {
        Word::Protocol => seq![0x70u8, 0x72u8, 0x6fu8, 0x74u8, 0x6fu8, 0x63u8, 0x6fu8, 0x6cu8],  // protocol
        Word::Copyright => seq![0x63u8, 0x6fu8, 0x70u8, 0x79u8, 0x72u8, 0x69u8, 0x67u8, 0x68u8, 0x74u8],  // copyright
        Word::Description => seq![0x64u8, 0x65u8, 0x73u8, 0x63u8, 0x72u8, 0x69u8, 0x70u8, 0x74u8, 0x69u8, 0x6fu8, 0x6eu8],  // description
        Word::Interface => seq![0x69u8, 0x6eu8, 0x74u8, 0x65u8, 0x72u8, 0x66u8, 0x61u8, 0x63u8, 0x65u8],  // interface
        Word::Request => seq![0x72u8, 0x65u8, 0x71u8, 0x75u8, 0x65u8, 0x73u8, 0x74u8],  // request
        Word::Event => seq![0x65u8, 0x76u8, 0x65u8, 0x6eu8, 0x74u8],  // event
        Word::Enum => seq![0x65u8, 0x6eu8, 0x75u8, 0x6du8],  // enum
        Word::Entry => seq![0x65u8, 0x6eu8, 0x74u8, 0x72u8, 0x79u8],  // entry
        Word::Arg => seq![0x61u8, 0x72u8, 0x67u8],  // arg
        Word::Name => seq![0x6eu8, 0x61u8, 0x6du8, 0x65u8],  // name
        Word::Version => seq![0x76u8, 0x65u8, 0x72u8, 0x73u8, 0x69u8, 0x6fu8, 0x6eu8],  // version
        Word::Type => seq![0x74u8, 0x79u8, 0x70u8, 0x65u8],  // type
        Word::Since => seq![0x73u8, 0x69u8, 0x6eu8, 0x63u8, 0x65u8],  // since
        Word::DeprecatedSince => seq![0x64u8, 0x65u8, 0x70u8, 0x72u8, 0x65u8, 0x63u8, 0x61u8, 0x74u8, 0x65u8, 0x64u8, 0x2du8, 0x73u8, 0x69u8, 0x6eu8, 0x63u8, 0x65u8],  // deprecated-since
        Word::Bitfield => seq![0x62u8, 0x69u8, 0x74u8, 0x66u8, 0x69u8, 0x65u8, 0x6cu8, 0x64u8],  // bitfield
        Word::Value => seq![0x76u8, 0x61u8, 0x6cu8, 0x75u8, 0x65u8],  // value
        Word::Summary => seq![0x73u8, 0x75u8, 0x6du8, 0x6du8, 0x61u8, 0x72u8, 0x79u8],  // summary
        Word::AllowNull => seq![0x61u8, 0x6cu8, 0x6cu8, 0x6fu8, 0x77u8, 0x2du8, 0x6eu8, 0x75u8, 0x6cu8, 0x6cu8],  // allow-null
        Word::Destructor => seq![0x64u8, 0x65u8, 0x73u8, 0x74u8, 0x72u8, 0x75u8, 0x63u8, 0x74u8, 0x6fu8, 0x72u8],  // destructor
        Word::True => seq![0x74u8, 0x72u8, 0x75u8, 0x65u8],  // true
        Word::False => seq![0x66u8, 0x61u8, 0x6cu8, 0x73u8, 0x65u8],  // false
        Word::Int => seq![0x69u8, 0x6eu8, 0x74u8],  // int
        Word::Uint => seq![0x75u8, 0x69u8, 0x6eu8, 0x74u8],  // uint
        Word::Fixed => seq![0x66u8, 0x69u8, 0x78u8, 0x65u8, 0x64u8],  // fixed
        Word::String => seq![0x73u8, 0x74u8, 0x72u8, 0x69u8, 0x6eu8, 0x67u8],  // string
        Word::Object => seq![0x6fu8, 0x62u8, 0x6au8, 0x65u8, 0x63u8, 0x74u8],  // object
        Word::NewId => seq![0x6eu8, 0x65u8, 0x77u8, 0x5fu8, 0x69u8, 0x64u8],  // new_id
        Word::Array => seq![0x61u8, 0x72u8, 0x72u8, 0x61u8, 0x79u8],  // array
        Word::Fd => seq![0x66u8, 0x64u8],  // fd
    }
}

/// The word that `bytes` spell, if any.
pub open spec fn spec_word_of(bytes: Seq<u8>) -> Option<Word> {
    if bytes == spec_word_bytes(Word::Protocol) {
        Some(Word::Protocol)
    }
    else if bytes == spec_word_bytes(Word::Copyright) {
        Some(Word::Copyright)
    }
    else if bytes == spec_word_bytes(Word::Description) {
        Some(Word::Description)
    }
    else if bytes == spec_word_bytes(Word::Interface) {
        Some(Word::Interface)
    }
    else if bytes == spec_word_bytes(Word::Request) {
        Some(Word::Request)
    }
    else if bytes == spec_word_bytes(Word::Event) {
        Some(Word::Event)
    }
    else if bytes == spec_word_bytes(Word::Enum) {
        Some(Word::Enum)
    }
    else if bytes == spec_word_bytes(Word::Entry) {
        Some(Word::Entry)
    }
    else if bytes == spec_word_bytes(Word::Arg) {
        Some(Word::Arg)
    }
    else if bytes == spec_word_bytes(Word::Name) {
        Some(Word::Name)
    }
    else if bytes == spec_word_bytes(Word::Version) {
        Some(Word::Version)
    }
    else if bytes == spec_word_bytes(Word::Type) {
        Some(Word::Type)
    }
    else if bytes == spec_word_bytes(Word::Since) {
        Some(Word::Since)
    }
    else if bytes == spec_word_bytes(Word::DeprecatedSince) {
        Some(Word::DeprecatedSince)
    }
    else if bytes == spec_word_bytes(Word::Bitfield) {
        Some(Word::Bitfield)
    }
    else if bytes == spec_word_bytes(Word::Value) {
        Some(Word::Value)
    }
    else if bytes == spec_word_bytes(Word::Summary) {
        Some(Word::Summary)
    }
    else if bytes == spec_word_bytes(Word::AllowNull) {
        Some(Word::AllowNull)
    }
    else if bytes == spec_word_bytes(Word::Destructor) {
        Some(Word::Destructor)
    }
    else if bytes == spec_word_bytes(Word::True) {
        Some(Word::True)
    }
    else if bytes == spec_word_bytes(Word::False) {
        Some(Word::False)
    }
    else if bytes == spec_word_bytes(Word::Int) {
        Some(Word::Int)
    }
    else if bytes == spec_word_bytes(Word::Uint) {
        Some(Word::Uint)
    }
    else if bytes == spec_word_bytes(Word::Fixed) {
        Some(Word::Fixed)
    }
    else if bytes == spec_word_bytes(Word::String) {
        Some(Word::String)
    }
    else if bytes == spec_word_bytes(Word::Object) {
        Some(Word::Object)
    }
    else if bytes == spec_word_bytes(Word::NewId) {
        Some(Word::NewId)
    }
    else if bytes == spec_word_bytes(Word::Array) {
        Some(Word::Array)
    }
    else if bytes == spec_word_bytes(Word::Fd) {
        Some(Word::Fd)
    } else {
        None
    }
}

/// The bytes of a word.
pub fn word_bytes(w: Word) -> (r: Vec<u8>)
    ensures
        r@ == spec_word_bytes(w),
{
    let v: Vec<u8> = match w {
        Word::Protocol => vec![0x70u8, 0x72u8, 0x6fu8, 0x74u8, 0x6fu8, 0x63u8, 0x6fu8, 0x6cu8],
        Word::Copyright => vec![0x63u8, 0x6fu8, 0x70u8, 0x79u8, 0x72u8, 0x69u8, 0x67u8, 0x68u8, 0x74u8],
        Word::Description => vec![0x64u8, 0x65u8, 0x73u8, 0x63u8, 0x72u8, 0x69u8, 0x70u8, 0x74u8, 0x69u8, 0x6fu8, 0x6eu8],
        Word::Interface => vec![0x69u8, 0x6eu8, 0x74u8, 0x65u8, 0x72u8, 0x66u8, 0x61u8, 0x63u8, 0x65u8],
        Word::Request => vec![0x72u8, 0x65u8, 0x71u8, 0x75u8, 0x65u8, 0x73u8, 0x74u8],
        Word::Event => vec![0x65u8, 0x76u8, 0x65u8, 0x6eu8, 0x74u8],
        Word::Enum => vec![0x65u8, 0x6eu8, 0x75u8, 0x6du8],
        Word::Entry => vec![0x65u8, 0x6eu8, 0x74u8, 0x72u8, 0x79u8],
        Word::Arg => vec![0x61u8, 0x72u8, 0x67u8],
        Word::Name => vec![0x6eu8, 0x61u8, 0x6du8, 0x65u8],
        Word::Version => vec![0x76u8, 0x65u8, 0x72u8, 0x73u8, 0x69u8, 0x6fu8, 0x6eu8],
        Word::Type => vec![0x74u8, 0x79u8, 0x70u8, 0x65u8],
        Word::Since => vec![0x73u8, 0x69u8, 0x6eu8, 0x63u8, 0x65u8],
        Word::DeprecatedSince => vec![0x64u8, 0x65u8, 0x70u8, 0x72u8, 0x65u8, 0x63u8, 0x61u8, 0x74u8, 0x65u8, 0x64u8, 0x2du8, 0x73u8, 0x69u8, 0x6eu8, 0x63u8, 0x65u8],
        Word::Bitfield => vec![0x62u8, 0x69u8, 0x74u8, 0x66u8, 0x69u8, 0x65u8, 0x6cu8, 0x64u8],
        Word::Value => vec![0x76u8, 0x61u8, 0x6cu8, 0x75u8, 0x65u8],
        Word::Summary => vec![0x73u8, 0x75u8, 0x6du8, 0x6du8, 0x61u8, 0x72u8, 0x79u8],
        Word::AllowNull => vec![0x61u8, 0x6cu8, 0x6cu8, 0x6fu8, 0x77u8, 0x2du8, 0x6eu8, 0x75u8, 0x6cu8, 0x6cu8],
        Word::Destructor => vec![0x64u8, 0x65u8, 0x73u8, 0x74u8, 0x72u8, 0x75u8, 0x63u8, 0x74u8, 0x6fu8, 0x72u8],
        Word::True => vec![0x74u8, 0x72u8, 0x75u8, 0x65u8],
        Word::False => vec![0x66u8, 0x61u8, 0x6cu8, 0x73u8, 0x65u8],
        Word::Int => vec![0x69u8, 0x6eu8, 0x74u8],
        Word::Uint => vec![0x75u8, 0x69u8, 0x6eu8, 0x74u8],
        Word::Fixed => vec![0x66u8, 0x69u8, 0x78u8, 0x65u8, 0x64u8],
        Word::String => vec![0x73u8, 0x74u8, 0x72u8, 0x69u8, 0x6eu8, 0x67u8],
        Word::Object => vec![0x6fu8, 0x62u8, 0x6au8, 0x65u8, 0x63u8, 0x74u8],
        Word::NewId => vec![0x6eu8, 0x65u8, 0x77u8, 0x5fu8, 0x69u8, 0x64u8],
        Word::Array => vec![0x61u8, 0x72u8, 0x72u8, 0x61u8, 0x79u8],
        Word::Fd => vec![0x66u8, 0x64u8],
    };
    proof {
        assert(v@ =~= spec_word_bytes(w));
    }
    v
}

/// Whether two byte sequences are equal.
pub fn bytes_eq(a: &[u8], b: &[u8]) -> (r: bool)
    ensures
        r == (a@ == b@),
{
    if a.len() != b.len() {
        return false;
    }
    let mut i: usize = 0;
    while i < a.len()
        invariant
            a@.len() == b@.len(),
            i <= a@.len(),
            forall|j: int| 0 <= j < i ==> a@[j] == b@[j],
        decreases a@.len() - i,
    {
        if a[i] != b[i] {
            return false;
        }
        i = i + 1;
    }
    assert(a@ =~= b@);
    true
}

/// Whether `bytes` spell the word `w`.
pub fn is_word(bytes: &[u8], w: Word) -> (r: bool)
    ensures
        r == (bytes@ == spec_word_bytes(w)),
{
    let lit = word_bytes(w);
    bytes_eq(bytes, lit.as_slice())
}

/// The word that `bytes` spell, if any.
pub fn word_of(bytes: &[u8]) -> (r: Option<Word>)
    ensures
        r == spec_word_of(bytes@),
{
    if is_word(bytes, Word::Protocol) {
        return Some(Word::Protocol);
    }
    if is_word(bytes, Word::Copyright) {
        return Some(Word::Copyright);
    }
    if is_word(bytes, Word::Description) {
        return Some(Word::Description);
    }
    if is_word(bytes, Word::Interface) {
        return Some(Word::Interface);
    }
    if is_word(bytes, Word::Request) {
        return Some(Word::Request);
    }
    if is_word(bytes, Word::Event) {
        return Some(Word::Event);
    }
    if is_word(bytes, Word::Enum) {
        return Some(Word::Enum);
    }
    if is_word(bytes, Word::Entry) {
        return Some(Word::Entry);
    }
    if is_word(bytes, Word::Arg) {
        return Some(Word::Arg);
    }
    if is_word(bytes, Word::Name) {
        return Some(Word::Name);
    }
    if is_word(bytes, Word::Version) {
        return Some(Word::Version);
    }
    if is_word(bytes, Word::Type) {
        return Some(Word::Type);
    }
    if is_word(bytes, Word::Since) {
        return Some(Word::Since);
    }
    if is_word(bytes, Word::DeprecatedSince) {
        return Some(Word::DeprecatedSince);
    }
    if is_word(bytes, Word::Bitfield) {
        return Some(Word::Bitfield);
    }
    if is_word(bytes, Word::Value) {
        return Some(Word::Value);
    }
    if is_word(bytes, Word::Summary) {
        return Some(Word::Summary);
    }
    if is_word(bytes, Word::AllowNull) {
        return Some(Word::AllowNull);
    }
    if is_word(bytes, Word::Destructor) {
        return Some(Word::Destructor);
    }
    if is_word(bytes, Word::True) {
        return Some(Word::True);
    }
    if is_word(bytes, Word::False) {
        return Some(Word::False);
    }
    if is_word(bytes, Word::Int) {
        return Some(Word::Int);
    }
    if is_word(bytes, Word::Uint) {
        return Some(Word::Uint);
    }
    if is_word(bytes, Word::Fixed) {
        return Some(Word::Fixed);
    }
    if is_word(bytes, Word::String) {
        return Some(Word::String);
    }
    if is_word(bytes, Word::Object) {
        return Some(Word::Object);
    }
    if is_word(bytes, Word::NewId) {
        return Some(Word::NewId);
    }
    if is_word(bytes, Word::Array) {
        return Some(Word::Array);
    }
    if is_word(bytes, Word::Fd) {
        return Some(Word::Fd);
    }
    None
}

/// An ASCII decimal digit.
pub open spec fn spec_is_digit(b: u8) -> bool {
    0x30 <= b <= 0x39
}

/// The value of a sequence of decimal digits.
pub open spec fn spec_decimal(s: Seq<u8>) -> int
    decreases s.len(),
{
    if s.len() == 0 {
        0
    } else {
        spec_decimal(s.drop_last()) * 10 + (s.last() - 0x30)
    }
}

/// The digits of a number: the text without one leading `+`.
pub open spec fn spec_number_digits(s: Seq<u8>) -> Seq<u8> {
    if s.len() > 0 && s[0] == 0x2b {
        s.drop_first()
    } else {
        s
    }
}

/// The `u32` that the text spells in decimal, as `str::parse::<u32>`
/// reads it: an optional `+`, then one or more digits, the value in range.
pub open spec fn spec_parse_u32(s: Seq<u8>) -> Option<u32> {
    let d = spec_number_digits(s);
    if d.len() > 0 && (forall|i: int| 0 <= i < d.len() ==> spec_is_digit(#[trigger] d[i]))
        && spec_decimal(d) <= u32::MAX {
        Some(spec_decimal(d) as u32)
    } else {
        None
    }
}

proof fn lemma_decimal_prefix_grows(s: Seq<u8>, i: int)
    requires
        0 <= i <= s.len(),
        forall|j: int| 0 <= j < s.len() ==> spec_is_digit(#[trigger] s[j]),
    ensures
        spec_decimal(s.take(i)) <= spec_decimal(s),
    decreases s.len() - i,
{
    if i < s.len() {
        lemma_decimal_prefix_grows(s, i + 1);
        assert(s.take(i + 1).drop_last() =~= s.take(i));
        assert(spec_decimal(s.take(i)) >= 0) by {
            lemma_decimal_nonneg(s.take(i));
        }
    } else {
        assert(s.take(i) =~= s);
    }
}

proof fn lemma_decimal_nonneg(s: Seq<u8>)
    requires
        forall|j: int| 0 <= j < s.len() ==> spec_is_digit(#[trigger] s[j]),
    ensures
        spec_decimal(s) >= 0,
    decreases s.len(),
{
    if s.len() > 0 {
        lemma_decimal_nonneg(s.drop_last());
    }
}

/// The `u32` that the text spells in decimal (see [`spec_parse_u32`]).
pub fn parse_u32(s: &[u8]) -> (r: Option<u32>)
    ensures
        r == spec_parse_u32(s@),
{
    let n = s.len();
    let start: usize = if n > 0 && s[0] == 0x2b {
        1
    } else {
        0
    };
    let ghost d = spec_number_digits(s@);
    assert(d =~= s@.subrange(start as int, n as int));
    if start >= n {
        return None;
    }
    let mut acc: u32 = 0;
    let mut i: usize = start;
    while i < n
        invariant
            start <= i <= n,
            n == s@.len(),
            d == spec_number_digits(s@),
            d =~= s@.subrange(start as int, n as int),
            forall|j: int| 0 <= j < i - start ==> spec_is_digit(#[trigger] d[j]),
            acc as int == spec_decimal(d.take(i - start)),
        decreases n - i,
    {
        let b = s[i];
        if b < 0x30 || b > 0x39 {
            assert(!spec_is_digit(d[i - start]));
            return None;
        }
        let ghost k = i - start;
        assert(d.take(k + 1).drop_last() =~= d.take(k));
        assert(d.take(k + 1).last() == b);
        let digit: u32 = (b - 0x30) as u32;
        if acc > (u32::MAX - digit) / 10 {
            proof {
                assert(acc as int * 10 + digit > u32::MAX) by (nonlinear_arith)
                    requires
                        acc > (u32::MAX - digit) / 10,
                        digit <= 9,
                ;
                if forall|j: int| 0 <= j < d.len() ==> spec_is_digit(#[trigger] d[j]) {
                    lemma_decimal_prefix_grows(d, k + 1);
                }
            }
            return None;
        }
        assert(acc as int * 10 + digit <= u32::MAX) by (nonlinear_arith)
            requires
                acc <= (u32::MAX - digit) / 10,
                digit <= 9,
        ;
        acc = acc * 10 + digit;
        i = i + 1;
    }
    assert(d.take(d.len() as int) =~= d);
    Some(acc)
}

/// The text that `bytes` encode in UTF-8.
pub open spec fn spec_utf8_text(bytes: Seq<u8>) -> Result<Seq<char>, XmlError> {
    if valid_utf8(bytes) {
        Ok(decode_utf8(bytes))
    } else {
        Err(XmlError::InvalidUtf8)
    }
}

/// The text that `bytes` encode in UTF-8, or `InvalidUtf8`.
pub fn utf8_text(bytes: &[u8]) -> (r: Result<String, XmlError>)
    ensures
        match spec_utf8_text(bytes@) {
            Ok(t) => r matches Ok(s) && s@ == t,
            Err(e) => r matches Err(e2) && e2 == e,
        },
{
    match str_from_utf8(bytes) {
        Some(s) => {
            let t = s.to_owned();
            proof {
                broadcast use encode_utf8_decode_utf8;
                assert(decode_utf8(encode_utf8(s@)) == s@);
            }
            Ok(t)
        },
        None => Err(XmlError::InvalidUtf8),
    }
}

} // verus!
