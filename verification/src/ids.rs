//! Universally unique identifiers: their text form and how new ones are made.
use vstd::prelude::*;
use vstd::string::*;

verus! {

/// The lower-case hexadecimal digit for a number below sixteen.
pub open spec fn hex_char(d: int) -> char {
    if d < 10 {
        ('0' as int + d) as char
    } else {
        ('a' as int + d - 10) as char
    }
}

/// The number that a hexadecimal digit of either case stands for.
pub open spec fn hex_digit(c: char) -> Option<int> {
    if '0' <= c <= '9' {
        Some(c as int - '0' as int)
    } else if 'a' <= c <= 'f' {
        Some(c as int - 'a' as int + 10)
    } else if 'A' <= c <= 'F' {
        Some(c as int - 'A' as int + 10)
    } else {
        None
    }
}

/// A number as `width` hexadecimal digits.
pub open spec fn hex_text(n: nat, width: nat) -> Seq<char>
    decreases width,
{
    if width == 0 {
        Seq::empty()
    } else {
        hex_text(n / 16, (width - 1) as nat).push(hex_char((n % 16) as int))
    }
}

/// The number that hexadecimal digits stand for.
pub open spec fn hex_value(s: Seq<char>) -> Option<int>
    decreases s.len(),
{
    if s.len() == 0 {
        Some(0)
    } else {
        match (hex_value(s.drop_last()), hex_digit(s.last())) {
            (Some(n), Some(d)) => Some(n * 16 + d),
            _ => None,
        }
    }
}

/// An identifier in its hyphenated form: 32 lower-case digits in groups of
/// 8, 4, 4, 4 and 12.
pub open spec fn hyphenated(id: u128) -> Seq<char> {
    let h = hex_text(id as nat, 32);
    h.subrange(0, 8) + seq!['-'] + h.subrange(8, 12) + seq!['-'] + h.subrange(12, 16) + seq!['-']
        + h.subrange(16, 20) + seq!['-'] + h.subrange(20, 32)
}

/// The identifier that a hyphenated text stands for.
pub open spec fn hyphenated_value(s: Seq<char>) -> Option<int> {
    if s.len() == 36 && s[8] == '-' && s[13] == '-' && s[18] == '-' && s[23] == '-' {
        hex_value(
            s.subrange(0, 8) + s.subrange(9, 13) + s.subrange(14, 18) + s.subrange(19, 23)
                + s.subrange(24, 36),
        )
    } else {
        None
    }
}

/// Whether a text begins with `urn:uuid:` in either case.
pub open spec fn has_urn_prefix(s: Seq<char>) -> bool {
    &&& s.len() >= 9
    &&& (s[0] == 'u' || s[0] == 'U')
    &&& (s[1] == 'r' || s[1] == 'R')
    &&& (s[2] == 'n' || s[2] == 'N')
    &&& s[3] == ':'
    &&& (s[4] == 'u' || s[4] == 'U')
    &&& (s[5] == 'u' || s[5] == 'U')
    &&& (s[6] == 'i' || s[6] == 'I')
    &&& (s[7] == 'd' || s[7] == 'D')
    &&& s[8] == ':'
}

/// The identifier that a text stands for: 32 digits, the hyphenated form, or
/// the hyphenated form in braces or behind `urn:uuid:`.
pub open spec fn uuid_value(s: Seq<char>) -> Option<int> {
    if s.len() == 32 {
        hex_value(s)
    } else if s.len() == 36 {
        hyphenated_value(s)
    } else if s.len() == 38 && s[0] == '{' && s[37] == '}' {
        hyphenated_value(s.subrange(1, 37))
    } else if s.len() == 45 && has_urn_prefix(s) {
        hyphenated_value(s.skip(9))
    } else {
        None
    }
}

/// The digits of a number below 16 to the power of `width` stand for it.
proof fn lemma_hex_text(n: nat, width: nat)
    requires
        n < vstd::arithmetic::power::pow(16, width),
    ensures
        hex_text(n, width).len() == width,
        hex_value(hex_text(n, width)) == Some(n as int),
    decreases width,
{
    vstd::arithmetic::power::lemma_pow0(16);
    if width > 0 {
        let w = (width - 1) as nat;
        reveal_with_fuel(vstd::arithmetic::power::pow, 2);
        assert(vstd::arithmetic::power::pow(16, width) == 16 * vstd::arithmetic::power::pow(16, w));
        lemma_hex_text(n / 16, w);
        let t = hex_text(n, width);
        assert(t.drop_last() =~= hex_text(n / 16, w));
        assert(hex_digit(t.last()) == Some((n % 16) as int));
    }
}

/// An identifier's text form stands for the identifier.
pub proof fn lemma_uuid_round_trip(id: u128)
    ensures
        hyphenated(id).len() == 36,
        uuid_value(hyphenated(id)) == Some(id as int),
        forall|i: int|
            0 <= i < 36 ==> #[trigger] hyphenated(id)[i] != ':' && hyphenated(id)[i] != '/',
{
    let h = hex_text(id as nat, 32);
    vstd::arithmetic::power::lemma_pow_adds(16, 16, 16);
    assert(vstd::arithmetic::power::pow(16, 16) == 0x1_0000_0000_0000_0000) by {
        reveal_with_fuel(vstd::arithmetic::power::pow, 17);
    }
    assert(0x1_0000_0000_0000_0000int * 0x1_0000_0000_0000_0000int == u128::MAX + 1)
        by (nonlinear_arith);
    lemma_hex_text(id as nat, 32);
    let t = hyphenated(id);
    assert(t.subrange(0, 8) + t.subrange(9, 13) + t.subrange(14, 18) + t.subrange(19, 23)
        + t.subrange(24, 36) =~= h);
    assert forall|i: int| 0 <= i < 32 implies #[trigger] h[i] != ':' && h[i] != '/' by {
        lemma_hex_text_has_no_sign(id as nat, 32, i);
    }
}

/// Hexadecimal text holds neither `:` nor `/`.
proof fn lemma_hex_text_has_no_sign(n: nat, width: nat, i: int)
    requires
        0 <= i < hex_text(n, width).len(),
    ensures
        hex_text(n, width)[i] != ':',
        hex_text(n, width)[i] != '/',
    decreases width,
{
    if width > 0 {
        let p = hex_text(n / 16, (width - 1) as nat);
        if i < p.len() {
            lemma_hex_text_has_no_sign(n / 16, (width - 1) as nat, i);
        }
    }
}

/// The error of a text that is no identifier.
#[verifier::external_type_specification]
#[verifier::external_body]
pub struct ExUuidError(uuid::Error);

/// `uuid::Uuid::from_str`: claims that a text is accepted exactly where
/// `uuid_value` gives it a value, and stands for that value. Nothing is claimed
/// of what the error tells.
#[verifier::external_body]
pub(crate) fn read_uuid(s: &str) -> (r: Result<u128, uuid::Error>)
    ensures
        match r {
            Ok(id) => uuid_value(s@) == Some(id as int),
            Err(_) => uuid_value(s@) is None,
        },
{
    match s.parse::<uuid::Uuid>() {
        Ok(id) => Ok(id.as_u128()),
        Err(e) => Err(e),
    }
}

/// The `Display` of `uuid::Uuid`: claims that it is the hyphenated form.
#[verifier::external_body]
pub(crate) fn uuid_text(id: u128) -> (r: String)
    ensures
        r@ == hyphenated(id),
{
    uuid::Uuid::from_u128(id).to_string()
}

/// Whether the version field holds 7 and the variant field the RFC's.
pub open spec fn is_version_7(id: u128) -> bool {
    &&& (id / 0x1000_0000_0000_0000_0000) % 16 == 7
    &&& (id / 0x4000_0000_0000_0000) % 4 == 2
}

/// `uuid::Uuid::now_v7`: the rest of the identifier comes from the clock and
/// from chance, and nothing is claimed of it.
#[verifier::external_body]
pub(crate) fn new_uuid() -> (r: u128)
    ensures
        is_version_7(r),
{
    uuid::Uuid::now_v7().as_u128()
}

/// Reads an identifier.
pub fn parse_uuid(s: &str) -> (r: Option<u128>)
    ensures
        match r {
            Some(id) => uuid_value(s@) == Some(id as int),
            None => uuid_value(s@) is None,
        },
{
    match read_uuid(s) {
        Ok(id) => Some(id),
        Err(_) => None,
    }
}

/// An identifier is read back from the text that is written for it, and what
/// is read as one is of one of four forms: 32 digits, five groups with `-`
/// between them, and these groups in braces or behind `urn:uuid:`.
pub proof fn law_identifiers_are_read(s: &str, r: Option<u128>, id: u128)
    requires
        call_ensures(parse_uuid, (s,), r),
    ensures
        s@ == hyphenated(id) ==> r == Some(id),
        r is Some ==> s@.len() == 32 || s@.len() == 36 || s@.len() == 38 || s@.len() == 45,
        r is Some && s@.len() == 36 ==> s@[8] == '-' && s@[13] == '-' && s@[18] == '-' && s@[23]
            == '-',
        r is Some && s@.len() == 38 ==> s@[0] == '{' && s@[37] == '}',
        r is Some && s@.len() == 45 ==> s@[3] == ':' && s@[8] == ':',
        r is Some && s@.len() == 32 ==> hex_value(s@) == Some(r->0 as int),
{
    lemma_uuid_round_trip(id);
}

} // verus!
