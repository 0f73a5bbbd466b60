//! Decimal numbers as text.
use vstd::prelude::*;
use vstd::string::*;

use crate::text::chars_of;

verus! {

/// Whether a character is a decimal digit.
pub open spec fn is_digit(c: char) -> bool {
    '0' <= c <= '9'
}

/// The number that a digit stands for.
pub open spec fn digit_value(c: char) -> int {
    c as int - '0' as int
}

/// Whether every character is a decimal digit.
pub open spec fn all_digits(s: Seq<char>) -> bool {
    forall|i: int| 0 <= i < s.len() ==> is_digit(#[trigger] s[i])
}

/// The number that a sequence of digits stands for.
pub open spec fn value_of(s: Seq<char>) -> int
    decreases s.len(),
{
    if s.len() == 0 {
        0
    } else {
        value_of(s.drop_last()) * 10 + digit_value(s.last())
    }
}

/// The number that a text stands for as an integer that lies between 0 and
/// `max`: one or more digits, with a `+` before them or not.
pub open spec fn unsigned_value(s: Seq<char>, max: int) -> Option<int> {
    let body = if s.len() > 0 && s[0] == '+' {
        s.skip(1)
    } else {
        s
    };
    if body.len() > 0 && all_digits(body) && value_of(body) <= max {
        Some(value_of(body))
    } else {
        None
    }
}

/// The number that a text stands for as an integer between `min` and `max`:
/// one or more digits, with a `+` or a `-` before them or not.
pub open spec fn signed_value(s: Seq<char>, min: int, max: int) -> Option<int> {
    if s.len() > 0 && s[0] == '-' {
        let body = s.skip(1);
        if body.len() > 0 && all_digits(body) && min <= -value_of(body) {
            Some(-value_of(body))
        } else {
            None
        }
    } else {
        unsigned_value(s, max)
    }
}

/// The decimal digits of a number, without leading zeros.
pub open spec fn digits(n: nat) -> Seq<char>
    decreases n,
{
    if n < 10 {
        seq![digit_char(n as int)]
    } else {
        digits(n / 10).push(digit_char((n % 10) as int))
    }
}

/// The digit that stands for a number below ten.
pub open spec fn digit_char(d: int) -> char {
    ('0' as int + d) as char
}

/// A number in decimal notation, with a `-` before it where it is negative.
pub open spec fn signed_digits(i: int) -> Seq<char> {
    if i < 0 {
        seq!['-'] + digits((-i) as nat)
    } else {
        digits(i as nat)
    }
}

/// Reading back the digits of a number gives the number.
pub proof fn lemma_digits(n: nat)
    ensures
        digits(n).len() > 0,
        all_digits(digits(n)),
        value_of(digits(n)) == n,
    decreases n,
{
    if n < 10 {
        assert(digits(n).drop_last() =~= Seq::<char>::empty());
        assert(value_of(Seq::<char>::empty()) == 0);
    } else {
        lemma_digits(n / 10);
        let d = digit_char((n % 10) as int);
        assert(digits(n).drop_last() =~= digits(n / 10));
        assert(digits(n).last() == d);
        assert forall|i: int| 0 <= i < digits(n).len() implies is_digit(#[trigger] digits(n)[i]) by {
            if i < digits(n / 10).len() {
                assert(digits(n)[i] == digits(n / 10)[i]);
            }
        }
    }
}

/// Reading a number's own notation gives the number.
pub proof fn lemma_unsigned_round_trip(n: nat, max: int)
    requires
        n <= max,
    ensures
        unsigned_value(digits(n), max) == Some(n as int),
{
    lemma_digits(n);
    assert(is_digit(digits(n)[0]));
}

/// Reading a signed number's own notation gives the number.
pub proof fn lemma_signed_round_trip(i: int, min: int, max: int)
    requires
        min <= i <= max,
    ensures
        signed_value(signed_digits(i), min, max) == Some(i),
{
    if i < 0 {
        lemma_digits((-i) as nat);
        assert(signed_digits(i).skip(1) =~= digits((-i) as nat));
    } else {
        lemma_unsigned_round_trip(i as nat, max);
        lemma_digits(i as nat);
        assert(is_digit(digits(i as nat)[0]));
    }
}

/// A sequence of digits stands for a number no smaller than its beginning
/// does.
proof fn lemma_value_grows(s: Seq<char>, k: int)
    requires
        all_digits(s),
        0 <= k <= s.len(),
    ensures
        0 <= value_of(s.take(k)) <= value_of(s),
    decreases s.len(),
{
    if s.len() == 0 {
        assert(s.take(k) =~= s);
    } else {
        let p = s.drop_last();
        assert forall|i: int| 0 <= i < p.len() implies is_digit(#[trigger] p[i]) by {
            assert(p[i] == s[i]);
        }
        assert(is_digit(s[s.len() - 1]));
        if k == s.len() {
            assert(s.take(k) =~= s);
            lemma_value_grows(p, p.len() as int);
            assert(p.take(p.len() as int) =~= p);
        } else {
            lemma_value_grows(p, k);
            assert(p.take(k) =~= s.take(k));
        }
    }
}

/// The number that the characters from `from` on stand for, if they are digits
/// and the number is at most `max`.
fn read_digits(v: &Vec<char>, from: usize, max: u64) -> (r: Option<u64>)
    requires
        from <= v.len(),
    ensures
        ({
            let body = v@.skip(from as int);
            match r {
                Some(n) => body.len() > 0 && all_digits(body) && value_of(body) == n && n <= max,
                None => !(body.len() > 0 && all_digits(body) && value_of(body) <= max),
            }
        }),
{
    let ghost body = v@.skip(from as int);
    if from == v.len() {
        return None;
    }
    let mut acc: u64 = 0;
    let mut i: usize = from;
    while i < v.len()
        invariant
            from <= i <= v.len(),
            body == v@.skip(from as int),
            forall|j: int| 0 <= j < i - from ==> is_digit(#[trigger] body[j]),
            acc == value_of(body.take(i - from)),
            acc <= max,
        decreases v.len() - i,
    {
        let c: char = v[i];
        proof {
            assert(body[i - from] == c);
            assert(body.take(i - from + 1).drop_last() =~= body.take(i - from));
        }
        if c < '0' || '9' < c {
            assert(!is_digit(body[i - from]));
            return None;
        }
        let d: u64 = (c as u32 - '0' as u32) as u64;
        let next: u128 = acc as u128 * 10 + d as u128;
        assert(next == value_of(body.take(i - from + 1)));
        if next > max as u128 {
            proof {
                if all_digits(body) {
                    lemma_value_grows(body, i - from + 1);
                }
            }
            return None;
        }
        acc = next as u64;
        i = i + 1;
    }
    assert(body.take(body.len() as int) =~= body);
    Some(acc)
}

/// Reads a text as an integer between 0 and `max`.
pub fn parse_unsigned(s: &str, max: u64) -> (r: Option<u64>)
    ensures
        match r {
            Some(n) => unsigned_value(s@, max as int) == Some(n as int),
            None => unsigned_value(s@, max as int) is None,
        },
{
    let v = chars_of(s);
    if v.len() > 0 && v[0] == '+' {
        read_digits(&v, 1, max)
    } else {
        assert(v@.skip(0) =~= v@);
        read_digits(&v, 0, max)
    }
}

/// Reads a text as an integer between `-neg_max` and `max`.
fn parse_signed(s: &str, neg_max: u32, max: u32) -> (r: Option<i64>)
    ensures
        match r {
            Some(n) => signed_value(s@, -(neg_max as int), max as int) == Some(n as int) && -(
            neg_max as int) <= n <= max,
            None => signed_value(s@, -(neg_max as int), max as int) is None,
        },
{
    let v = chars_of(s);
    if v.len() > 0 && v[0] == '-' {
        match read_digits(&v, 1, neg_max as u64) {
            Some(n) => Some(-(n as i64)),
            None => None,
        }
    } else {
        match parse_unsigned(s, max as u64) {
            Some(n) => Some(n as i64),
            None => None,
        }
    }
}

/// Reads a text as a `u64`.
pub fn parse_u64(s: &str) -> (r: Option<u64>)
    ensures
        match r {
            Some(n) => unsigned_value(s@, u64::MAX as int) == Some(n as int),
            None => unsigned_value(s@, u64::MAX as int) is None,
        },
{
    parse_unsigned(s, u64::MAX)
}

/// Reads a text as a `u32`.
pub fn parse_u32(s: &str) -> (r: Option<u32>)
    ensures
        match r {
            Some(n) => unsigned_value(s@, u32::MAX as int) == Some(n as int),
            None => unsigned_value(s@, u32::MAX as int) is None,
        },
{
    match parse_unsigned(s, u32::MAX as u64) {
        Some(n) => Some(n as u32),
        None => None,
    }
}

/// Reads a text as an `i32`.
pub fn parse_i32(s: &str) -> (r: Option<i32>)
    ensures
        match r {
            Some(n) => signed_value(s@, i32::MIN as int, i32::MAX as int) == Some(n as int),
            None => signed_value(s@, i32::MIN as int, i32::MAX as int) is None,
        },
{
    match parse_signed(s, 0x8000_0000, 0x7fff_ffff) {
        Some(n) => Some(n as i32),
        None => None,
    }
}

/// Reads a text as an `i16`.
pub fn parse_i16(s: &str) -> (r: Option<i16>)
    ensures
        match r {
            Some(n) => signed_value(s@, i16::MIN as int, i16::MAX as int) == Some(n as int),
            None => signed_value(s@, i16::MIN as int, i16::MAX as int) is None,
        },
{
    match parse_signed(s, 0x8000, 0x7fff) {
        Some(n) => Some(n as i16),
        None => None,
    }
}

/// Why a text is no number of a kind.
#[derive(Clone, Copy, Debug, PartialEq, Eq, Structural)]
pub enum IntFault {
    Empty,
    InvalidDigit,
    TooLarge,
    TooSmall,
}

impl IntFault {
    /// The fault in words.
    pub open spec fn text(self) -> Seq<char> {
        match self {
            IntFault::Empty => "cannot parse integer from empty string"@,
            IntFault::InvalidDigit => "invalid digit found in string"@,
            IntFault::TooLarge => "number too large to fit in target type"@,
            IntFault::TooSmall => "number too small to fit in target type"@,
        }
    }

    /// The fault in words.
    pub fn message(self) -> (r: &'static str)
        ensures
            r@ == self.text(),
    {
        match self {
            IntFault::Empty => "cannot parse integer from empty string",
            IntFault::InvalidDigit => "invalid digit found in string",
            IntFault::TooLarge => "number too large to fit in target type",
            IntFault::TooSmall => "number too small to fit in target type",
        }
    }
}

/// The digits that a text begins with.
pub open spec fn leading_digits(s: Seq<char>) -> Seq<char>
    decreases s.len(),
{
    if s.len() > 0 && is_digit(s[0]) {
        seq![s[0]] + leading_digits(s.skip(1))
    } else {
        Seq::empty()
    }
}

/// Whether the digits that a text begins with exceed a number. What follows
/// them is not looked at any more.
pub open spec fn runs_over(s: Seq<char>, max: int) -> bool {
    value_of(leading_digits(s)) > max
}

/// What is wrong with a text that is no integer between 0 and some number,
/// told in the order in which it is read.
pub open spec fn unsigned_fault(s: Seq<char>, max: int) -> IntFault {
    if s.len() == 0 {
        IntFault::Empty
    } else if runs_over(
        if s[0] == '+' {
            s.skip(1)
        } else {
            s
        },
        max,
    ) {
        IntFault::TooLarge
    } else {
        IntFault::InvalidDigit
    }
}

/// What is wrong with a text that is no integer between two numbers.
pub open spec fn signed_fault(s: Seq<char>, min: int, max: int) -> IntFault {
    if s.len() > 0 && s[0] == '-' {
        if runs_over(s.skip(1), -min) {
            IntFault::TooSmall
        } else {
            IntFault::InvalidDigit
        }
    } else {
        unsigned_fault(s, max)
    }
}

/// The digits that a text begins with are its longest beginning of digits.
proof fn lemma_leading_digits(s: Seq<char>, k: int)
    requires
        0 <= k <= s.len(),
        forall|i: int| 0 <= i < k ==> is_digit(#[trigger] s[i]),
        k == s.len() || !is_digit(s[k]),
    ensures
        leading_digits(s) == s.take(k),
    decreases k,
{
    if k == 0 {
        assert(leading_digits(s) =~= s.take(k));
    } else {
        let t = s.skip(1);
        assert(is_digit(s[0]));
        assert forall|i: int| 0 <= i < k - 1 implies is_digit(#[trigger] t[i]) by {
            assert(t[i] == s[i + 1]);
        }
        if k < s.len() {
            assert(t[k - 1] == s[k]);
        }
        lemma_leading_digits(t, k - 1);
        assert(leading_digits(s) =~= s.take(k));
    }
}

/// Whether the digits from `from` on exceed a number.
fn exceeds(v: &Vec<char>, from: usize, max: u64) -> (r: bool)
    requires
        from <= v.len(),
    ensures
        r == runs_over(v@.skip(from as int), max as int),
{
    let ghost body = v@.skip(from as int);
    let mut acc: u64 = 0;
    let mut i: usize = from;
    assert(body.take(0) =~= Seq::<char>::empty());
    while i < v.len() && '0' <= v[i] && v[i] <= '9'
        invariant
            from <= i <= v.len(),
            body == v@.skip(from as int),
            forall|j: int| 0 <= j < i - from ==> is_digit(#[trigger] body[j]),
            acc == value_of(body.take(i - from)),
            acc <= max,
        ensures
            from <= i <= v.len(),
            forall|j: int| 0 <= j < i - from ==> is_digit(#[trigger] body[j]),
            acc == value_of(body.take(i - from)),
            acc <= max,
            i == v.len() || !is_digit(body[i - from]),
        decreases v.len() - i,
    {
        let c: char = v[i];
        proof {
            assert(body[i - from] == c);
            assert(body.take(i - from + 1).drop_last() =~= body.take(i - from));
        }
        let d: u64 = (c as u32 - '0' as u32) as u64;
        let next: u128 = acc as u128 * 10 + d as u128;
        assert(next == value_of(body.take(i - from + 1)));
        if next > max as u128 {
            proof {
                lemma_long_prefix(body, i - from + 1);
            }
            return true;
        }
        acc = next as u64;
        i = i + 1;
    }
    proof {
        lemma_leading_digits(body, i - from);
    }
    false
}

/// A beginning of digits stands for no more than all the leading digits.
proof fn lemma_long_prefix(s: Seq<char>, k: int)
    requires
        0 <= k <= s.len(),
        forall|i: int| 0 <= i < k ==> is_digit(#[trigger] s[i]),
    ensures
        value_of(s.take(k)) <= value_of(leading_digits(s)),
    decreases s.len() - k,
{
    if k == s.len() || !is_digit(s[k]) {
        lemma_leading_digits(s, k);
    } else {
        let t = s.take(k + 1);
        assert(t.drop_last() =~= s.take(k));
        assert forall|i: int| 0 <= i < s.take(k).len() implies is_digit(#[trigger] s.take(k)[i]) by {
            assert(s.take(k)[i] == s[i]);
        }
        lemma_value_grows(s.take(k), k);
        assert(s.take(k).take(k) =~= s.take(k));
        assert(value_of(s.take(k)) <= value_of(t));
        lemma_long_prefix(s, k + 1);
    }
}

/// What is wrong with a text that is no integer between 0 and `max`.
pub fn describe_unsigned(s: &str, max: u64) -> (r: IntFault)
    ensures
        r == unsigned_fault(s@, max as int),
{
    let v = chars_of(s);
    if v.len() == 0 {
        return IntFault::Empty;
    }
    let over = if v[0] == '+' {
        exceeds(&v, 1, max)
    } else {
        assert(v@.skip(0) =~= v@);
        exceeds(&v, 0, max)
    };
    if over {
        IntFault::TooLarge
    } else {
        IntFault::InvalidDigit
    }
}

/// What is wrong with a text that is no integer between `-neg_max` and `max`.
pub fn describe_signed(s: &str, neg_max: u32, max: u32) -> (r: IntFault)
    ensures
        r == signed_fault(s@, -(neg_max as int), max as int),
{
    let v = chars_of(s);
    if v.len() > 0 && v[0] == '-' {
        if exceeds(&v, 1, neg_max as u64) {
            IntFault::TooSmall
        } else {
            IntFault::InvalidDigit
        }
    } else {
        describe_unsigned(s, max as u64)
    }
}

/// The digit that stands for a number below ten, as a string.
fn digit_text(d: u64) -> (r: &'static str)
    requires
        d < 10,
    ensures
        r@ == seq![digit_char(d as int)],
{
    proof {
        reveal_strlit("0");
        reveal_strlit("1");
        reveal_strlit("2");
        reveal_strlit("3");
        reveal_strlit("4");
        reveal_strlit("5");
        reveal_strlit("6");
        reveal_strlit("7");
        reveal_strlit("8");
        reveal_strlit("9");
    }
    if d == 0 {
        "0"
    } else if d == 1 {
        "1"
    } else if d == 2 {
        "2"
    } else if d == 3 {
        "3"
    } else if d == 4 {
        "4"
    } else if d == 5 {
        "5"
    } else if d == 6 {
        "6"
    } else if d == 7 {
        "7"
    } else if d == 8 {
        "8"
    } else {
        "9"
    }
}

/// A number in decimal notation.
pub fn unsigned_text(n: u64) -> (r: String)
    ensures
        r@ == digits(n as nat),
    decreases n,
{
    if n < 10 {
        digit_text(n).to_owned()
    } else {
        let mut r = unsigned_text(n / 10);
        r.append(digit_text(n % 10));
        assert(r@ =~= digits(n as nat));
        r
    }
}

/// A signed number in decimal notation.
pub fn signed_text(i: i64) -> (r: String)
    ensures
        r@ == signed_digits(i as int),
{
    if i < 0 {
        proof {
            reveal_strlit("-");
        }
        let mut r = "-".to_owned();
        let magnitude: u64 = (-(i as i128)) as u64;
        let d = unsigned_text(magnitude);
        r.append(d.as_str());
        assert(r@ =~= signed_digits(i as int));
        r
    } else {
        unsigned_text(i as u64)
    }
}

/// Decimal notation: each further digit counts its own value and makes the
/// ones before it count ten times as much, and a number has no leading zero.
pub proof fn law_decimal_notation(s: Seq<char>, c: char, n: nat)
    ensures
        value_of(Seq::<char>::empty()) == 0,
        value_of(s.push(c)) == value_of(s) * 10 + (c as int - '0' as int),
        value_of(digits(n)) == n,
        all_digits(digits(n)),
        n < 10 ==> digits(n).len() == 1,
        n >= 10 ==> digits(n)[0] != '0',
{
    lemma_digits(n);
    assert(s.push(c).drop_last() =~= s);
    lemma_no_leading_zero(n);
}

/// The digits of a number other than zero begin with another digit than zero.
proof fn lemma_no_leading_zero(n: nat)
    ensures
        n > 0 ==> digits(n)[0] != '0',
        digits(n).len() > 0,
    decreases n,
{
    if n >= 10 {
        lemma_no_leading_zero(n / 10);
        assert(digits(n)[0] == digits(n / 10)[0]);
    }
}

/// A number is read from its notation, with a `+` before it or not, exactly
/// where it does not exceed the greatest that is asked for; nothing is read
/// from an empty text, nor from one that holds anything but digits behind its
/// first character.
pub proof fn law_reading_unsigned(s: &str, max: u64, r: Option<u64>, n: nat, i: int)
    requires
        call_ensures(parse_unsigned, (s, max), r),
    ensures
        r matches Some(k) ==> k <= max,
        s@ == digits(n) || s@ == seq!['+'] + digits(n) ==> (n <= max ==> r == Some(n as u64)) && (n
            > max ==> r is None),
        s@.len() == 0 ==> r is None,
        0 < i < s@.len() && !('0' <= s@[i] <= '9') ==> r is None,
{
    lemma_digits(n);
    assert(is_digit(digits(n)[0]));
    if s@ == seq!['+'] + digits(n) {
        assert(s@.skip(1) =~= digits(n));
    }
    if 0 < i < s@.len() && !('0' <= s@[i] <= '9') {
        assert(!is_digit(s@[i]));
        assert(s@.skip(1)[i - 1] == s@[i]);
    }
}

/// A signed number is read from its notation exactly where it lies in the
/// range of its type.
pub proof fn law_reading_signed(
    s: &str,
    small: Option<i16>,
    large: Option<i32>,
    narrow: Option<u32>,
    wide: Option<u64>,
    n: int,
)
    requires
        call_ensures(parse_i16, (s,), small),
        call_ensures(parse_i32, (s,), large),
        call_ensures(parse_u32, (s,), narrow),
        call_ensures(parse_u64, (s,), wide),
        s@ == signed_digits(n),
    ensures
        small == (if -0x8000 <= n <= 0x7fff {
            Some(n as i16)
        } else {
            None
        }),
        large == (if -0x8000_0000 <= n <= 0x7fff_ffff {
            Some(n as i32)
        } else {
            None
        }),
        narrow == (if 0 <= n <= 0xffff_ffff {
            Some(n as u32)
        } else {
            None
        }),
        wide == (if 0 <= n <= 0xffff_ffff_ffff_ffff {
            Some(n as u64)
        } else {
            None
        }),
{
    let m = if n < 0 {
        (-n) as nat
    } else {
        n as nat
    };
    lemma_digits(m);
    assert(is_digit(digits(m)[0]));
    if n < 0 {
        assert(s@.skip(1) =~= digits(m));
        assert(!is_digit(s@[0]));
    }
}

/// What is told of a text that is no number: that it is empty, that the number
/// is too great or too small, and otherwise that it holds something that is no
/// digit.
pub proof fn law_faults(
    s: &str,
    max: u64,
    neg_max: u32,
    limit: u32,
    unsigned: IntFault,
    signed: IntFault,
    n: nat,
)
    requires
        call_ensures(describe_unsigned, (s, max), unsigned),
        call_ensures(describe_signed, (s, neg_max, limit), signed),
    ensures
        s@.len() == 0 ==> unsigned is Empty && signed is Empty,
        s@ == digits(n) && n > max ==> unsigned is TooLarge,
        s@ == digits(n) && n > limit ==> signed is TooLarge,
        s@ == seq!['-'] + digits(n) && n > neg_max ==> signed is TooSmall,
        s@.len() > 0 && s@[0] != '+' && s@[0] != '-' && !('0' <= s@[0] <= '9') ==> unsigned
            is InvalidDigit && signed is InvalidDigit,
{
    lemma_digits(n);
    let d = digits(n);
    assert(is_digit(d[0]));
    assert forall|i: int| 0 <= i < d.len() implies is_digit(#[trigger] d[i]) by {}
    lemma_leading_digits(d, d.len() as int);
    assert(d.take(d.len() as int) =~= d);
    if s@ == seq!['-'] + d {
        assert(s@.skip(1) =~= d);
    }
    assert(value_of(Seq::<char>::empty()) == 0);
}

/// The faults in words.
pub proof fn law_fault_texts(fault: IntFault, t: &'static str)
    requires
        call_ensures(IntFault::message, (fault,), t),
    ensures
        fault is Empty ==> t@ == "cannot parse integer from empty string"@,
        fault is InvalidDigit ==> t@ == "invalid digit found in string"@,
        fault is TooLarge ==> t@ == "number too large to fit in target type"@,
        fault is TooSmall ==> t@ == "number too small to fit in target type"@,
{
}

/// Numbers are written in their notation: what is written is read back.
pub proof fn law_writing(n: u64, i: i64, t: String, u: String)
    requires
        call_ensures(unsigned_text, (n,), t),
        call_ensures(signed_text, (i,), u),
    ensures
        all_digits(t@) && value_of(t@) == n,
        i >= 0 ==> all_digits(u@) && value_of(u@) == i,
        i < 0 ==> u@[0] == '-' && all_digits(u@.skip(1)) && value_of(u@.skip(1)) == -i,
{
    lemma_digits(n as nat);
    if i >= 0 {
        lemma_digits(i as nat);
    } else {
        lemma_digits((-i) as nat);
        assert(u@.skip(1) =~= digits((-i) as nat));
    }
}

/// What is read as a number without a sign: a text of one or more digits, with
/// a `+` before them or not and with leading zeros or not, whose number does
/// not exceed the greatest; that number is what is read.
pub proof fn law_what_is_read_unsigned(
    s: &str,
    body: Seq<char>,
    max: u64,
    r: Option<u64>,
    wide: Option<u64>,
    narrow: Option<u32>,
)
    requires
        call_ensures(parse_unsigned, (s, max), r),
        call_ensures(parse_u64, (s,), wide),
        call_ensures(parse_u32, (s,), narrow),
        s@.len() > 0 && s@[0] == '+' ==> s@ == seq!['+'] + body,
        !(s@.len() > 0 && s@[0] == '+') ==> s@ == body,
    ensures
        ({
            let number = body.len() > 0 && forall|i: int|
                0 <= i < body.len() ==> '0' <= #[trigger] body[i] <= '9';
            &&& r is Some <==> number && value_of(body) <= max
            &&& r is Some ==> r->0 == value_of(body)
            &&& wide is Some <==> number && value_of(body) <= 0xffff_ffff_ffff_ffff
            &&& wide is Some ==> wide->0 == value_of(body)
            &&& narrow is Some <==> number && value_of(body) <= 0xffff_ffff
            &&& narrow is Some ==> narrow->0 == value_of(body)
        }),
{
    if s@.len() > 0 && s@[0] == '+' {
        assert(s@.skip(1) =~= body);
    }
    assert(all_digits(body) <==> forall|i: int|
        0 <= i < body.len() ==> '0' <= #[trigger] body[i] <= '9') by {
        if all_digits(body) {
            assert forall|i: int| 0 <= i < body.len() implies '0' <= #[trigger] body[i] <= '9' by {
                assert(is_digit(body[i]));
            }
        }
    }
}

/// What is read as a number with a sign: digits with a `-` before them stand
/// for the number below zero, and every other text for what it stands for
/// without a sign; either is read where the type can hold it.
pub proof fn law_what_is_read_signed(
    s: &str,
    body: Seq<char>,
    large: Option<i32>,
    small: Option<i16>,
    wide: Option<u64>,
)
    requires
        call_ensures(parse_i32, (s,), large),
        call_ensures(parse_i16, (s,), small),
        call_ensures(parse_u64, (s,), wide),
        s@.len() > 0 && s@[0] == '-' ==> s@ == seq!['-'] + body,
    ensures
        s@.len() > 0 && s@[0] == '-' ==> {
            let number = body.len() > 0 && forall|i: int|
                0 <= i < body.len() ==> '0' <= #[trigger] body[i] <= '9';
            &&& large is Some <==> number && value_of(body) <= 0x8000_0000
            &&& large is Some ==> large->0 == -value_of(body)
            &&& small is Some <==> number && value_of(body) <= 0x8000
            &&& small is Some ==> small->0 == -value_of(body)
        },
        !(s@.len() > 0 && s@[0] == '-') ==> {
            &&& large is Some <==> wide is Some && wide->0 <= 0x7fff_ffff
            &&& large is Some ==> large->0 == wide->0
            &&& small is Some <==> wide is Some && wide->0 <= 0x7fff
            &&& small is Some ==> small->0 == wide->0
        },
{
    if s@.len() > 0 && s@[0] == '-' {
        assert(s@.skip(1) =~= body);
        assert(all_digits(body) <==> forall|i: int|
            0 <= i < body.len() ==> '0' <= #[trigger] body[i] <= '9') by {
            if all_digits(body) {
                assert forall|i: int| 0 <= i < body.len() implies '0' <= #[trigger] body[i]
                    <= '9' by {
                    assert(is_digit(body[i]));
                }
            }
        }
    }
}

/// What is told of a text that is no number, for every text that is not empty:
/// the digits up to the first character that is none decide. Where they exceed
/// the greatest number it is too large, behind a `-` too small, and otherwise
/// there is something that is no digit.
pub proof fn law_leading_digits_decide(
    s: &str,
    max: u64,
    neg_max: u32,
    limit: u32,
    unsigned: IntFault,
    signed: IntFault,
    a: Seq<char>,
    b: Seq<char>,
)
    requires
        call_ensures(describe_unsigned, (s, max), unsigned),
        call_ensures(describe_signed, (s, neg_max, limit), signed),
        forall|i: int| 0 <= i < a.len() ==> '0' <= #[trigger] a[i] <= '9',
        b.len() > 0 ==> !('0' <= b[0] <= '9'),
    ensures
        (s@ == a + b && s@.len() > 0 && s@[0] != '+' && s@[0] != '-') || s@ == seq!['+'] + (a + b)
            ==> {
            &&& unsigned is TooLarge <==> value_of(a) > max
            &&& unsigned is InvalidDigit <==> value_of(a) <= max
            &&& signed is TooLarge <==> value_of(a) > limit
            &&& signed is InvalidDigit <==> value_of(a) <= limit
        },
        s@ == seq!['-'] + (a + b) ==> {
            &&& signed is TooSmall <==> value_of(a) > neg_max
            &&& signed is InvalidDigit <==> value_of(a) <= neg_max
            &&& unsigned is InvalidDigit
        },
{
    let t = a + b;
    assert forall|i: int| 0 <= i < a.len() implies is_digit(#[trigger] t[i]) by {
        assert(t[i] == a[i]);
    }
    lemma_leading_digits(t, a.len() as int);
    assert(t.take(a.len() as int) =~= a);
    if s@ == seq!['+'] + t || s@ == seq!['-'] + t {
        assert(s@.skip(1) =~= t);
    }
    if s@ == seq!['-'] + t {
        assert(!is_digit(s@[0]));
        assert(leading_digits(s@).len() == 0);
        assert(value_of(Seq::<char>::empty()) == 0);
        assert(leading_digits(s@) =~= Seq::<char>::empty());
    }
}

} // verus!
