//! Text: comparison, search and splitting.
use vstd::prelude::*;
use vstd::string::*;

verus! {

/// What an optional string holds.
pub open spec fn text_of(o: Option<String>) -> Option<Seq<char>> {
    match o {
        Some(s) => Some(s@),
        None => None,
    }
}

/// What a sequence of strings holds, item by item.
pub open spec fn texts(v: Seq<String>) -> Seq<Seq<char>> {
    v.map_values(|s: String| s@)
}

/// The texts of a sequence of strings are as many as the strings, each at its
/// own place.
pub proof fn lemma_texts(v: Seq<String>)
    ensures
        texts(v).len() == v.len(),
        forall|i: int| 0 <= i < v.len() ==> texts(v)[i] == #[trigger] v[i]@,
{
}

/// Whether two strings hold the same characters.
pub fn same_text(a: &str, b: &str) -> (r: bool)
    ensures
        r == (a@ == b@),
{
    a.to_owned() == b.to_owned()
}

/// The characters of a string.
pub fn chars_of(s: &str) -> (v: Vec<char>)
    ensures
        v@ == s@,
{
    let mut v: Vec<char> = Vec::new();
    for c in it: s.chars()
        invariant
            it.seq() == s@,
            v@ == s@.take(it.index()),
    {
        v.push(c);
        assert(s@.take(it.index() + 1) =~= s@.take(it.index()).push(c));
    }
    assert(s@.take(s@.len() as int) =~= s@);
    v
}

/// The first position of `c` in `s`.
pub open spec fn first_position(s: Seq<char>, c: char) -> Option<int>
    decreases s.len(),
{
    if s.len() == 0 {
        None
    } else if s[0] == c {
        Some(0)
    } else {
        match first_position(s.skip(1), c) {
            Some(i) => Some(i + 1),
            None => None,
        }
    }
}

/// `first_position` names the least index that holds `c`.
pub proof fn lemma_first_position(s: Seq<char>, c: char)
    ensures
        match first_position(s, c) {
            Some(i) => 0 <= i < s.len() && s[i] == c && forall|j: int| 0 <= j < i ==> s[j] != c,
            None => forall|j: int| 0 <= j < s.len() ==> s[j] != c,
        },
    decreases s.len(),
{
    if s.len() > 0 && s[0] != c {
        lemma_first_position(s.skip(1), c);
        assert forall|j: int| 1 <= j < s.len() implies s[j] == s.skip(1)[j - 1] by {}
    }
}

/// The text before and after the first `c`, if there is one.
pub open spec fn split_at_first(s: Seq<char>, c: char) -> Option<(Seq<char>, Seq<char>)> {
    match first_position(s, c) {
        Some(i) => Some((s.take(i), s.skip(i + 1))),
        None => None,
    }
}

/// Splits a string at the first `c`.
pub fn split_once<'a>(s: &'a str, c: char) -> (r: Option<(&'a str, &'a str)>)
    ensures
        match r {
            Some(p) => split_at_first(s@, c) == Some((p.0@, p.1@)),
            None => split_at_first(s@, c) is None,
        },
{
    let v = chars_of(s);
    proof {
        lemma_first_position(s@, c);
    }
    let mut i: usize = 0;
    while i < v.len()
        invariant
            v@ == s@,
            i <= v.len(),
            forall|j: int| 0 <= j < i ==> s@[j] != c,
            match first_position(s@, c) {
                Some(k) => 0 <= k < s@.len() && s@[k] == c && forall|j: int|
                    0 <= j < k ==> s@[j] != c,
                None => forall|j: int| 0 <= j < s@.len() ==> s@[j] != c,
            },
        decreases v.len() - i,
    {
        if v[i] == c {
            let before = s.substring_char(0, i);
            let after = s.substring_char(i + 1, v.len());
            assert(first_position(s@, c) == Some(i as int));
            assert(before@ =~= s@.take(i as int));
            assert(after@ =~= s@.skip(i + 1));
            return Some((before, after));
        }
        i = i + 1;
    }
    None
}

/// The pieces of a text between the occurrences of `c`.
pub open spec fn pieces(s: Seq<char>, c: char) -> Seq<Seq<char>>
    decreases s.len(),
{
    match first_position(s, c) {
        Some(i) => if 0 <= i < s.len() {
            seq![s.take(i)] + pieces(s.skip(i + 1), c)
        } else {
            seq![s]
        },
        None => seq![s],
    }
}

/// Whether `c` does not occur in `s`.
pub open spec fn lacks(s: Seq<char>, c: char) -> bool {
    forall|i: int| 0 <= i < s.len() ==> #[trigger] s[i] != c
}

/// A text without `c` is one piece.
pub proof fn lemma_one_piece(s: Seq<char>, c: char)
    requires
        lacks(s, c),
    ensures
        pieces(s, c) == seq![s],
{
    lemma_first_position(s, c);
}

/// The text before the first `c` is the first piece.
pub proof fn lemma_first_piece(a: Seq<char>, b: Seq<char>, c: char)
    requires
        lacks(a, c),
    ensures
        pieces(a + seq![c] + b, c) == seq![a] + pieces(b, c),
{
    let s = a + seq![c] + b;
    lemma_first_position(s, c);
    assert(s[a.len() as int] == c);
    assert forall|j: int| 0 <= j < a.len() implies s[j] != c by {
        assert(s[j] == a[j]);
    }
    assert(first_position(s, c) == Some(a.len() as int));
    assert(s.take(a.len() as int) =~= a);
    assert(s.skip(a.len() as int + 1) =~= b);
}

/// No piece holds the character that the pieces stand between.
pub proof fn lemma_pieces_lack(s: Seq<char>, c: char)
    ensures
        forall|i: int| 0 <= i < pieces(s, c).len() ==> lacks(#[trigger] pieces(s, c)[i], c),
    decreases s.len(),
{
    lemma_first_position(s, c);
    if let Some(k) = first_position(s, c) {
        let rest = pieces(s.skip(k + 1), c);
        lemma_pieces_lack(s.skip(k + 1), c);
        assert(pieces(s, c) == seq![s.take(k)] + rest);
        assert forall|i: int| 0 <= i < pieces(s, c).len() implies lacks(
            #[trigger] pieces(s, c)[i],
            c,
        ) by {
            if i > 0 {
                assert(pieces(s, c)[i] == rest[i - 1]);
            }
        }
    }
}

/// Whether `needle` occurs in `hay`.
pub open spec fn occurs(hay: Seq<char>, needle: Seq<char>) -> bool {
    exists|i: int|
        0 <= i && i + needle.len() <= hay.len() && #[trigger] hay.subrange(i, i + needle.len())
            == needle
}

/// Whether the characters of `needle` stand in `hay` from position `at` on.
fn stands_at(hay: &Vec<char>, needle: &Vec<char>, at: usize) -> (r: bool)
    requires
        at + needle.len() <= hay.len(),
    ensures
        r == (hay@.subrange(at as int, at + needle.len()) == needle@),
{
    let mut i: usize = 0;
    while i < needle.len()
        invariant
            at + needle.len() <= hay.len(),
            i <= needle.len(),
            forall|j: int| 0 <= j < i ==> hay@[at + j] == needle@[j],
        decreases needle.len() - i,
    {
        if hay[at + i] != needle[i] {
            assert(hay@.subrange(at as int, at + needle.len())[i as int] != needle@[i as int]);
            return false;
        }
        i = i + 1;
    }
    assert(hay@.subrange(at as int, at + needle.len()) =~= needle@);
    true
}

/// Whether `needle` occurs in `hay`.
pub fn contains(hay: &str, needle: &str) -> (r: bool)
    ensures
        r == occurs(hay@, needle@),
{
    let h = chars_of(hay);
    let n = chars_of(needle);
    if n.len() > h.len() {
        return false;
    }
    let last: usize = h.len() - n.len();
    let mut i: usize = 0;
    while i <= last
        invariant
            h@ == hay@,
            n@ == needle@,
            last + n.len() == h.len(),
            i <= last + 1,
            forall|j: int|
                0 <= j < i ==> #[trigger] hay@.subrange(j, j + needle@.len()) != needle@,
        decreases last + 1 - i,
    {
        if stands_at(&h, &n, i) {
            return true;
        }
        if i == last {
            return false;
        }
        i = i + 1;
    }
    false
}

/// The characters with the Unicode property White_Space.
pub open spec fn is_white_space(c: char) -> bool {
    ||| '\u{9}' <= c <= '\u{d}'
    ||| c == ' '
    ||| c == '\u{85}'
    ||| c == '\u{a0}'
    ||| c == '\u{1680}'
    ||| '\u{2000}' <= c <= '\u{200a}'
    ||| c == '\u{2028}'
    ||| c == '\u{2029}'
    ||| c == '\u{202f}'
    ||| c == '\u{205f}'
    ||| c == '\u{3000}'
}

/// Whether a string holds nothing but white space.
pub open spec fn blank(s: Seq<char>) -> bool {
    forall|i: int| 0 <= i < s.len() ==> is_white_space(#[trigger] s[i])
}

/// Whether a character has the property White_Space.
fn white_space(c: char) -> (r: bool)
    ensures
        r == is_white_space(c),
{
    ('\u{9}' <= c && c <= '\u{d}') || c == ' ' || c == '\u{85}' || c == '\u{a0}' || c == '\u{1680}'
        || ('\u{2000}' <= c && c <= '\u{200a}') || c == '\u{2028}' || c == '\u{2029}' || c
        == '\u{202f}' || c == '\u{205f}' || c == '\u{3000}'
}

/// Whether a string is empty or holds nothing but white space.
pub fn is_blank(s: &str) -> (r: bool)
    ensures
        r == blank(s@),
{
    let v = chars_of(s);
    let mut i: usize = 0;
    while i < v.len()
        invariant
            v@ == s@,
            i <= v.len(),
            forall|j: int| 0 <= j < i ==> is_white_space(#[trigger] s@[j]),
        decreases v.len() - i,
    {
        if !white_space(v[i]) {
            assert(!is_white_space(s@[i as int]));
            return false;
        }
        i = i + 1;
    }
    true
}

/// A text is split at the first place where the character stands, and not at
/// all where it does not occur.
pub proof fn law_splitting(
    s: &str,
    c: char,
    a: Seq<char>,
    b: Seq<char>,
    r: Option<(&str, &str)>,
)
    requires
        call_ensures(split_once, (s, c), r),
    ensures
        r is Some <==> !lacks(s@, c),
        lacks(a, c) && s@ == a + seq![c] + b ==> (r matches Some(p) && p.0@ == a && p.1@ == b),
{
    lemma_first_position(s@, c);
    if lacks(a, c) && s@ == a + seq![c] + b {
        assert(s@[a.len() as int] == c);
        assert forall|j: int| 0 <= j < a.len() implies s@[j] != c by {
            assert(s@[j] == a[j]);
        }
        assert(first_position(s@, c) == Some(a.len() as int));
        assert(s@.take(a.len() as int) =~= a);
        assert(s@.skip(a.len() as int + 1) =~= b);
    }
}

/// Whether a text stands in another from a position on, character by character.
pub open spec fn stands_in(hay: Seq<char>, needle: Seq<char>, i: int) -> bool {
    forall|j: int| 0 <= j < needle.len() ==> #[trigger] hay[i + j] == needle[j]
}

/// A text holds another where that stands in it somewhere, with anything before
/// and behind it.
pub proof fn law_containing(hay: &str, needle: &str, r: bool, a: Seq<char>, b: Seq<char>)
    requires
        call_ensures(contains, (hay, needle), r),
    ensures
        hay@ == a + needle@ + b ==> r,
        r <==> exists|i: int|
            0 <= i <= hay@.len() - needle@.len() && #[trigger] stands_in(hay@, needle@, i),
{
    if hay@ == a + needle@ + b {
        let k = a.len() as int;
        assert(hay@.subrange(k, k + needle@.len()) =~= needle@);
    }
    if r {
        let i = choose|i: int|
            0 <= i && i + needle@.len() <= hay@.len() && #[trigger] hay@.subrange(
                i,
                i + needle@.len(),
            ) == needle@;
        assert forall|j: int| 0 <= j < needle@.len() implies #[trigger] hay@[i + j] == needle@[j] by {
            assert(hay@.subrange(i, i + needle@.len())[j] == needle@[j]);
        }
        assert(stands_in(hay@, needle@, i));
    }
    if exists|i: int|
        0 <= i <= hay@.len() - needle@.len() && #[trigger] stands_in(hay@, needle@, i) {
        let i = choose|i: int|
            0 <= i <= hay@.len() - needle@.len() && #[trigger] stands_in(hay@, needle@, i);
        let part = hay@.subrange(i, i + needle@.len());
        assert forall|j: int| 0 <= j < needle@.len() implies part[j] == needle@[j] by {
            assert(hay@[i + j] == needle@[j]);
        }
        assert(part =~= needle@);
    }
}

/// A text is blank where it is empty or made of spaces, tabs and line breaks;
/// one that holds a visible ASCII character is not.
pub proof fn law_blank(s: &str, r: bool)
    requires
        call_ensures(is_blank, (s,), r),
    ensures
        (forall|i: int|
            0 <= i < s@.len() ==> #[trigger] s@[i] == ' ' || s@[i] == '\t' || s@[i] == '\n' || s@[i]
                == '\r') ==> r,
        (exists|i: int| 0 <= i < s@.len() && '!' <= #[trigger] s@[i] <= '~') ==> !r,
{
    if exists|i: int| 0 <= i < s@.len() && '!' <= #[trigger] s@[i] <= '~' {
        let i = choose|i: int| 0 <= i < s@.len() && '!' <= #[trigger] s@[i] <= '~';
        assert(!is_white_space(s@[i]));
    }
}

/// Two texts are the same where their characters are.
pub proof fn law_same_text(a: &str, b: &str, r: bool)
    requires
        call_ensures(same_text, (a, b), r),
    ensures
        r <==> a@.len() == b@.len() && forall|i: int| 0 <= i < a@.len() ==> a@[i] == #[trigger] b@[i],
{
    if a@.len() == b@.len() && forall|i: int| 0 <= i < a@.len() ==> a@[i] == #[trigger] b@[i] {
        assert(a@ =~= b@);
    }
}

/// Which characters are white space: a text of one character is blank exactly
/// where that is one of those, and a longer one where each of its characters
/// is.
pub proof fn law_white_space(s: &str, r: bool)
    requires
        call_ensures(is_blank, (s,), r),
    ensures
        r <==> (forall|i: int|
            0 <= i < s@.len() ==> {
                let c = #[trigger] s@[i] as int;
                9 <= c <= 13 || c == 32 || c == 0x85 || c == 0xa0 || c == 0x1680 || 0x2000 <= c
                    <= 0x200a || c == 0x2028 || c == 0x2029 || c == 0x202f || c == 0x205f || c
                    == 0x3000
            }),
{
    if r {
        assert forall|i: int| 0 <= i < s@.len() implies {
            let c = #[trigger] s@[i] as int;
            9 <= c <= 13 || c == 32 || c == 0x85 || c == 0xa0 || c == 0x1680 || 0x2000 <= c
                <= 0x200a || c == 0x2028 || c == 0x2029 || c == 0x202f || c == 0x205f || c
                == 0x3000
        } by {
            assert(is_white_space(s@[i]));
        }
    } else {
        let i = choose|i: int| 0 <= i < s@.len() && !is_white_space(#[trigger] s@[i]);
        assert(!is_white_space(s@[i]));
    }
}

} // verus!
