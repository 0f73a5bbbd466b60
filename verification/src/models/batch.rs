//! The unit of approval: one season of a series, or one movie.
use vstd::prelude::*;
use vstd::string::*;

use crate::decimal::{describe_signed, parse_i16, signed_text, IntFault};
use crate::ids::{read_uuid, uuid_text};
use crate::models::library::{MovieId, SeriesId};
use crate::text::{chars_of, same_text, split_once};

verus! {

/// What is approved at once.
#[derive(Clone, Copy, Debug, PartialEq, Eq, Structural)]
pub enum BatchKey {
    Season { series_id: SeriesId, season: i16 },
    Movie { movie_id: MovieId },
}

/// Why a text is no batch key.
#[derive(Debug)]
pub enum BatchKeyError {
    InvalidFormat(String),
    /// What is wrong with the identifier, as its reader tells it.
    InvalidUuid(uuid::Error),
    InvalidSeason(IntFault),
}

/// What a text stands for as a batch key.
pub enum DecodedKey {
    Key(BatchKey),
    BadFormat,
    BadUuid,
    BadSeason(IntFault),
}

/// A text without the `s` characters that it begins with.
pub open spec fn without_leading_s(s: Seq<char>) -> Seq<char>
    decreases s.len(),
{
    if s.len() > 0 && s[0] == 's' {
        without_leading_s(s.skip(1))
    } else {
        s
    }
}

/// What a text stands for: `series:<uuid>:s<season>` or `movie:<uuid>`. The
/// identifier is read before the season.
pub open spec fn decoded(s: Seq<char>) -> DecodedKey {
    let p = crate::text::pieces(s, ':');
    if p.len() == 3 && p[0] == "series"@ {
        match crate::ids::uuid_value(p[1]) {
            None => DecodedKey::BadUuid,
            Some(id) => match crate::decimal::signed_value(
                without_leading_s(p[2]),
                i16::MIN as int,
                i16::MAX as int,
            ) {
                None => DecodedKey::BadSeason(
                    crate::decimal::signed_fault(
                        without_leading_s(p[2]),
                        i16::MIN as int,
                        i16::MAX as int,
                    ),
                ),
                Some(n) => DecodedKey::Key(
                    BatchKey::Season { series_id: SeriesId(id as u128), season: n as i16 },
                ),
            },
        }
    } else if p.len() == 2 && p[0] == "movie"@ {
        match crate::ids::uuid_value(p[1]) {
            None => DecodedKey::BadUuid,
            Some(id) => DecodedKey::Key(BatchKey::Movie { movie_id: MovieId(id as u128) }),
        }
    } else {
        DecodedKey::BadFormat
    }
}

/// A text without the `s` characters that it begins with.
fn trim_start_s(s: &str) -> (r: &str)
    ensures
        r@ == without_leading_s(s@),
{
    let v = chars_of(s);
    let mut i: usize = 0;
    assert(s@.skip(0) =~= s@);
    while i < v.len() && v[i] == 's'
        invariant
            v@ == s@,
            i <= v.len(),
            without_leading_s(s@.skip(i as int)) == without_leading_s(s@),
        decreases v.len() - i,
    {
        assert(s@.skip(i as int).skip(1) =~= s@.skip(i + 1));
        i = i + 1;
    }
    let r = s.substring_char(i, v.len());
    assert(r@ =~= s@.skip(i as int));
    r
}

impl BatchKey {
    /// The text form of a key.
    pub open spec fn text(self) -> Seq<char> {
        match self {
            BatchKey::Season { series_id, season } => "series:"@ + crate::ids::hyphenated(
                series_id.0,
            ) + ":s"@ + crate::decimal::signed_digits(season as int),
            BatchKey::Movie { movie_id } => "movie:"@ + crate::ids::hyphenated(movie_id.0),
        }
    }

    pub fn encode(&self) -> (r: String)
        ensures
            r@ == self.text(),
    {
        match self {
            BatchKey::Season { series_id, season } => {
                let mut r = "series:".to_owned();
                let id = uuid_text(series_id.as_uuid());
                r.append(id.as_str());
                r.append(":s");
                let n = signed_text(*season as i64);
                r.append(n.as_str());
                r
            },
            BatchKey::Movie { movie_id } => {
                let mut r = "movie:".to_owned();
                let id = uuid_text(movie_id.as_uuid());
                r.append(id.as_str());
                r
            },
        }
    }

    pub fn decode(s: &str) -> (r: Result<Self, BatchKeyError>)
        ensures
            match decoded(s@) {
                DecodedKey::Key(key) => r == Ok::<Self, BatchKeyError>(key),
                DecodedKey::BadFormat => r matches Err(BatchKeyError::InvalidFormat(t)) && t@ == s@,
                DecodedKey::BadUuid => r matches Err(BatchKeyError::InvalidUuid(_)),
                DecodedKey::BadSeason(fault) => r == Err::<Self, BatchKeyError>(
                    BatchKeyError::InvalidSeason(fault),
                ),
            },
            forall|key: BatchKey|
                #![trigger key.text()]
                s@ == key.text() ==> r == Ok::<Self, BatchKeyError>(key),
    {
        proof {
            assert forall|key: BatchKey| s@ == #[trigger] key.text() implies decoded(s@)
                == DecodedKey::Key(key) by {
                law_batch_key_round_trip(key);
            }
            crate::text::lemma_first_position(s@, ':');
        }
        let (kind, rest) = match split_once(s, ':') {
            Some(p) => p,
            None => {
                return Err(BatchKeyError::InvalidFormat(s.to_owned()));
            },
        };
        proof {
            crate::text::lemma_first_position(rest@, ':');
            assert(crate::text::pieces(s@, ':') == seq![kind@] + crate::text::pieces(rest@, ':'));
            reveal_strlit("series");
            reveal_strlit("movie");
            assert("series"@.len() == 6 && "movie"@.len() == 5);
        }
        match split_once(rest, ':') {
            None => {
                assert(crate::text::pieces(s@, ':') =~= seq![kind@, rest@]);
                if !same_text(kind, "movie") {
                    return Err(BatchKeyError::InvalidFormat(s.to_owned()));
                }
                match read_uuid(rest) {
                    Ok(id) => Ok(BatchKey::Movie { movie_id: MovieId(id) }),
                    Err(e) => Err(BatchKeyError::InvalidUuid(e)),
                }
            },
            Some((id_text, tail)) => {
                proof {
                    crate::text::lemma_first_position(tail@, ':');
                    assert(crate::text::pieces(s@, ':') =~= seq![kind@, id_text@]
                        + crate::text::pieces(tail@, ':'));
                }
                if split_once(tail, ':').is_some() {
                    proof {
                        assert(crate::text::pieces(tail@, ':').len() >= 2) by {
                            reveal_with_fuel(crate::text::pieces, 2);
                        }
                    }
                    return Err(BatchKeyError::InvalidFormat(s.to_owned()));
                }
                assert(crate::text::pieces(s@, ':') =~= seq![kind@, id_text@, tail@]);
                if !same_text(kind, "series") {
                    return Err(BatchKeyError::InvalidFormat(s.to_owned()));
                }
                match read_uuid(id_text) {
                    Err(e) => Err(BatchKeyError::InvalidUuid(e)),
                    Ok(id) => {
                        let number = trim_start_s(tail);
                        match parse_i16(number) {
                            None => Err(
                                BatchKeyError::InvalidSeason(
                                    describe_signed(number, 0x8000, 0x7fff),
                                ),
                            ),
                            Some(season) => Ok(
                                BatchKey::Season { series_id: SeriesId(id), season },
                            ),
                        }
                    },
                }
            },
        }
    }
}

/// A key that is written down is read back as it was.
pub proof fn law_batch_key_round_trip(key: BatchKey)
    ensures
        decoded(key.text()) == DecodedKey::Key(key),
{
    reveal_strlit("series:");
    reveal_strlit("series");
    reveal_strlit("movie:");
    reveal_strlit("movie");
    reveal_strlit(":s");
    match key {
        BatchKey::Season { series_id, season } => {
            let id = crate::ids::hyphenated(series_id.0);
            let n = crate::decimal::signed_digits(season as int);
            let tail = seq!['s'] + n;
            crate::ids::lemma_uuid_round_trip(series_id.0);
            crate::decimal::lemma_signed_round_trip(
                season as int,
                i16::MIN as int,
                i16::MAX as int,
            );
            lemma_signed_digits_shape(season as int);
            assert(key.text() =~= "series"@ + seq![':'] + (id + seq![':'] + tail));
            crate::text::lemma_first_piece("series"@, id + seq![':'] + tail, ':');
            crate::text::lemma_first_piece(id, tail, ':');
            crate::text::lemma_one_piece(tail, ':');
            assert(crate::text::pieces(key.text(), ':') =~= seq!["series"@, id, tail]);
            assert(tail.skip(1) =~= n);
            assert(without_leading_s(tail) == without_leading_s(n));
        },
        BatchKey::Movie { movie_id } => {
            let id = crate::ids::hyphenated(movie_id.0);
            crate::ids::lemma_uuid_round_trip(movie_id.0);
            assert("movie"@.len() == 5);
            assert("series"@.len() == 6);
            assert(key.text() =~= "movie"@ + seq![':'] + id);
            crate::text::lemma_first_piece("movie"@, id, ':');
            crate::text::lemma_one_piece(id, ':');
            assert(crate::text::pieces(key.text(), ':') =~= seq!["movie"@, id]);
        },
    }
}

/// A number in decimal notation holds no colon and does not begin with `s`.
proof fn lemma_signed_digits_shape(i: int)
    ensures
        ({
            let n = crate::decimal::signed_digits(i);
            n.len() > 0 && n[0] != 's' && forall|j: int| 0 <= j < n.len() ==> #[trigger] n[j] != ':'
        }),
{
    let n = crate::decimal::signed_digits(i);
    let m = if i < 0 {
        -i
    } else {
        i
    };
    let d = crate::decimal::digits(m as nat);
    crate::decimal::lemma_digits(m as nat);
    assert forall|j: int| 0 <= j < n.len() implies #[trigger] n[j] != ':' && n[j] != 's' by {
        if i < 0 {
            if j > 0 {
                assert(n[j] == d[j - 1]);
                assert(crate::decimal::is_digit(d[j - 1]));
            }
        } else {
            assert(crate::decimal::is_digit(d[j]));
        }
    }
}

/// How keys are written: a season as `series:`, the series' identifier, `:s`
/// and the number, and a movie as `movie:` and its identifier. Each is read
/// back as it was.
pub proof fn law_keys_as_text(key: BatchKey, s: String, t: &str, read: Result<BatchKey, BatchKeyError>)
    requires
        call_ensures(BatchKey::encode, (&key,), s),
        t@ == s@,
        call_ensures(BatchKey::decode, (t,), read),
    ensures
        read == Ok::<BatchKey, BatchKeyError>(key),
        key matches BatchKey::Season { series_id, season } ==> s@ == "series:"@
            + crate::ids::hyphenated(series_id.0) + ":s"@ + crate::decimal::signed_digits(
            season as int,
        ),
        key matches BatchKey::Movie { movie_id } ==> s@ == "movie:"@ + crate::ids::hyphenated(
            movie_id.0,
        ),
{
    law_batch_key_round_trip(key);
}

/// A text is refused for its format where it has neither two parts of which the
/// first is `movie`, nor three of which the first is `series`.
pub proof fn law_refused_formats(
    s: &str,
    kind: Seq<char>,
    a: Seq<char>,
    b: Seq<char>,
    read: Result<BatchKey, BatchKeyError>,
)
    requires
        call_ensures(BatchKey::decode, (s,), read),
        crate::text::lacks(kind, ':') && crate::text::lacks(a, ':') && crate::text::lacks(b, ':'),
    ensures
        s@ == kind ==> (read matches Err(BatchKeyError::InvalidFormat(t)) && t@ == s@),
        s@ == kind + seq![':'] + a ==> (kind == "movie"@ <==> !(read matches Err(
            BatchKeyError::InvalidFormat(_),
        ))),
        s@ == kind + seq![':'] + (a + seq![':'] + b) ==> (kind == "series"@ <==> !(
        read matches Err(BatchKeyError::InvalidFormat(_)))),
        s@ == kind + seq![':'] + a && kind == "movie"@ && crate::ids::uuid_value(a) is None
            ==> read matches Err(BatchKeyError::InvalidUuid(_)),
        s@ == kind + seq![':'] + (a + seq![':'] + b) && kind == "series"@ && crate::ids::uuid_value(
            a,
        ) is None ==> read matches Err(BatchKeyError::InvalidUuid(_)),
{
    reveal_strlit("series");
    reveal_strlit("movie");
    assert("series"@.len() == 6 && "movie"@.len() == 5);
    let p = crate::text::pieces(s@, ':');
    if s@ == kind {
        crate::text::lemma_one_piece(kind, ':');
    }
    if s@ == kind + seq![':'] + a {
        crate::text::lemma_first_piece(kind, a, ':');
        crate::text::lemma_one_piece(a, ':');
        assert(p =~= seq![kind, a]);
    }
    if s@ == kind + seq![':'] + (a + seq![':'] + b) {
        crate::text::lemma_first_piece(kind, a + seq![':'] + b, ':');
        crate::text::lemma_first_piece(a, b, ':');
        crate::text::lemma_one_piece(b, ':');
        assert(p =~= seq![kind, a, b]);
    }
}

/// Leading `s` characters are passed over, however many there are.
proof fn lemma_leading_s(t: Seq<char>, rest: Seq<char>)
    requires
        forall|i: int| 0 <= i < t.len() ==> #[trigger] t[i] == 's',
        rest.len() > 0 ==> rest[0] != 's',
    ensures
        without_leading_s(t + rest) == rest,
    decreases t.len(),
{
    if t.len() == 0 {
        assert(t + rest =~= rest);
    } else {
        let u = t.skip(1);
        assert forall|i: int| 0 <= i < u.len() implies #[trigger] u[i] == 's' by {
            assert(u[i] == t[i + 1]);
        }
        lemma_leading_s(u, rest);
        assert((t + rest).skip(1) =~= u + rest);
        assert((t + rest)[0] == 's');
    }
}

/// What a text of a known form is read as: a movie of the identifier behind
/// `movie:`, and a season of the series of the identifier behind `series:`,
/// with the number behind the last colon and any `s` before it. Where the
/// identifier cannot be read that is told, and otherwise what is wrong with the
/// number.
pub proof fn law_texts_of_keys(
    movie: &str,
    season: &str,
    a: &str,
    t: Seq<char>,
    b: &str,
    id: Option<u128>,
    n: Option<i16>,
    fault: crate::decimal::IntFault,
    m: Result<BatchKey, BatchKeyError>,
    s: Result<BatchKey, BatchKeyError>,
)
    requires
        crate::text::lacks(a@, ':') && crate::text::lacks(b@, ':'),
        forall|i: int| 0 <= i < t.len() ==> #[trigger] t[i] == 's',
        b@.len() > 0 ==> b@[0] != 's',
        movie@ == "movie"@ + seq![':'] + a@,
        season@ == "series"@ + seq![':'] + (a@ + seq![':'] + (t + b@)),
        call_ensures(crate::ids::parse_uuid, (a,), id),
        call_ensures(crate::decimal::parse_i16, (b,), n),
        call_ensures(crate::decimal::describe_signed, (b, 0x8000, 0x7fff), fault),
        call_ensures(BatchKey::decode, (movie,), m),
        call_ensures(BatchKey::decode, (season,), s),
    ensures
        m is Ok <==> id is Some,
        m is Ok ==> m->Ok_0 == (BatchKey::Movie { movie_id: MovieId(id->0) }),
        m is Err ==> m->Err_0 is InvalidUuid,
        s is Ok <==> id is Some && n is Some,
        s is Ok ==> s->Ok_0 == (BatchKey::Season { series_id: SeriesId(id->0), season: n->0 }),
        id is None ==> s is Err && s->Err_0 is InvalidUuid,
        id is Some && n is None ==> s == Err::<BatchKey, BatchKeyError>(
            BatchKeyError::InvalidSeason(fault),
        ),
{
    reveal_strlit("series");
    reveal_strlit("movie");
    assert("series"@.len() == 6 && "movie"@.len() == 5);
    assert("series"@[0] == 's' && "series"@[1] == 'e' && "series"@[2] == 'r' && "series"@[3] == 'i'
        && "series"@[4] == 'e' && "series"@[5] == 's');
    assert("movie"@[0] == 'm' && "movie"@[1] == 'o' && "movie"@[2] == 'v' && "movie"@[3] == 'i'
        && "movie"@[4] == 'e');
    let c = t + b@;
    assert(crate::text::lacks(c, ':')) by {
        assert forall|i: int| 0 <= i < c.len() implies #[trigger] c[i] != ':' by {
            if i < t.len() {
                assert(c[i] == t[i]);
            } else {
                assert(c[i] == b@[i - t.len()]);
            }
        }
    }
    lemma_leading_s(t, b@);
    crate::text::lemma_first_piece("movie"@, a@, ':');
    crate::text::lemma_one_piece(a@, ':');
    assert(crate::text::pieces(movie@, ':') =~= seq!["movie"@, a@]);
    crate::text::lemma_first_piece("series"@, a@ + seq![':'] + c, ':');
    crate::text::lemma_first_piece(a@, c, ':');
    crate::text::lemma_one_piece(c, ':');
    assert(crate::text::pieces(season@, ':') =~= seq!["series"@, a@, c]);
}

/// A text of four parts or more is refused for its format.
pub proof fn law_too_many_parts(
    s: &str,
    kind: Seq<char>,
    a: Seq<char>,
    b: Seq<char>,
    rest: Seq<char>,
    read: Result<BatchKey, BatchKeyError>,
)
    requires
        call_ensures(BatchKey::decode, (s,), read),
        crate::text::lacks(kind, ':') && crate::text::lacks(a, ':') && crate::text::lacks(b, ':'),
        s@ == kind + seq![':'] + (a + seq![':'] + (b + seq![':'] + rest)),
    ensures
        read matches Err(BatchKeyError::InvalidFormat(t)) && t@ == s@,
{
    crate::text::lemma_first_piece(kind, a + seq![':'] + (b + seq![':'] + rest), ':');
    crate::text::lemma_first_piece(a, b + seq![':'] + rest, ':');
    crate::text::lemma_first_piece(b, rest, ':');
    crate::text::lemma_first_position(rest, ':');
    let p = crate::text::pieces(s@, ':');
    let q = crate::text::pieces(rest, ':');
    assert(q.len() > 0);
    assert(p.len() == q.len() + 3);
}

} // verus!
