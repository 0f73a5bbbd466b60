//! Flat records: objects whose members are scalars, as they are written to and
//! read from the store.
use vstd::prelude::*;
use vstd::string::*;

use crate::binary::Binary64;
use crate::text::same_text;

verus! {

/// What is written for a member.
#[derive(Debug)]
pub enum Written {
    Null,
    Text(String),
    Count(u64),
    Number(Binary64),
}

/// A member to be written.
#[derive(Debug)]
pub struct Member {
    pub name: String,
    pub value: Written,
}

/// What is written for a member, with a text by its characters.
pub enum WrittenView {
    Null,
    Text(Seq<char>),
    Count(u64),
    Number(Binary64),
}

impl View for Written {
    type V = WrittenView;

    open spec fn view(&self) -> WrittenView {
        match *self {
            Written::Null => WrittenView::Null,
            Written::Text(s) => WrittenView::Text(s@),
            Written::Count(n) => WrittenView::Count(n),
            Written::Number(x) => WrittenView::Number(x),
        }
    }
}

/// The names and values of the members.
pub open spec fn members(r: Seq<Member>) -> Seq<(Seq<char>, WrittenView)> {
    r.map_values(|m: Member| (m.name@, m.value@))
}

/// What is read for a member. A number is read both as a count, where it is
/// one, and as a real.
#[derive(Debug)]
pub enum Reading {
    Null,
    Text(String),
    Number { count: Option<u64>, number: Binary64 },
    Other,
}

/// A member that was read.
#[derive(Debug)]
pub struct ReadMember {
    pub name: String,
    pub value: Reading,
}

/// The first member of that name.
pub open spec fn find(r: Seq<ReadMember>, name: Seq<char>) -> Option<Reading>
    decreases r.len(),
{
    if r.len() == 0 {
        None
    } else if r[0].name@ == name {
        Some(r[0].value)
    } else {
        find(r.skip(1), name)
    }
}

/// The first member of that name.
pub fn member<'a>(r: &'a Vec<ReadMember>, name: &str) -> (m: Option<&'a Reading>)
    ensures
        match m {
            Some(v) => find(r@, name@) == Some(*v),
            None => find(r@, name@) is None,
        },
{
    let mut i: usize = 0;
    assert(r@.skip(0) =~= r@);
    while i < r.len()
        invariant
            i <= r.len(),
            find(r@, name@) == find(r@.skip(i as int), name@),
        decreases r.len() - i,
    {
        if same_text(r[i].name.as_str(), name) {
            return Some(&r[i].value);
        }
        assert(r@.skip(i as int).skip(1) =~= r@.skip(i + 1));
        i = i + 1;
    }
    None
}

/// The count that was read under a name.
pub open spec fn count_member(r: Seq<ReadMember>, name: Seq<char>) -> Option<u64> {
    match find(r, name) {
        Some(Reading::Number { count, .. }) => count,
        _ => None,
    }
}

/// The count that was read under a name.
pub fn read_count(r: &Vec<ReadMember>, name: &str) -> (n: Option<u64>)
    ensures
        n == count_member(r@, name@),
{
    match member(r, name) {
        Some(Reading::Number { count, .. }) => *count,
        _ => None,
    }
}

/// Whether what was read is what was written.
pub open spec fn agrees(written: WrittenView, read: Reading) -> bool {
    match written {
        WrittenView::Null => read is Null,
        WrittenView::Text(s) => read is Text && read->Text_0@ == s,
        WrittenView::Count(n) => read is Number && read->count == Some(n),
        WrittenView::Number(x) => read is Number && read->number == x,
    }
}

/// Whether a record that was read holds the members that were written, in any
/// order.
pub open spec fn reads_back(
    written: Seq<(Seq<char>, WrittenView)>,
    read: Seq<ReadMember>,
) -> bool {
    forall|i: int|
        #![trigger written[i]]
        0 <= i < written.len() ==> (find(read, written[i].0) matches Some(v) && agrees(
            written[i].1,
            v,
        ))
}

/// Appends a member.
pub fn push_member(r: &mut Vec<Member>, name: &str, value: Written)
    ensures
        members(final(r)@) == members(old(r)@).push((name@, value@)),
{
    r.push(Member { name: name.to_owned(), value });
    assert(members(r@) =~= members(old(r)@).push((name@, value@)));
}

/// The first member of a name is the one that has the name and is preceded by
/// none that has it.
proof fn lemma_find(r: Seq<ReadMember>, name: Seq<char>, i: int)
    ensures
        (forall|j: int| 0 <= j < r.len() ==> (#[trigger] r[j]).name@ != name) <==> find(r, name)
            is None,
        0 <= i < r.len() && r[i].name@ == name && (forall|j: int|
            0 <= j < i ==> (#[trigger] r[j]).name@ != name) ==> find(r, name) == Some(r[i].value),
    decreases r.len(),
{
    if r.len() > 0 && r[0].name@ != name {
        let rest = r.skip(1);
        lemma_find(rest, name, i - 1);
        assert(forall|j: int| 0 <= j < rest.len() ==> rest[j] == #[trigger] r[j + 1]);
        assert(forall|j: int| 1 <= j < r.len() ==> #[trigger] r[j] == rest[j - 1]);
    }
}

/// What is read under a name: the value of the member of that name before
/// which none has it, at whatever position it stands, and nothing where no
/// member has the name. A count is read where that value is a number that is
/// one.
pub proof fn law_members_are_found(
    r: Vec<ReadMember>,
    name: &str,
    i: int,
    m: Option<&Reading>,
    n: Option<u64>,
)
    requires
        call_ensures(member, (&r, name), m),
        call_ensures(read_count, (&r, name), n),
    ensures
        m is None <==> (forall|j: int| 0 <= j < r@.len() ==> (#[trigger] r@[j]).name@ != name@),
        m is None ==> n is None,
        0 <= i < r@.len() && r@[i].name@ == name@ && (forall|j: int|
            0 <= j < i ==> (#[trigger] r@[j]).name@ != name@) ==> {
            &&& m == Some(&r@[i].value)
            &&& r@[i].value is Number ==> n == r@[i].value->count
            &&& !(r@[i].value is Number) ==> n is None
        },
{
    lemma_find(r@, name@, i);
}

/// A member that is appended comes last, under its name and with its value,
/// and the others stay.
pub proof fn law_members_are_appended(r: &mut Vec<Member>, name: &str, value: Written, done: ())
    requires
        call_ensures(push_member, (r, name, value), done),
    ensures
        members(final(r)@).len() == members(old(r)@).len() + 1,
        members(final(r)@).last() == (name@, value@),
        forall|i: int|
            0 <= i < members(old(r)@).len() ==> #[trigger] members(final(r)@)[i] == members(
                old(r)@,
            )[i],
{
}

} // verus!
