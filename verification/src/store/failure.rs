//! Why files failed, how often, and which of them are tried again.
use vstd::prelude::*;
use vstd::string::*;

use crate::models::library::MediaFileId;
use crate::models::workflow::WorkflowStateTag;
use crate::store::error::StoreError;
use crate::text::{contains, same_text};

verus! {

/// A failed transcode, with the title of what the file belongs to.
#[derive(Debug)]
pub struct FailureRecord {
    pub event_id: i64,
    pub media_file_id: MediaFileId,
    pub title: Option<String>,
    pub kind: String,
    pub error: String,
}

/// The rough cause of a failure. Some causes lie in the host and need a remedy
/// there before the file can be tried again.
#[derive(Clone, Copy, Debug, PartialEq, Eq, Hash, Structural)]
pub enum FailureClass {
    /// The file's probe data was never there, or no longer.
    MissingVideoProperties,
    /// A directory may not be written to.
    SwapPermission,
    /// The target is mounted read-only.
    SwapReadOnly,
    /// A rename across file systems.
    SwapCrossDevice,
    /// The encode itself failed.
    Ffmpeg,
    /// Anything else.
    Other,
}

/// The class of a failure, by the first of these that its text holds.
pub open spec fn class_of(error: Seq<char>) -> FailureClass {
    if crate::text::occurs(error, "video properties missing"@) {
        FailureClass::MissingVideoProperties
    } else if crate::text::occurs(error, "Permission denied"@) {
        FailureClass::SwapPermission
    } else if crate::text::occurs(error, "Read-only file system"@) {
        FailureClass::SwapReadOnly
    } else if crate::text::occurs(error, "cross-device"@) {
        FailureClass::SwapCrossDevice
    } else if crate::text::occurs(error, "ffmpeg failed"@) {
        FailureClass::Ffmpeg
    } else {
        FailureClass::Other
    }
}

/// The key of a class.
pub open spec fn key_of(class: FailureClass) -> Seq<char> {
    match class {
        FailureClass::MissingVideoProperties => "missing_video_properties"@,
        FailureClass::SwapPermission => "swap_permission"@,
        FailureClass::SwapReadOnly => "swap_read_only"@,
        FailureClass::SwapCrossDevice => "swap_cross_device"@,
        FailureClass::Ffmpeg => "ffmpeg"@,
        FailureClass::Other => "other"@,
    }
}

impl FailureClass {
    /// The class of a failure, by its text.
    pub fn classify(error: &str) -> (r: Self)
        ensures
            r == class_of(error@),
    {
        if contains(error, "video properties missing") {
            FailureClass::MissingVideoProperties
        } else if contains(error, "Permission denied") {
            FailureClass::SwapPermission
        } else if contains(error, "Read-only file system") {
            FailureClass::SwapReadOnly
        } else if contains(error, "cross-device") {
            FailureClass::SwapCrossDevice
        } else if contains(error, "ffmpeg failed") {
            FailureClass::Ffmpeg
        } else {
            FailureClass::Other
        }
    }

    /// The name of a class for people.
    pub fn label(self) -> (r: &'static str)
        ensures
            r@ == (match self {
                FailureClass::MissingVideoProperties => "missing video properties"@,
                FailureClass::SwapPermission => "swap: permission denied"@,
                FailureClass::SwapReadOnly => "swap: read-only filesystem"@,
                FailureClass::SwapCrossDevice => "swap: cross-device link"@,
                FailureClass::Ffmpeg => "ffmpeg encode failed"@,
                FailureClass::Other => "other"@,
            }),
    {
        match self {
            FailureClass::MissingVideoProperties => "missing video properties",
            FailureClass::SwapPermission => "swap: permission denied",
            FailureClass::SwapReadOnly => "swap: read-only filesystem",
            FailureClass::SwapCrossDevice => "swap: cross-device link",
            FailureClass::Ffmpeg => "ffmpeg encode failed",
            FailureClass::Other => "other",
        }
    }

    /// Whether trying the file again can be enough by itself.
    pub fn auto_requeueable(self) -> (r: bool)
        ensures
            r == (self is MissingVideoProperties),
    {
        match self {
            FailureClass::MissingVideoProperties => true,
            _ => false,
        }
    }

    /// The key of a class, as it goes over HTTP.
    pub fn key(self) -> (r: &'static str)
        ensures
            r@ == key_of(self),
    {
        match self {
            FailureClass::MissingVideoProperties => "missing_video_properties",
            FailureClass::SwapPermission => "swap_permission",
            FailureClass::SwapReadOnly => "swap_read_only",
            FailureClass::SwapCrossDevice => "swap_cross_device",
            FailureClass::Ffmpeg => "ffmpeg",
            FailureClass::Other => "other",
        }
    }

    /// The class of that key. A class is read back from its own key.
    pub fn from_key(key: &str) -> (r: Option<Self>)
        ensures
            match r {
                Some(class) => key@ == key_of(class),
                None => forall|class: FailureClass| #![trigger key_of(class)] key@ != key_of(class),
            },
            forall|class: FailureClass|
                #![trigger key_of(class)]
                key@ == key_of(class) ==> r == Some(class),
    {
        proof {
            assert forall|a: FailureClass, b: FailureClass|
                #[trigger] key_of(a) == #[trigger] key_of(b) implies a == b by {
                law_keys_differ(a, b);
            }
        }
        let r = if same_text(key, "missing_video_properties") {
            Some(FailureClass::MissingVideoProperties)
        } else if same_text(key, "swap_permission") {
            Some(FailureClass::SwapPermission)
        } else if same_text(key, "swap_read_only") {
            Some(FailureClass::SwapReadOnly)
        } else if same_text(key, "swap_cross_device") {
            Some(FailureClass::SwapCrossDevice)
        } else if same_text(key, "ffmpeg") {
            Some(FailureClass::Ffmpeg)
        } else if same_text(key, "other") {
            Some(FailureClass::Other)
        } else {
            None
        };
        assert(r matches Some(class) ==> key_of(class) == key@);
        r
    }
}

/// No two classes have one key.
pub proof fn law_keys_differ(a: FailureClass, b: FailureClass)
    requires
        key_of(a) == key_of(b),
    ensures
        a == b,
{
    reveal_strlit("missing_video_properties");
    reveal_strlit("swap_permission");
    reveal_strlit("swap_read_only");
    reveal_strlit("swap_cross_device");
    reveal_strlit("ffmpeg");
    reveal_strlit("other");
    assert("missing_video_properties"@.len() == 24);
    assert("swap_permission"@.len() == 15);
    assert("swap_read_only"@.len() == 14);
    assert("swap_cross_device"@.len() == 17);
    assert("ffmpeg"@.len() == 6);
    assert("other"@.len() == 5);
}

/// What occurs in a text occurs in every text that ends with it.
proof fn lemma_occurs_in_suffix(head: Seq<char>, tail: Seq<char>, needle: Seq<char>)
    requires
        crate::text::occurs(tail, needle),
    ensures
        crate::text::occurs(head + tail, needle),
{
    let i = choose|i: int|
        0 <= i && i + needle.len() <= tail.len() && #[trigger] tail.subrange(i, i + needle.len())
            == needle;
    assert((head + tail).subrange(head.len() + i, head.len() + i + needle.len()) =~= tail.subrange(
        i,
        i + needle.len(),
    ));
}

/// The beginning of a text occurs in it.
proof fn lemma_prefix_occurs(head: Seq<char>, tail: Seq<char>)
    ensures
        crate::text::occurs(head + tail, head),
{
    assert((head + tail).subrange(0int, 0int + head.len()) =~= head);
}

/// Whether a text speaks of a cause that is looked for before that of a class.
pub open spec fn speaks_of_earlier(error: Seq<char>, class: FailureClass) -> bool {
    let missing = crate::text::occurs(error, "video properties missing"@);
    let denied = missing || crate::text::occurs(error, "Permission denied"@);
    let read_only = denied || crate::text::occurs(error, "Read-only file system"@);
    let cross_device = read_only || crate::text::occurs(error, "cross-device"@);
    match class {
        FailureClass::MissingVideoProperties => false,
        FailureClass::SwapPermission => missing,
        FailureClass::SwapReadOnly => denied,
        FailureClass::SwapCrossDevice => read_only,
        FailureClass::Ffmpeg => cross_device,
        FailureClass::Other => cross_device || crate::text::occurs(error, "ffmpeg failed"@),
    }
}

/// The class of a failure can be told from the text that is recorded for it: a
/// file without probe data is of its own class; a swap that failed is of the
/// class of its cause; and an encode that failed is of its own class. The
/// exception is a text that also speaks of a cause that is looked for before.
pub proof fn law_recorded_text_tells_class(
    e: crate::transcode::error::TranscodeError,
    inner: Seq<char>,
)
    ensures
        e is MissingVideoProperties ==> class_of(e.text(inner))
            == FailureClass::MissingVideoProperties,
        (e matches crate::transcode::error::TranscodeError::SwapFailed(t) && crate::text::occurs(
            t@,
            "Permission denied"@,
        ) && !speaks_of_earlier(e.text(inner), FailureClass::SwapPermission)) ==> class_of(
            e.text(inner),
        ) == FailureClass::SwapPermission,
        (e matches crate::transcode::error::TranscodeError::SwapFailed(t) && crate::text::occurs(
            t@,
            "Read-only file system"@,
        ) && !speaks_of_earlier(e.text(inner), FailureClass::SwapReadOnly)) ==> class_of(
            e.text(inner),
        ) == FailureClass::SwapReadOnly,
        (e matches crate::transcode::error::TranscodeError::SwapFailed(t) && crate::text::occurs(
            t@,
            "cross-device"@,
        ) && !speaks_of_earlier(e.text(inner), FailureClass::SwapCrossDevice)) ==> class_of(
            e.text(inner),
        ) == FailureClass::SwapCrossDevice,
        (e is FfmpegFailed && !speaks_of_earlier(e.text(inner), FailureClass::Ffmpeg)) ==> class_of(
            e.text(inner),
        ) == FailureClass::Ffmpeg,
{
    reveal_strlit("video properties missing for media file");
    reveal_strlit("video properties missing");
    reveal_strlit(" for media file");
    assert("video properties missing for media file"@ =~= "video properties missing"@
        + " for media file"@);
    lemma_prefix_occurs("video properties missing"@, " for media file"@);
    match e {
        crate::transcode::error::TranscodeError::SwapFailed(t) => {
            if crate::text::occurs(t@, "Permission denied"@) {
                lemma_occurs_in_suffix("swap failed: "@, t@, "Permission denied"@);
            }
            if crate::text::occurs(t@, "Read-only file system"@) {
                lemma_occurs_in_suffix("swap failed: "@, t@, "Read-only file system"@);
            }
            if crate::text::occurs(t@, "cross-device"@) {
                lemma_occurs_in_suffix("swap failed: "@, t@, "cross-device"@);
            }
        },
        crate::transcode::error::TranscodeError::FfmpegFailed { exit_code, stderr } => {
            reveal_strlit("ffmpeg failed with exit code ");
            reveal_strlit("ffmpeg failed: ");
            reveal_strlit("ffmpeg failed");
            reveal_strlit(" with exit code ");
            reveal_strlit(": ");
            assert("ffmpeg failed with exit code "@ =~= "ffmpeg failed"@ + " with exit code "@);
            assert("ffmpeg failed: "@ =~= "ffmpeg failed"@ + ": "@);
            match exit_code {
                Some(code) => {
                    let rest = " with exit code "@ + crate::decimal::signed_digits(code as int)
                        + ": "@ + stderr@;
                    assert(e.text(inner) =~= "ffmpeg failed"@ + rest);
                    lemma_prefix_occurs("ffmpeg failed"@, rest);
                },
                None => {
                    assert(e.text(inner) =~= "ffmpeg failed"@ + (": "@ + stderr@));
                    lemma_prefix_occurs("ffmpeg failed"@, ": "@ + stderr@);
                },
            }
        },
        _ => {},
    }
}

/// One cause and how many failed files have it.
#[derive(Clone, Copy, Debug, PartialEq, Eq, Structural)]
pub struct FailureBreakdownRow {
    pub class: FailureClass,
    pub count: i64,
}

/// The class of a failure whose text may be missing.
pub open spec fn class_of_error(error: Option<String>) -> FailureClass {
    match error {
        Some(e) => class_of(e@),
        None => class_of(""@),
    }
}

/// How many failures are of a class.
pub open spec fn count_of(errors: Seq<Option<String>>, class: FailureClass) -> int
    decreases errors.len(),
{
    if errors.len() == 0 {
        0
    } else {
        count_of(errors.drop_last(), class) + if class_of_error(errors.last()) == class {
            1int
        } else {
            0
        }
    }
}

/// Whether a class has a row.
pub open spec fn has_row(rows: Seq<FailureBreakdownRow>, class: FailureClass) -> bool {
    exists|i: int| 0 <= i < rows.len() && (#[trigger] rows[i]).class == class
}

/// Whether rows count the failures: every class that occurs has one row, with
/// the number of its failures, and the greatest numbers come first.
pub open spec fn is_breakdown(
    rows: Seq<FailureBreakdownRow>,
    errors: Seq<Option<String>>,
) -> bool {
    &&& forall|class: FailureClass| #[trigger]
        has_row(rows, class) <==> count_of(errors, class) > 0
    &&& counts_rows(rows, errors)
}

/// Whether every row counts the failures of its class, no class has two rows,
/// and the greatest numbers come first.
pub open spec fn counts_rows(rows: Seq<FailureBreakdownRow>, errors: Seq<Option<String>>) -> bool {
    &&& forall|i: int|
        0 <= i < rows.len() ==> (#[trigger] rows[i]).count == count_of(errors, rows[i].class)
    &&& forall|i: int, j: int|
        0 <= i < j < rows.len() ==> (#[trigger] rows[i]).class != (#[trigger] rows[j]).class
            && rows[i].count >= rows[j].count
}

/// The class of a failure whose text may be missing.
fn classify_error(error: &Option<String>) -> (r: FailureClass)
    ensures
        r == class_of_error(*error),
{
    match error {
        Some(e) => FailureClass::classify(e.as_str()),
        None => FailureClass::classify(""),
    }
}

/// How many failures are of a class.
fn count_class(errors: &Vec<Option<String>>, class: FailureClass) -> (r: i64)
    requires
        errors@.len() <= i64::MAX,
    ensures
        r == count_of(errors@, class),
        0 <= r,
{
    let mut n: i64 = 0;
    let mut i: usize = 0;
    assert(errors@.take(0) =~= Seq::<Option<String>>::empty());
    while i < errors.len()
        invariant
            errors@.len() <= i64::MAX,
            i <= errors.len(),
            0 <= n <= i,
            n == count_of(errors@.take(i as int), class),
        decreases errors.len() - i,
    {
        proof {
            assert(errors@.take(i + 1).drop_last() =~= errors@.take(i as int));
            assert(errors@.take(i + 1).last() == errors@[i as int]);
        }
        if classify_error(&errors[i]) == class {
            n = n + 1;
        }
        i = i + 1;
    }
    assert(errors@.take(errors@.len() as int) =~= errors@);
    n
}

/// Adds the row of a class that occurs, in its place.
fn add_row(
    rows: &mut Vec<FailureBreakdownRow>,
    errors: &Vec<Option<String>>,
    class: FailureClass,
)
    requires
        errors@.len() <= i64::MAX,
        counts_rows(old(rows)@, errors@),
        !has_row(old(rows)@, class),
    ensures
        counts_rows(final(rows)@, errors@),
        forall|c: FailureClass| #[trigger]
            has_row(final(rows)@, c) <==> (has_row(old(rows)@, c) || (c == class && count_of(
                errors@,
                class,
            ) > 0)),
{
    let count: i64 = count_class(errors, class);
    if count == 0 {
        return ;
    }
    let mut at: usize = 0;
    while at < rows.len() && rows[at].count >= count
        invariant
            at <= rows@.len(),
            rows@ == old(rows)@,
            forall|i: int| 0 <= i < at ==> (#[trigger] rows@[i]).count >= count,
        ensures
            at <= rows@.len(),
            rows@ == old(rows)@,
            forall|i: int| 0 <= i < at ==> (#[trigger] rows@[i]).count >= count,
            at < rows@.len() ==> rows@[at as int].count < count,
        decreases rows@.len() - at,
    {
        at = at + 1;
    }
    let row = FailureBreakdownRow { class, count };
    rows.insert(at, row);
    proof {
        let was = old(rows)@;
        let now = rows@;
        assert(now == was.insert(at as int, row));
        assert forall|i: int| 0 <= i < was.len() implies was[i].class != class by {
            assert(!has_row(was, class));
        }
        assert forall|i: int| 0 <= i < now.len() implies now[i] == (if i < at {
            was[i]
        } else if i == at {
            row
        } else {
            was[i - 1]
        }) by {}
        assert forall|c: FailureClass| #[trigger] has_row(now, c) <==> (has_row(was, c) || c
            == class) by {
            if has_row(was, c) {
                let k = choose|k: int| 0 <= k < was.len() && (#[trigger] was[k]).class == c;
                if k < at {
                    assert(now[k].class == c);
                } else {
                    assert(now[k + 1].class == c);
                }
            }
            if c == class {
                assert(now[at as int].class == c);
            }
            if has_row(now, c) && c != class {
                let k = choose|k: int| 0 <= k < now.len() && (#[trigger] now[k]).class == c;
                if k < at {
                    assert(was[k].class == c);
                } else {
                    assert(was[k - 1].class == c);
                }
            }
        }
    }
}

/// Counts failures by their class, the greatest number first.
pub fn failure_breakdown(errors: &Vec<Option<String>>) -> (r: Vec<FailureBreakdownRow>)
    requires
        errors@.len() <= i64::MAX,
    ensures
        is_breakdown(r@, errors@),
{
    let mut rows: Vec<FailureBreakdownRow> = Vec::new();
    add_row(&mut rows, errors, FailureClass::MissingVideoProperties);
    add_row(&mut rows, errors, FailureClass::SwapPermission);
    add_row(&mut rows, errors, FailureClass::SwapReadOnly);
    add_row(&mut rows, errors, FailureClass::SwapCrossDevice);
    add_row(&mut rows, errors, FailureClass::Ffmpeg);
    add_row(&mut rows, errors, FailureClass::Other);
    proof {
        assert forall|class: FailureClass| #[trigger]
            has_row(rows@, class) <==> count_of(errors@, class) > 0 by {}
    }
    rows
}

/// A failed file and the text of its latest failure.
#[derive(Debug)]
pub struct FailedFile {
    pub id: MediaFileId,
    pub error: Option<String>,
}

/// The files that failed for a cause, in order.
pub open spec fn files_of_class(rows: Seq<FailedFile>, class: FailureClass) -> Seq<MediaFileId>
    decreases rows.len(),
{
    if rows.len() == 0 {
        Seq::empty()
    } else if class_of_error(rows.last().error) == class {
        files_of_class(rows.drop_last(), class).push(rows.last().id)
    } else {
        files_of_class(rows.drop_last(), class)
    }
}

/// Files that are taken up again, one after the other.
#[derive(Debug)]
pub struct RequeueRun {
    pub ids: Vec<MediaFileId>,
    pub next: usize,
    pub moved: Vec<MediaFileId>,
    /// The error that ended the run.
    pub failed: Option<StoreError>,
}

/// How far the run has come.
pub struct RequeueView {
    /// The files that are to be moved.
    pub ids: Seq<MediaFileId>,
    /// How many of them were dealt with.
    pub next: nat,
    /// Those that were moved.
    pub moved: Seq<MediaFileId>,
    pub failed: Option<StoreError>,
}

impl View for RequeueRun {
    type V = RequeueView;

    open spec fn view(&self) -> RequeueView {
        RequeueView {
            ids: self.ids@,
            next: self.next as nat,
            moved: self.moved@,
            failed: self.failed,
        }
    }
}

/// A run at its beginning.
pub open spec fn requeue_start(ids: Seq<MediaFileId>) -> RequeueView {
    RequeueView { ids, next: 0, moved: Seq::empty(), failed: None }
}

/// The file that is to be moved next, while the run goes on.
pub open spec fn requeue_step(v: RequeueView) -> Option<MediaFileId> {
    if v.failed is None && v.next < v.ids.len() {
        Some(v.ids[v.next as int])
    } else {
        None
    }
}

/// A run after a file was moved, or was not. One that was moved by someone
/// else in the meantime is passed over; any other error ends the run. Once the
/// run has ended nothing changes.
pub open spec fn requeue_next(v: RequeueView, result: Result<(), StoreError>) -> RequeueView {
    match requeue_step(v) {
        None => v,
        Some(id) => match result {
            Ok(_) => RequeueView { next: v.next + 1, moved: v.moved.push(id), ..v },
            Err(StoreError::StaleState { .. }) => RequeueView { next: v.next + 1, ..v },
            Err(e) => RequeueView { failed: Some(e), ..v },
        },
    }
}

/// Begins to take up again the files that failed for a cause.
pub fn requeue_failed(rows: &Vec<FailedFile>, class: FailureClass) -> (r: RequeueRun)
    ensures
        r@ == requeue_start(files_of_class(rows@, class)),
{
    let mut ids: Vec<MediaFileId> = Vec::new();
    let mut i: usize = 0;
    assert(rows@.take(0) =~= Seq::<FailedFile>::empty());
    while i < rows.len()
        invariant
            i <= rows.len(),
            ids@ == files_of_class(rows@.take(i as int), class),
        decreases rows.len() - i,
    {
        proof {
            assert(rows@.take(i + 1).drop_last() =~= rows@.take(i as int));
            assert(rows@.take(i + 1).last() == rows@[i as int]);
        }
        if classify_error(&rows[i].error) == class {
            ids.push(rows[i].id);
        }
        i = i + 1;
    }
    assert(rows@.take(rows@.len() as int) =~= rows@);
    RequeueRun { ids, next: 0, moved: Vec::new(), failed: None }
}

impl RequeueRun {
    /// The file that is to be moved next, while the run goes on.
    pub fn step(&self) -> (r: Option<MediaFileId>)
        ensures
            r == requeue_step(self@),
    {
        if self.failed.is_none() && self.next < self.ids.len() {
            Some(self.ids[self.next])
        } else {
            None
        }
    }

    /// Takes the result of moving a file.
    pub fn advance(&mut self, result: Result<(), StoreError>)
        ensures
            final(self)@ == requeue_next(old(self)@, result),
    {
        if self.failed.is_some() || self.next >= self.ids.len() {
            return ;
        }
        match result {
            Ok(_) => {
                let id = self.ids[self.next];
                self.moved.push(id);
                self.next = self.next + 1;
            },
            Err(StoreError::StaleState { .. }) => {
                self.next = self.next + 1;
            },
            Err(e) => {
                self.failed = Some(e);
            },
        }
    }
}

/// Whether one of the rows is that of a file that failed for a cause.
pub open spec fn lists(rows: Seq<FailedFile>, class: FailureClass, id: MediaFileId) -> bool {
    exists|k: int|
        0 <= k < rows.len() && (#[trigger] rows[k]).id == id && class_of_error(rows[k].error)
            == class
}

/// Whether no two rows are of one file.
pub open spec fn one_row_each(rows: Seq<FailedFile>) -> bool {
    forall|i: int, j: int|
        0 <= i < j < rows.len() ==> (#[trigger] rows[i]).id != (#[trigger] rows[j]).id
}

/// Of files that are listed once each, exactly those that failed for the cause
/// are taken up again, once each.
pub proof fn law_requeue_takes_exactly_the_class(rows: Seq<FailedFile>, class: FailureClass)
    requires
        one_row_each(rows),
    ensures
        files_of_class(rows, class).no_duplicates(),
        forall|id: MediaFileId| #[trigger]
            files_of_class(rows, class).contains(id) <==> lists(rows, class, id),
    decreases rows.len(),
{
    let ids = files_of_class(rows, class);
    if rows.len() > 0 {
        let rest = rows.drop_last();
        let before = files_of_class(rest, class);
        let last = rows[rows.len() - 1];
        assert forall|i: int, j: int| 0 <= i < j < rest.len() implies (#[trigger] rest[i]).id != (
        #[trigger] rest[j]).id by {
            assert(rest[i] == rows[i] && rest[j] == rows[j]);
        }
        law_requeue_takes_exactly_the_class(rest, class);
        assert forall|id: MediaFileId| lists(rows, class, id) implies lists(rest, class, id) || (
        id == last.id && class_of_error(last.error) == class) by {
            let k = choose|k: int|
                0 <= k < rows.len() && (#[trigger] rows[k]).id == id && class_of_error(
                    rows[k].error,
                ) == class;
            if k < rest.len() {
                assert(rest[k] == rows[k]);
            }
        }
        assert forall|id: MediaFileId| lists(rest, class, id) implies lists(rows, class, id) by {
            let k = choose|k: int|
                0 <= k < rest.len() && (#[trigger] rest[k]).id == id && class_of_error(
                    rest[k].error,
                ) == class;
            assert(rows[k] == rest[k]);
        }
        if class_of_error(last.error) == class {
            assert(lists(rows, class, last.id));
            assert(!before.contains(last.id)) by {
                if lists(rest, class, last.id) {
                    let k = choose|k: int|
                        0 <= k < rest.len() && (#[trigger] rest[k]).id == last.id
                            && class_of_error(rest[k].error) == class;
                    assert(rows[k] == rest[k]);
                }
            }
            assert forall|id: MediaFileId| #[trigger] ids.contains(id) <==> (before.contains(id)
                || id == last.id) by {
                if before.contains(id) {
                    let k = before.index_of(id);
                    assert(ids[k] == id);
                }
                assert(ids[before.len() as int] == last.id);
            }
        }
    }
}

/// The stored files with their histories.
pub type StoredFiles = Map<MediaFileId, crate::store::script::FileHistory>;

/// The text of the latest failure that a log tells of.
pub open spec fn latest_failure(log: Seq<crate::models::event::EventView>) -> Option<Seq<char>>
    decreases log.len(),
{
    if log.len() == 0 {
        None
    } else {
        match log.last() {
            crate::models::event::EventView::TranscodeFailed { error } => Some(error),
            _ => latest_failure(log.drop_last()),
        }
    }
}

/// Whether a file is stored as failed.
pub open spec fn is_failed(files: StoredFiles, id: MediaFileId) -> bool {
    files.contains_key(id) && files[id].state == WorkflowStateTag::Failed
}

/// Whether a file is stored as failed, and its latest failure has a cause.
pub open spec fn failed_for(files: StoredFiles, id: MediaFileId, class: FailureClass) -> bool {
    is_failed(files, id) && (latest_failure(files[id].log) matches Some(e) && class_of(e) == class)
}

/// Whether rows list the stored files that failed and tell of a failure, once
/// each, with the text of the latest.
pub open spec fn lists_failures(rows: Seq<FailedFile>, files: StoredFiles) -> bool {
    &&& one_row_each(rows)
    &&& forall|k: int|
        0 <= k < rows.len() ==> is_failed(files, (#[trigger] rows[k]).id) && rows[k].error is Some
            && latest_failure(files[rows[k].id].log) == Some(rows[k].error->0@)
    &&& forall|id: MediaFileId| #[trigger]
        is_failed(files, id) && latest_failure(files[id].log) is Some ==> exists|k: int|
            0 <= k < rows.len() && (#[trigger] rows[k]).id == id
}

/// A file that is taken up again.
pub open spec fn taken_up(
    h: crate::store::script::FileHistory,
) -> crate::store::script::FileHistory {
    crate::store::script::FileHistory {
        state: WorkflowStateTag::Discovered,
        log: h.log.push(crate::store::script::requeue_event()),
    }
}

/// The script for a file that is taken up again does that to a failed file,
/// and nothing to another.
pub proof fn law_requeue_script(
    h: crate::store::script::FileHistory,
    s: crate::store::script::Script,
    id: MediaFileId,
)
    requires
        crate::store::script::is_requeue(s, id),
    ensures
        crate::store::script::after_script(h, s) == (if h.state == WorkflowStateTag::Failed {
            taken_up(h)
        } else {
            h
        }),
{
    assert(h.log + seq![crate::store::script::requeue_event()] =~= h.log.push(
        crate::store::script::requeue_event(),
    ));
}

/// The stored files after a run has come to its end, and the run, where nobody
/// else changes anything in the meantime.
pub open spec fn requeued(files: StoredFiles, v: RequeueView) -> (StoredFiles, RequeueView)
    decreases v.ids.len() - v.next,
{
    match requeue_step(v) {
        None => (files, v),
        Some(id) => if is_failed(files, id) {
            requeued(files.insert(id, taken_up(files[id])), requeue_next(v, Ok(())))
        } else {
            requeued(
                files,
                requeue_next(
                    v,
                    Err(StoreError::StaleState { expected: WorkflowStateTag::Failed }),
                ),
            )
        },
    }
}

/// Whether a file is among those that a run has not dealt with.
pub open spec fn is_left(ids: Seq<MediaFileId>, from: int, id: MediaFileId) -> bool {
    exists|i: int| from <= i < ids.len() && #[trigger] ids[i] == id
}

/// A run over failed files moves each of them.
proof fn lemma_requeued(files: StoredFiles, ids: Seq<MediaFileId>, k: nat)
    requires
        k <= ids.len(),
        ids.no_duplicates(),
        forall|i: int| k <= i < ids.len() ==> is_failed(files, #[trigger] ids[i]),
    ensures
        ({
            let v = RequeueView { ids, next: k, moved: ids.take(k as int), failed: None };
            let (after, done) = requeued(files, v);
            &&& done == (RequeueView { ids, next: ids.len(), moved: ids, failed: None })
            &&& after.dom() == files.dom()
            &&& forall|id: MediaFileId| #[trigger]
                files.contains_key(id) ==> after[id] == (if is_left(ids, k as int, id) {
                    taken_up(files[id])
                } else {
                    files[id]
                })
        }),
    decreases ids.len() - k,
{
    let v = RequeueView { ids, next: k, moved: ids.take(k as int), failed: None };
    if k == ids.len() {
        assert(ids.take(k as int) =~= ids);
    } else {
        let id = ids[k as int];
        let next = files.insert(id, taken_up(files[id]));
        assert(is_failed(files, id));
        assert forall|i: int| k + 1 <= i < ids.len() implies is_failed(next, #[trigger] ids[i]) by {
            assert(is_failed(files, ids[i]));
            assert(ids[i] != ids[k as int]);
        }
        assert(ids.take(k as int).push(id) =~= ids.take(k as int + 1));
        lemma_requeued(next, ids, k + 1);
        assert(next.dom() =~= files.dom());
        let (after, done) = requeued(files, v);
        assert forall|other: MediaFileId| #[trigger] files.contains_key(other) implies after[other]
            == (if is_left(ids, k as int, other) {
            taken_up(files[other])
        } else {
            files[other]
        }) by {
            assert(next.contains_key(other));
            if other == id {
                assert(ids[k as int] == other);
                assert(!is_left(ids, k as int + 1, other));
            } else if is_left(ids, k as int, other) {
                let i = choose|i: int| k <= i < ids.len() && #[trigger] ids[i] == other;
                assert(is_left(ids, k as int + 1, other));
            }
        }
    }
}

/// Taking up again the files that failed for a cause moves exactly the failed
/// files whose latest failure has that cause, once each: each is discovered
/// again, with one event for it, and every other file stays as it is. A second
/// time there is none left.
pub proof fn law_requeue_moves_exactly_the_class(
    files: StoredFiles,
    rows: Seq<FailedFile>,
    class: FailureClass,
)
    requires
        lists_failures(rows, files),
    ensures
        ({
            let (after, done) = requeued(files, requeue_start(files_of_class(rows, class)));
            &&& done.failed is None
            &&& done.moved.no_duplicates()
            &&& forall|id: MediaFileId| #[trigger]
                done.moved.contains(id) <==> failed_for(files, id, class)
            &&& after.dom() == files.dom()
            &&& forall|id: MediaFileId| #[trigger]
                files.contains_key(id) ==> after[id] == (if failed_for(files, id, class) {
                    taken_up(files[id])
                } else {
                    files[id]
                })
            &&& forall|again: Seq<FailedFile>| #[trigger]
                lists_failures(again, after) ==> files_of_class(again, class).len() == 0
        }),
{
    let ids = files_of_class(rows, class);
    law_requeue_takes_exactly_the_class(rows, class);
    assert forall|id: MediaFileId| #[trigger] ids.contains(id) <==> failed_for(files, id, class) by {
        if ids.contains(id) {
            let k = choose|k: int|
                0 <= k < rows.len() && (#[trigger] rows[k]).id == id && class_of_error(
                    rows[k].error,
                ) == class;
            assert(is_failed(files, rows[k].id));
        }
        if failed_for(files, id, class) {
            assert(is_failed(files, id));
            let k = choose|k: int| 0 <= k < rows.len() && (#[trigger] rows[k]).id == id;
            assert(class_of_error(rows[k].error) == class);
            assert(lists(rows, class, id));
        }
    }
    assert forall|i: int| 0 <= i < ids.len() implies is_failed(files, #[trigger] ids[i]) by {
        assert(ids.contains(ids[i]));
    }
    lemma_requeued(files, ids, 0);
    assert(ids.take(0) =~= Seq::<MediaFileId>::empty());
    let (after, done) = requeued(files, requeue_start(ids));
    assert forall|id: MediaFileId| #[trigger] files.contains_key(id) implies after[id] == (
    if failed_for(files, id, class) {
        taken_up(files[id])
    } else {
        files[id]
    }) by {
        if is_left(ids, 0, id) {
            assert(ids.contains(id));
        }
        if ids.contains(id) {
            let i = ids.index_of(id);
            assert(ids[i] == id);
            assert(is_left(ids, 0, id));
        }
    }
    assert forall|again: Seq<FailedFile>| #[trigger] lists_failures(again, after) implies
        files_of_class(again, class).len() == 0 by {
        law_requeue_takes_exactly_the_class(again, class);
        let left = files_of_class(again, class);
        if left.len() > 0 {
            let id = left[0];
            assert(left.contains(id));
            let k = choose|k: int|
                0 <= k < again.len() && (#[trigger] again[k]).id == id && class_of_error(
                    again[k].error,
                ) == class;
            assert(is_failed(after, again[k].id));
            assert(files.contains_key(id));
        }
    }
}

/// Files and bytes of one codec in one state.
#[derive(Debug)]
pub struct CodecStateBreakdown {
    pub codec: String,
    pub state: crate::models::workflow::WorkflowStateTag,
    pub count: i64,
    pub total_bytes: i64,
}

/// Work that is decided and not yet done, and what it is expected to gain.
#[derive(Clone, Copy, Debug, PartialEq, Eq, Structural)]
pub struct Backlog {
    pub file_count: i64,
    pub total_bytes: i64,
    pub projected_saved_bytes: i64,
}

/// The originals in retention: those whose transcode is known to be good
/// enough, and the rest.
#[derive(Clone, Copy, Debug, PartialEq, Eq, Structural)]
pub struct RetentionSummary {
    pub confirmed_count: i64,
    pub confirmed_bytes: i64,
    pub held_count: i64,
    pub held_bytes: i64,
}

/// The files that were skipped because their encode was not good enough.
#[derive(Clone, Copy, Debug, PartialEq, Eq, Structural)]
pub struct QualitySkipSummary {
    pub count: i64,
    pub total_bytes: i64,
}

/// The class of a failure is told by what its text contains, wherever it
/// stands: missing video properties come first, then a denied permission, a
/// read-only file system, a rename across devices, and a failed encode. A text
/// without any of these is of no other class.
pub proof fn law_classes_of_failures(
    error: &str,
    class: FailureClass,
    missing: bool,
    denied: bool,
    read_only: bool,
    across: bool,
    encode: bool,
)
    requires
        call_ensures(FailureClass::classify, (error,), class),
        call_ensures(contains, (error, "video properties missing"), missing),
        call_ensures(contains, (error, "Permission denied"), denied),
        call_ensures(contains, (error, "Read-only file system"), read_only),
        call_ensures(contains, (error, "cross-device"), across),
        call_ensures(contains, (error, "ffmpeg failed"), encode),
    ensures
        class is MissingVideoProperties <==> missing,
        class is SwapPermission <==> !missing && denied,
        class is SwapReadOnly <==> !missing && !denied && read_only,
        class is SwapCrossDevice <==> !missing && !denied && !read_only && across,
        class is Ffmpeg <==> !missing && !denied && !read_only && !across && encode,
        class is Other <==> !missing && !denied && !read_only && !across && !encode,
{
}

/// The keys and labels of classes, and which class can be tried again by
/// itself: the one whose probe data is missing, and no other. A key stands for
/// the class that has it, and any other text for none.
pub proof fn law_keys_and_labels(
    class: FailureClass,
    key: &'static str,
    label: &'static str,
    again: bool,
    text: &str,
    read: Option<FailureClass>,
)
    requires
        call_ensures(FailureClass::key, (class,), key),
        call_ensures(FailureClass::label, (class,), label),
        call_ensures(FailureClass::auto_requeueable, (class,), again),
        call_ensures(FailureClass::from_key, (text,), read),
    ensures
        again <==> class == FailureClass::MissingVideoProperties,
        class is MissingVideoProperties ==> key@ == "missing_video_properties"@ && label@
            == "missing video properties"@,
        class is SwapPermission ==> key@ == "swap_permission"@ && label@
            == "swap: permission denied"@,
        class is SwapReadOnly ==> key@ == "swap_read_only"@ && label@
            == "swap: read-only filesystem"@,
        class is SwapCrossDevice ==> key@ == "swap_cross_device"@ && label@
            == "swap: cross-device link"@,
        class is Ffmpeg ==> key@ == "ffmpeg"@ && label@ == "ffmpeg encode failed"@,
        class is Other ==> key@ == "other"@ && label@ == "other"@,
        text@ == key@ <==> read == Some(class),
        text@ != "missing_video_properties"@ && text@ != "swap_permission"@ && text@
            != "swap_read_only"@ && text@ != "swap_cross_device"@ && text@ != "ffmpeg"@ && text@
            != "other"@ ==> read is None,
{
    if let Some(c) = read {
        assert(text@ == key_of(c));
    }
    assert(key@ == key_of(class));
}

/// The number that rows state for a class: 0 where it has no row.
pub open spec fn stated_for(rows: Seq<FailureBreakdownRow>, class: FailureClass) -> int {
    if has_row(rows, class) {
        let i = choose|i: int| 0 <= i < rows.len() && (#[trigger] rows[i]).class == class;
        rows[i].count as int
    } else {
        0
    }
}

/// What rows state for a class is the number of its failures.
proof fn lemma_stated(
    rows: Seq<FailureBreakdownRow>,
    errors: Seq<Option<String>>,
    class: FailureClass,
)
    requires
        is_breakdown(rows, errors),
    ensures
        stated_for(rows, class) == count_of(errors, class),
{
    lemma_count_is_not_negative(errors, class);
    if has_row(rows, class) {
        let i = choose|i: int| 0 <= i < rows.len() && (#[trigger] rows[i]).class == class;
        assert(rows[i].count == count_of(errors, rows[i].class));
    }
}

/// A number of failures is not negative.
proof fn lemma_count_is_not_negative(errors: Seq<Option<String>>, class: FailureClass)
    ensures
        count_of(errors, class) >= 0,
    decreases errors.len(),
{
    if errors.len() > 0 {
        lemma_count_is_not_negative(errors.drop_last(), class);
    }
}

/// Every failure is counted once, for its own class: one failure more raises
/// the number of its class by one and leaves that of every other class. There
/// is nothing where there are no failures, no row states zero, no class has
/// two rows, and the greatest numbers come first.
pub proof fn law_every_failure_is_counted_once(
    errors: Vec<Option<String>>,
    more: Vec<Option<String>>,
    text: &str,
    of: FailureClass,
    class: FailureClass,
    r: Vec<FailureBreakdownRow>,
    s: Vec<FailureBreakdownRow>,
    i: int,
    j: int,
)
    requires
        call_ensures(failure_breakdown, (&errors,), r),
        call_ensures(failure_breakdown, (&more,), s),
        more@.len() == errors@.len() + 1,
        more@.drop_last() == errors@,
        text@ == (match more@.last() {
            Some(e) => e@,
            None => ""@,
        }),
        call_ensures(FailureClass::classify, (text,), of),
    ensures
        errors@.len() == 0 ==> r@.len() == 0,
        stated_for(s@, of) == stated_for(r@, of) + 1,
        class != of ==> stated_for(s@, class) == stated_for(r@, class),
        0 <= i < r@.len() ==> r@[i].count > 0 && r@[i].count == stated_for(r@, r@[i].class),
        0 <= i < j < r@.len() ==> r@[i].class != r@[j].class && r@[i].count >= r@[j].count,
{
    lemma_stated(r@, errors@, of);
    lemma_stated(s@, more@, of);
    lemma_stated(r@, errors@, class);
    lemma_stated(s@, more@, class);
    assert(of == class_of_error(more@.last()));
    if 0 <= i < r@.len() {
        lemma_stated(r@, errors@, r@[i].class);
        assert(has_row(r@, r@[i].class));
    }
    if errors@.len() == 0 && r@.len() > 0 {
        assert(has_row(r@, r@[0].class));
        assert(count_of(errors@, r@[0].class) == 0);
    }
}

/// Exactly the files whose latest failure is of the class are taken up again,
/// in their order: one file more is added behind the others where its failure
/// is of the class, and changes nothing where it is not.
pub proof fn law_files_of_the_class_are_taken_up(
    rows: Vec<FailedFile>,
    more: Vec<FailedFile>,
    text: &str,
    of: FailureClass,
    class: FailureClass,
    r: RequeueRun,
    s: RequeueRun,
)
    requires
        call_ensures(requeue_failed, (&rows, class), r),
        call_ensures(requeue_failed, (&more, class), s),
        more@.len() == rows@.len() + 1,
        more@.drop_last() == rows@,
        text@ == (match more@.last().error {
            Some(e) => e@,
            None => ""@,
        }),
        call_ensures(FailureClass::classify, (text,), of),
    ensures
        rows@.len() == 0 ==> r.ids@.len() == 0,
        of == class ==> s.ids@ == r.ids@ + seq![more@.last().id],
        of != class ==> s.ids@ == r.ids@,
        r.next == 0 && r.moved@.len() == 0 && r.failed is None,
{
    assert(r@ == requeue_start(files_of_class(rows@, class)));
    assert(s@ == requeue_start(files_of_class(more@, class)));
    assert(r@.ids == r.ids@ && s@.ids == s.ids@);
    assert(r@.next == r.next && r@.moved == r.moved@ && r@.failed == r.failed);
    assert(of == class_of_error(more@.last().error));
    assert(r.ids@.push(more@.last().id) =~= r.ids@ + seq![more@.last().id]);
}

/// How a run goes on: the files are asked for one after the other; one that
/// was moved is noted; one that someone else moved in the meantime is passed
/// over; and any other error ends the run and is kept. Once it has ended
/// nothing changes.
pub proof fn law_how_a_requeue_goes_on(
    run: &mut RequeueRun,
    result: Result<(), StoreError>,
    done: (),
    other: RequeueRun,
    step: Option<MediaFileId>,
)
    requires
        call_ensures(RequeueRun::advance, (run, result), done),
        call_ensures(RequeueRun::step, (&other,), step),
    ensures
        step is Some <==> other.failed is None && other.next < other.ids@.len(),
        step matches Some(id) ==> id == other.ids@[other.next as int],
        final(run).ids@ == old(run).ids@,
        old(run).failed is Some || old(run).next >= old(run).ids@.len() ==> final(run).next == old(
            run).next && final(run).moved@ == old(run).moved@ && final(run).failed == old(
            run).failed,
        old(run).failed is None && old(run).next < old(run).ids@.len() ==> match result {
            Ok(_) => final(run).next == old(run).next + 1 && final(run).moved@ == old(run).moved@
                + seq![old(run).ids@[old(run).next as int]] && final(run).failed is None,
            Err(StoreError::StaleState { .. }) => final(run).next == old(run).next + 1 && final(
                run).moved@ == old(run).moved@ && final(run).failed is None,
            Err(e) => final(run).next == old(run).next && final(run).moved@ == old(run).moved@
                && final(run).failed == Some(e),
        },
{
    let (was, now) = (old(run)@, final(run)@);
    assert(now == requeue_next(was, result));
    assert(was.ids == old(run).ids@ && was.next == old(run).next && was.moved == old(run).moved@
        && was.failed == old(run).failed);
    assert(now.ids == final(run).ids@ && now.next == final(run).next && now.moved == final(
        run).moved@ && now.failed == final(run).failed);
    if old(run).failed is None && old(run).next < old(run).ids@.len() {
        let id = old(run).ids@[old(run).next as int];
        assert(was.moved.push(id) =~= was.moved + seq![id]);
    }
    assert(other@.ids == other.ids@ && other@.next == other.next && other@.failed == other.failed);
}

} // verus!
