//! Swapping an encoded file into the place of its original, which is kept in
//! retention.
use vstd::prelude::*;
use vstd::string::*;

use crate::ids::uuid_text;
use crate::models::library::MediaFileId;
use crate::path::{file_name, file_stem, join, parent};
use crate::transcode::error::TranscodeError;

verus! {

/// The name under which an original is kept: a label for the media file, and
/// the file's name.
pub open spec fn retention_name(label: Seq<char>, original: Seq<char>) -> Seq<char> {
    label + "_"@ + (match crate::path::file_name_of(original) {
        Some(name) => name,
        None => "file"@,
    })
}

/// Where an original is kept.
pub open spec fn retention_path_of(
    label: Seq<char>,
    original: Seq<char>,
    retention_dir: Seq<char>,
) -> Seq<char> {
    crate::path::joined(retention_dir, retention_name(label, original))
}

/// The name of the file that takes an original's place.
pub open spec fn final_name(original: Seq<char>) -> Seq<char> {
    (match crate::path::file_stem_of(original) {
        Some(stem) => stem,
        None => "output"@,
    }) + ".mkv"@
}

/// The path of the file that takes an original's place: beside it, under its
/// stem, as Matroska.
pub open spec fn final_path_of(original: Seq<char>) -> Seq<char> {
    crate::path::joined(
        match crate::path::parent_of(original) {
            Some(dir) => dir,
            None => "."@,
        },
        final_name(original),
    )
}

/// How a media file is labelled in its retention name.
pub open spec fn id_label(id: MediaFileId) -> Seq<char> {
    "MediaFileId("@ + crate::ids::hyphenated(id.0) + ")"@
}

/// Whether a path lies beside an original, as Matroska and under its stem, where
/// the original is a plain file name in a directory.
pub open spec fn lies_beside(original: Seq<char>, path: Seq<char>) -> bool {
    forall|dir: Seq<char>, name: Seq<char>|
        crate::path::is_trimmed_dir(dir) && crate::path::is_plain_name(name) && original
            == #[trigger] crate::path::in_dir(dir, name) ==> path == crate::path::in_dir(
            dir,
            crate::path::stem_of(name) + ".mkv"@,
        )
}

/// Whether a path is absolute, where the original is and ends in a file name.
pub open spec fn stays_absolute(original: Seq<char>, path: Seq<char>) -> bool {
    crate::models::common::is_absolute(original) && crate::path::file_name_of(original) is Some
        ==> crate::models::common::is_absolute(path)
}

/// The path of the file that takes an original's place.
fn final_path(original: &str) -> (r: String)
    ensures
        r@ == final_path_of(original@),
        lies_beside(original@, r@),
        stays_absolute(original@, r@),
{
    proof {
        reveal_strlit(".mkv");
        assert forall|dir: Seq<char>, name: Seq<char>|
            crate::path::is_trimmed_dir(dir) && crate::path::is_plain_name(name) && original@
                == #[trigger] crate::path::in_dir(dir, name) implies final_name(original@)
            == crate::path::stem_of(name) + ".mkv"@ && final_name(original@)[0] != '/' by {
            crate::path::lemma_file_in_dir(dir, name);
            crate::path::lemma_stem(name);
        }
    }
    let dir = match parent(original) {
        Some(d) => d,
        None => ".".to_owned(),
    };
    let mut name = match file_stem(original) {
        Some(stem) => stem,
        None => "output".to_owned(),
    };
    name.append(".mkv");
    join(dir.as_str(), name.as_str())
}

/// Where an original is kept.
fn retention_path(label: String, original: &str, retention_dir: &str) -> (r: String)
    ensures
        r@ == retention_path_of(label@, original@, retention_dir@),
{
    let mut name = label;
    name.append("_");
    match file_name(original) {
        Some(n) => {
            name.append(n.as_str());
        },
        None => {
            name.append("file");
        },
    }
    join(retention_dir, name.as_str())
}

/// Where an original is kept under the bare identifier of its media file, and
/// the path of the file that takes its place.
pub fn compute_swap_paths(original: &str, retention_dir: &str, media_file_id: MediaFileId) -> (r: (
    String,
    String,
))
    ensures
        r.0@ == retention_path_of(
            crate::ids::hyphenated(media_file_id.0),
            original@,
            retention_dir@,
        ),
        r.1@ == final_path_of(original@),
        lies_beside(original@, r.1@),
        stays_absolute(original@, r.1@),
{
    let label = uuid_text(media_file_id.as_uuid());
    (retention_path(label, original, retention_dir), final_path(original))
}

/// The files of a swap.
#[derive(Debug)]
pub struct SwapPaths {
    pub original: String,
    pub temp: String,
    pub retention: String,
    pub final_path: String,
}

/// The files of a swap, by their characters.
pub struct SwapPathsView {
    pub original: Seq<char>,
    pub temp: Seq<char>,
    pub retention: Seq<char>,
    pub final_path: Seq<char>,
}

impl View for SwapPaths {
    type V = SwapPathsView;

    open spec fn view(&self) -> SwapPathsView {
        SwapPathsView {
            original: self.original@,
            temp: self.temp@,
            retention: self.retention@,
            final_path: self.final_path@,
        }
    }
}

/// The files of a swap of `temp` into the place of `original`.
pub open spec fn swap_paths_of(
    original: Seq<char>,
    temp: Seq<char>,
    retention_dir: Seq<char>,
    id: MediaFileId,
) -> SwapPathsView {
    SwapPathsView {
        original,
        temp,
        retention: retention_path_of(id_label(id), original, retention_dir),
        final_path: final_path_of(original),
    }
}

/// The files of a swap of `temp` into the place of `original`. The new file
/// stands in the original's directory, under its stem.
pub fn swap_paths(original: &str, temp: &str, retention_dir: &str, media_file_id: MediaFileId) -> (r:
    SwapPaths)
    ensures
        r@ == swap_paths_of(original@, temp@, retention_dir@, media_file_id),
        lies_beside(original@, r@.final_path),
        stays_absolute(original@, r@.final_path),
{
    let id = uuid_text(media_file_id.as_uuid());
    let label = "MediaFileId(".to_owned().concat(id.as_str()).concat(")");
    SwapPaths {
        original: original.to_owned(),
        temp: temp.to_owned(),
        retention: retention_path(label, original, retention_dir),
        final_path: final_path(original),
    }
}

/// What a swap left behind.
#[derive(Debug)]
pub struct SwapResult {
    pub final_path: String,
    pub retention_path: String,
}

/// How far a swap has come.
#[derive(Debug)]
pub enum SwapState {
    /// The original is to be moved to retention.
    MovingOriginal,
    /// The encoded file is to be moved into place.
    MovingTemp,
    /// The original is to be moved back, because the encoded file could not be
    /// moved.
    RollingBack(String),
    Swapped,
    Failed(String),
}

/// What is to be done next.
#[derive(Debug)]
pub enum SwapAction {
    Rename { from: String, to: String },
    Finish(Result<SwapResult, TranscodeError>),
}

/// A rename that a swap asks for.
pub open spec fn rename_asked(state: SwapState, p: SwapPathsView) -> Option<(Seq<char>, Seq<char>)> {
    match state {
        SwapState::MovingOriginal => Some((p.original, p.retention)),
        SwapState::MovingTemp => Some((p.temp, p.final_path)),
        SwapState::RollingBack(_) => Some((p.retention, p.original)),
        SwapState::Swapped => None,
        SwapState::Failed(_) => None,
    }
}

/// How a swap goes on after a rename. Whether the original could be moved back
/// makes no difference to what is reported.
pub open spec fn swap_next(state: SwapState, result: Result<(), String>) -> SwapState {
    match (state, result) {
        (SwapState::MovingOriginal, Ok(_)) => SwapState::MovingTemp,
        (SwapState::MovingOriginal, Err(e)) => SwapState::Failed(e),
        (SwapState::MovingTemp, Ok(_)) => SwapState::Swapped,
        (SwapState::MovingTemp, Err(e)) => SwapState::RollingBack(e),
        (SwapState::RollingBack(e), _) => SwapState::Failed(e),
        (SwapState::Swapped, _) => SwapState::Swapped,
        (SwapState::Failed(e), _) => SwapState::Failed(e),
    }
}

/// A swap under way.
#[derive(Debug)]
pub struct Swapper {
    pub paths: SwapPaths,
    pub state: SwapState,
}

impl Swapper {
    /// A swap that has not begun.
    pub fn new(original: &str, temp: &str, retention_dir: &str, media_file_id: MediaFileId) -> (r:
        Self)
        ensures
            r.paths@ == swap_paths_of(original@, temp@, retention_dir@, media_file_id),
            lies_beside(original@, r.paths@.final_path),
            stays_absolute(original@, r.paths@.final_path),
            r.state is MovingOriginal,
    {
        Swapper {
            paths: swap_paths(original, temp, retention_dir, media_file_id),
            state: SwapState::MovingOriginal,
        }
    }

    /// What is to be done next: a rename, or to report how the swap ended.
    pub fn action(&self) -> (r: SwapAction)
        ensures
            match (rename_asked(self.state, self.paths@), r) {
                (Some((from, to)), SwapAction::Rename { from: f, to: t }) => f@ == from && t@ == to,
                (None, SwapAction::Finish(Ok(result))) => self.state is Swapped
                    && result.final_path@ == self.paths@.final_path && result.retention_path@
                    == self.paths@.retention,
                (None, SwapAction::Finish(Err(e))) => self.state is Failed
                    && (e matches TranscodeError::SwapFailed(t) && t@ == self.state->Failed_0@),
                _ => false,
            },
    {
        match &self.state {
            SwapState::MovingOriginal => SwapAction::Rename {
                from: self.paths.original.clone(),
                to: self.paths.retention.clone(),
            },
            SwapState::MovingTemp => SwapAction::Rename {
                from: self.paths.temp.clone(),
                to: self.paths.final_path.clone(),
            },
            SwapState::RollingBack(_) => SwapAction::Rename {
                from: self.paths.retention.clone(),
                to: self.paths.original.clone(),
            },
            SwapState::Swapped => SwapAction::Finish(
                Ok(
                    SwapResult {
                        final_path: self.paths.final_path.clone(),
                        retention_path: self.paths.retention.clone(),
                    },
                ),
            ),
            SwapState::Failed(e) => SwapAction::Finish(Err(TranscodeError::SwapFailed(e.clone()))),
        }
    }

    /// Takes the result of the rename that was asked for.
    pub fn advance(self, result: Result<(), String>) -> (r: Self)
        ensures
            r.paths == self.paths,
            r.state == swap_next(self.state, result),
    {
        let state = match (self.state, result) {
            (SwapState::MovingOriginal, Ok(_)) => SwapState::MovingTemp,
            (SwapState::MovingOriginal, Err(e)) => SwapState::Failed(e),
            (SwapState::MovingTemp, Ok(_)) => SwapState::Swapped,
            (SwapState::MovingTemp, Err(e)) => SwapState::RollingBack(e),
            (SwapState::RollingBack(e), _) => SwapState::Failed(e),
            (SwapState::Swapped, _) => SwapState::Swapped,
            (SwapState::Failed(e), _) => SwapState::Failed(e),
        };
        Swapper { paths: self.paths, state }
    }
}

/// The contents of the files on a disk.
pub type Disk = Map<Seq<char>, Seq<u8>>;

/// A disk on which a file was renamed. A file of the new name is replaced.
pub open spec fn renamed(disk: Disk, from: Seq<char>, to: Seq<char>) -> Disk {
    disk.remove(from).insert(to, disk[from])
}

/// A disk after the rename that a swap asks for: where it succeeds the file is
/// renamed, and otherwise the disk stays as it is.
pub open spec fn disk_after(disk: Disk, state: SwapState, p: SwapPathsView, result: Result<
    (),
    String,
>) -> Disk {
    match (rename_asked(state, p), result) {
        (Some((from, to)), Ok(_)) => renamed(disk, from, to),
        _ => disk,
    }
}

/// Whether a swap can be begun: the original and the encoded file are there,
/// no two of the paths are one, but that the new file may take the very path
/// of the original, and nothing else stands where a file is to be put.
pub open spec fn can_begin(start: Disk, p: SwapPathsView) -> bool {
    &&& start.contains_key(p.original)
    &&& start.contains_key(p.temp)
    &&& !start.contains_key(p.retention)
    &&& p.temp != p.original
    &&& p.final_path != p.temp
    &&& p.final_path != p.retention
    &&& p.final_path != p.original ==> !start.contains_key(p.final_path)
}

/// What the disk holds when a swap has come that far.
pub open spec fn disk_at(state: SwapState, start: Disk, disk: Disk, p: SwapPathsView) -> bool {
    let kept = renamed(start, p.original, p.retention);
    match state {
        SwapState::MovingOriginal => disk == start,
        SwapState::MovingTemp => disk == kept,
        SwapState::RollingBack(_) => disk == kept,
        SwapState::Swapped => disk == renamed(kept, p.temp, p.final_path),
        SwapState::Failed(_) => disk == start || disk == kept,
    }
}

/// Every rename of a swap, whether it succeeds or not, leads to a disk that
/// belongs to the state that the swap is in afterwards.
pub proof fn law_swap_steps(
    state: SwapState,
    start: Disk,
    disk: Disk,
    p: SwapPathsView,
    result: Result<(), String>,
)
    requires
        can_begin(start, p),
        disk_at(state, start, disk, p),
    ensures
        disk_at(swap_next(state, result), start, disk_after(disk, state, p, result), p),
{
    let kept = renamed(start, p.original, p.retention);
    if state is RollingBack && result is Ok {
        assert(renamed(kept, p.retention, p.original) =~= start);
    }
}

/// The files of the swap that belongs to a transcode: the encoded file is the
/// one that was encoded for that media file.
pub open spec fn job_paths(
    original: Seq<char>,
    tmp_dir: Seq<char>,
    retention_dir: Seq<char>,
    id: MediaFileId,
) -> SwapPathsView {
    swap_paths_of(
        original,
        crate::transcode::job::temp_path_of(tmp_dir, id),
        retention_dir,
        id,
    )
}

/// The retention path of a transcode is neither its temporary nor its final
/// path, whatever the directories are.
pub proof fn law_retention_path_is_free(
    original: Seq<char>,
    tmp_dir: Seq<char>,
    retention_dir: Seq<char>,
    id: MediaFileId,
)
    ensures
        job_paths(original, tmp_dir, retention_dir, id).retention != job_paths(
            original,
            tmp_dir,
            retention_dir,
            id,
        ).temp,
        job_paths(original, tmp_dir, retention_dir, id).retention != job_paths(
            original,
            tmp_dir,
            retention_dir,
            id,
        ).final_path,
{
    let kept = retention_name(id_label(id), original);
    let made = final_name(original);
    let encoded = crate::ids::hyphenated(id.0) + ".mkv"@;
    reveal_strlit("MediaFileId(");
    reveal_strlit(")");
    reveal_strlit("_");
    reveal_strlit("file");
    reveal_strlit("output");
    reveal_strlit(".mkv");
    assert("MediaFileId("@.len() == 12 && ")"@.len() == 1 && "_"@.len() == 1);
    assert("file"@.len() == 4 && "output"@.len() == 6 && ".mkv"@.len() == 4);
    crate::ids::lemma_uuid_round_trip(id.0);
    crate::path::lemma_file_name(original);
    if let Some(name) = crate::path::file_name_of(original) {
        crate::path::lemma_stem(name);
    }
    assert(crate::text::lacks(id_label(id), '/'));
    assert(crate::text::lacks(kept, '/'));
    assert(crate::text::lacks(made, '/'));
    assert(crate::text::lacks(encoded, '/'));
    crate::path::lemma_joined_last(retention_dir, kept);
    crate::path::lemma_joined_last(tmp_dir, encoded);
    crate::path::lemma_joined_last(
        match crate::path::parent_of(original) {
            Some(dir) => dir,
            None => "."@,
        },
        made,
    );
    assert(kept.len() > made.len());
    assert(kept.len() > encoded.len());
}

/// Whether a disk holds a content at a path.
pub open spec fn holds(disk: Disk, path: Seq<char>, content: Seq<u8>) -> bool {
    disk.contains_key(path) && disk[path] == content
}

/// Where the original is when a swap has come that far.
pub open spec fn holds_original(
    state: SwapState,
    disk: Disk,
    p: SwapPathsView,
    content: Seq<u8>,
) -> bool {
    match state {
        SwapState::MovingOriginal => holds(disk, p.original, content),
        SwapState::Failed(_) => holds(disk, p.original, content) || holds(
            disk,
            p.retention,
            content,
        ),
        _ => holds(disk, p.retention, content),
    }
}

/// The original is never lost: at every point of a swap, also where it is
/// broken off, the original's content is at its own path or in retention,
/// whatever else stands on the disk.
pub proof fn law_original_is_kept(
    original: Seq<char>,
    tmp_dir: Seq<char>,
    retention_dir: Seq<char>,
    id: MediaFileId,
    state: SwapState,
    disk: Disk,
    content: Seq<u8>,
    result: Result<(), String>,
)
    requires
        holds_original(
            state,
            disk,
            job_paths(original, tmp_dir, retention_dir, id),
            content,
        ),
    ensures
        ({
            let p = job_paths(original, tmp_dir, retention_dir, id);
            let after = disk_after(disk, state, p, result);
            &&& holds_original(swap_next(state, result), after, p, content)
            &&& holds(disk, original, content) || holds(disk, p.retention, content)
            &&& holds(after, original, content) || holds(after, p.retention, content)
        }),
{
    law_retention_path_is_free(original, tmp_dir, retention_dir, id);
}

/// Where the encoded file is when a swap has come that far.
pub open spec fn holds_encoded(
    state: SwapState,
    disk: Disk,
    p: SwapPathsView,
    content: Seq<u8>,
) -> bool {
    match state {
        SwapState::Swapped => holds(disk, p.final_path, content) && !disk.contains_key(p.temp),
        _ => holds(disk, p.temp, content),
    }
}

/// The encoded file comes through a swap: until it is moved it is at its
/// temporary path, and afterwards at the final one and no longer at the
/// temporary one. This does not hold of a file that was to be encoded onto
/// itself, or that is encoded to the very path that it is to have.
pub proof fn law_encoded_file_arrives(
    original: Seq<char>,
    tmp_dir: Seq<char>,
    retention_dir: Seq<char>,
    id: MediaFileId,
    state: SwapState,
    disk: Disk,
    content: Seq<u8>,
    result: Result<(), String>,
)
    requires
        holds_encoded(
            state,
            disk,
            job_paths(original, tmp_dir, retention_dir, id),
            content,
        ),
        job_paths(original, tmp_dir, retention_dir, id).temp != original,
        job_paths(original, tmp_dir, retention_dir, id).temp != job_paths(
            original,
            tmp_dir,
            retention_dir,
            id,
        ).final_path,
    ensures
        ({
            let p = job_paths(original, tmp_dir, retention_dir, id);
            holds_encoded(
                swap_next(state, result),
                disk_after(disk, state, p, result),
                p,
                content,
            )
        }),
{
    law_retention_path_is_free(original, tmp_dir, retention_dir, id);
}

/// A swap whose second rename fails leaves the disk as it was, if the original
/// can be moved back.
pub proof fn law_rollback_restores(start: Disk, disk: Disk, p: SwapPathsView, error: String)
    requires
        can_begin(start, p),
        disk_at(SwapState::RollingBack(error), start, disk, p),
    ensures
        disk_after(disk, SwapState::RollingBack(error), p, Ok(())) == start,
{
    assert(renamed(renamed(start, p.original, p.retention), p.retention, p.original) =~= start);
}

/// The renames of a swap: the original to its place in retention, then the
/// encoded file to its final path, and where that fails the original back from
/// retention to where it was. A swap that ended reports its paths, or the
/// error of the rename that failed.
pub proof fn law_renames(swapper: Swapper, r: SwapAction)
    requires
        call_ensures(Swapper::action, (&swapper,), r),
    ensures
        swapper.state is MovingOriginal ==> (r matches SwapAction::Rename { from, to } && from@
            == swapper.paths.original@ && to@ == swapper.paths.retention@),
        swapper.state is MovingTemp ==> (r matches SwapAction::Rename { from, to } && from@
            == swapper.paths.temp@ && to@ == swapper.paths.final_path@),
        swapper.state is RollingBack ==> (r matches SwapAction::Rename { from, to } && from@
            == swapper.paths.retention@ && to@ == swapper.paths.original@),
        swapper.state is Swapped ==> (r matches SwapAction::Finish(Ok(s)) && s.final_path@
            == swapper.paths.final_path@ && s.retention_path@ == swapper.paths.retention@),
        swapper.state matches SwapState::Failed(e) ==> (r matches SwapAction::Finish(
            Err(TranscodeError::SwapFailed(t)),
        ) && t@ == e@),
{
}

/// The order of a swap: a rename that succeeds leads on, a first one that
/// fails ends the swap, and a second one that fails is taken back first and
/// then reported with its own error, however taking it back went.
pub proof fn law_order_of_a_swap(swapper: Swapper, result: Result<(), String>, r: Swapper)
    requires
        call_ensures(Swapper::advance, (swapper, result), r),
    ensures
        r.paths == swapper.paths,
        swapper.state is MovingOriginal && result is Ok ==> r.state is MovingTemp,
        swapper.state is MovingOriginal && result is Err ==> r.state == SwapState::Failed(
            result->Err_0,
        ),
        swapper.state is MovingTemp && result is Ok ==> r.state is Swapped,
        swapper.state is MovingTemp && result is Err ==> r.state == SwapState::RollingBack(
            result->Err_0,
        ),
        swapper.state matches SwapState::RollingBack(e) ==> r.state == SwapState::Failed(e),
        swapper.state is Swapped || swapper.state is Failed ==> r.state == swapper.state,
{
}

/// Where the files of a swap are, for an original that is a plain file in a
/// directory: the new file lies in the original's directory under its stem,
/// and the original is kept in the retention directory under its own name,
/// behind a label of the media file.
pub proof fn law_places_of_a_swap(
    original: &str,
    temp: &str,
    retention_dir: &str,
    id: MediaFileId,
    dir: Seq<char>,
    name: Seq<char>,
    text: String,
    swapper: Swapper,
    computed: (String, String),
    paths: SwapPaths,
)
    requires
        call_ensures(swap_paths, (original, temp, retention_dir, id), paths),
        call_ensures(Swapper::new, (original, temp, retention_dir, id), swapper),
        call_ensures(compute_swap_paths, (original, retention_dir, id), computed),
        text@ == crate::ids::hyphenated(id.0),
        crate::path::is_trimmed_dir(dir),
        name.len() > 0 && crate::text::lacks(name, '/') && name != seq!['.'] && name != seq![
            '.',
            '.',
        ],
        original@ == dir + seq!['/'] + name,
        retention_dir@.len() > 0 && retention_dir@.last() != '/',
    ensures
        swapper.state is MovingOriginal,
        swapper.paths.original@ == original@,
        swapper.paths.temp@ == temp@,
        swapper.paths.retention@ == retention_dir@ + seq!['/'] + ("MediaFileId("@ + text@ + ")"@
            + "_"@ + name),
        computed.0@ == retention_dir@ + seq!['/'] + (text@ + "_"@ + name),
        swapper.paths.final_path@ == dir + seq!['/'] + (crate::path::stem_of(name) + ".mkv"@),
        computed.1@ == swapper.paths.final_path@,
        paths@ == swapper.paths@,
{
    assert(crate::path::is_plain_name(name));
    assert(original@ == crate::path::in_dir(dir, name));
    crate::path::lemma_file_in_dir(dir, name);
    reveal_strlit("MediaFileId(");
    reveal_strlit("_");
    assert("MediaFileId("@.len() == 12 && "MediaFileId("@[0] == 'M');
    crate::ids::lemma_uuid_round_trip(id.0);
    let full = retention_name(id_label(id), original@);
    assert(full[0] == 'M');
    let bare = retention_name(crate::ids::hyphenated(id.0), original@);
    assert(crate::text::lacks(text@, '/'));
    assert(bare[0] == text@[0]);
}

/// Where the files of a swap are, whatever the original's path and the
/// retention directory are: the original is kept under its name, or as `file`
/// where it has none, and the new file lies in the original's directory, or in
/// the current one where it has none, under the original's stem, or as
/// `output` where it has none.
pub proof fn law_places_of_any_swap(
    original: &str,
    temp: &str,
    retention_dir: &str,
    id: MediaFileId,
    swapper: Swapper,
    kept: &str,
    dir: &str,
    made: &str,
    retention: String,
    final_path: String,
)
    requires
        call_ensures(Swapper::new, (original, temp, retention_dir, id), swapper),
        kept@ == "MediaFileId("@ + crate::ids::hyphenated(id.0) + ")"@ + "_"@ + (
        match crate::path::file_name_of(original@) {
            Some(name) => name,
            None => "file"@,
        }),
        dir@ == (match crate::path::parent_of(original@) {
            Some(parent) => parent,
            None => "."@,
        }),
        made@ == (match crate::path::file_name_of(original@) {
            Some(name) => crate::path::stem_of(name),
            None => "output"@,
        }) + ".mkv"@,
        call_ensures(join, (retention_dir, kept), retention),
        call_ensures(join, (dir, made), final_path),
    ensures
        swapper.paths.retention@ == retention@,
        swapper.paths.final_path@ == final_path@,
        swapper.paths.original@ == original@,
        swapper.paths.temp@ == temp@,
{
    assert(swapper.paths@.retention == swapper.paths.retention@);
    assert(swapper.paths@.final_path == swapper.paths.final_path@);
    assert(swapper.paths@.original == swapper.paths.original@);
    assert(swapper.paths@.temp == swapper.paths.temp@);
}

} // verus!
