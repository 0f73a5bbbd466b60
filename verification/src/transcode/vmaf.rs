//! Measuring how close an encoded file comes to its original.
use vstd::prelude::*;
use vstd::string::*;

use crate::binary::Binary64;
use crate::decimal::unsigned_text;
use crate::path::with_extension;

verus! {

/// Why there is no score.
#[derive(Debug)]
pub enum VmafError {
    Spawn(String),
    Ffmpeg { code: Option<i32>, stderr: String },
    ReadLog(String),
    Parse(String),
    MissingScore,
}

/// What the log of a measurement holds.
#[derive(Clone, Copy, Debug, PartialEq, Eq, Structural)]
pub struct VmafLog {
    /// The mean over all frames, where the log states one.
    pub pooled_mean: Option<Binary64>,
}

/// How a measurement went.
#[derive(Debug)]
pub enum VmafRun {
    NotStarted(String),
    Failed { code: Option<i32>, stderr: String },
    NoLog(String),
    /// The log is no JSON of the expected form.
    BadLog(String),
    Logged(VmafLog),
}

/// The score that a log states.
pub fn parse_vmaf_log(log: VmafLog) -> (r: Result<Binary64, VmafError>)
    ensures
        match log.pooled_mean {
            Some(mean) => r == Ok::<Binary64, VmafError>(mean),
            None => r == Err::<Binary64, VmafError>(VmafError::MissingScore),
        },
{
    match log.pooled_mean {
        Some(mean) => Ok(mean),
        None => Err(VmafError::MissingScore),
    }
}

/// The score of a measurement, and whether the log is to be removed: it is
/// unless ffmpeg was not started or left none that could be read.
pub fn vmaf_result(run: VmafRun) -> (r: (Result<Binary64, VmafError>, bool))
    ensures
        match run {
            VmafRun::NotStarted(e) => r == (Err::<Binary64, VmafError>(VmafError::Spawn(e)), false),
            VmafRun::Failed { code, stderr } => r == (
                Err::<Binary64, VmafError>(VmafError::Ffmpeg { code, stderr }),
                true,
            ),
            VmafRun::NoLog(e) => r == (Err::<Binary64, VmafError>(VmafError::ReadLog(e)), false),
            VmafRun::BadLog(e) => r == (Err::<Binary64, VmafError>(VmafError::Parse(e)), true),
            VmafRun::Logged(log) => r.1 && match log.pooled_mean {
                Some(mean) => r.0 == Ok::<Binary64, VmafError>(mean),
                None => r.0 == Err::<Binary64, VmafError>(VmafError::MissingScore),
            },
        },
{
    match run {
        VmafRun::NotStarted(e) => (Err(VmafError::Spawn(e)), false),
        VmafRun::Failed { code, stderr } => (Err(VmafError::Ffmpeg { code, stderr }), true),
        VmafRun::NoLog(e) => (Err(VmafError::ReadLog(e)), false),
        VmafRun::BadLog(e) => (Err(VmafError::Parse(e)), true),
        VmafRun::Logged(log) => (parse_vmaf_log(log), true),
    }
}

/// Where the log of a measurement is written.
pub open spec fn log_path_of(transcoded: Seq<char>) -> Seq<char> {
    crate::path::extended(transcoded, "vmaf.json"@)
}

/// The filters of a measurement. Both streams are brought to one pixel format
/// and begin at time zero, so that their frames are paired one to one.
pub open spec fn filtergraph(log_path: Seq<char>, n_subsample: u32, n_threads: u64) -> Seq<char> {
    "[0:v]setpts=PTS-STARTPTS,format=yuv420p10le[dist];[1:v]setpts=PTS-STARTPTS,format=yuv420p10le[ref];[dist][ref]libvmaf=log_fmt=json:log_path="@
        + log_path + ":n_subsample="@ + crate::decimal::digits(
        if n_subsample == 0 {
            1
        } else {
            n_subsample as nat
        },
    ) + (if n_threads > 0 {
        ":n_threads="@ + crate::decimal::digits(n_threads as nat)
    } else {
        Seq::empty()
    })
}

/// A measurement to be made: the arguments for ffmpeg, and where it writes
/// its log.
#[derive(Debug)]
pub struct VmafCommand {
    pub args: Vec<String>,
    pub log_path: String,
}

/// The measurement of `transcoded` against `original`, on one of every
/// `n_subsample` frames (on all of them for 0), on `n_threads` threads (as
/// many as libvmaf likes for 0). The log is written beside the file.
pub fn compute_vmaf(original: &str, transcoded: &str, n_subsample: u32, n_threads: u64) -> (r:
    VmafCommand)
    ensures
        r.log_path@ == log_path_of(transcoded@),
        forall|dir: Seq<char>, name: Seq<char>|
            crate::path::is_plain_name(name) && crate::path::stem_of(name) != seq!['.']
                && transcoded@ == #[trigger] crate::path::in_dir(dir, name) ==> r.log_path@ == crate::path::in_dir(dir, crate::path::stem_of(name))
                + ".vmaf.json"@,
        crate::text::texts(r.args@) == seq![
            "-nostdin"@,
            "-i"@,
            transcoded@,
            "-i"@,
            original@,
            "-lavfi"@,
            filtergraph(log_path_of(transcoded@), n_subsample, n_threads),
            "-f"@,
            "null"@,
            "-"@,
        ],
{
    proof {
        reveal_strlit("vmaf.json");
        reveal_strlit(".vmaf.json");
        assert(".vmaf.json"@ =~= seq!['.'] + "vmaf.json"@);
    }
    let log_path = with_extension(transcoded, "vmaf.json");
    let every: u64 = if n_subsample == 0 {
        1
    } else {
        n_subsample as u64
    };
    let mut graph =
        "[0:v]setpts=PTS-STARTPTS,format=yuv420p10le[dist];[1:v]setpts=PTS-STARTPTS,format=yuv420p10le[ref];[dist][ref]libvmaf=log_fmt=json:log_path=".to_owned();
    graph.append(log_path.as_str());
    graph.append(":n_subsample=");
    let n = unsigned_text(every);
    graph.append(n.as_str());
    if n_threads > 0 {
        graph.append(":n_threads=");
        let t = unsigned_text(n_threads);
        graph.append(t.as_str());
    }
    assert(graph@ =~= filtergraph(log_path_of(transcoded@), n_subsample, n_threads));
    let mut args: Vec<String> = Vec::new();
    args.push("-nostdin".to_owned());
    args.push("-i".to_owned());
    args.push(transcoded.to_owned());
    args.push("-i".to_owned());
    args.push(original.to_owned());
    args.push("-lavfi".to_owned());
    args.push(graph);
    args.push("-f".to_owned());
    args.push("null".to_owned());
    args.push("-".to_owned());
    assert(crate::text::texts(args@) =~= seq![
        "-nostdin"@,
        "-i"@,
        transcoded@,
        "-i"@,
        original@,
        "-lavfi"@,
        filtergraph(log_path_of(transcoded@), n_subsample, n_threads),
        "-f"@,
        "null"@,
        "-"@,
    ]);
    VmafCommand { args, log_path }
}

/// The arguments of a measurement, one by one: the encoded file comes first
/// and the original second, and what comes out is thrown away. The filters
/// name the log, and measure one of every so many frames, on so many threads,
/// where 0 stands for every frame and for libvmaf's own choice.
pub proof fn law_measurement(
    original: &str,
    transcoded: &str,
    n_subsample: u32,
    n_threads: u64,
    r: VmafCommand,
)
    requires
        call_ensures(compute_vmaf, (original, transcoded, n_subsample, n_threads), r),
    ensures
        r.args@.len() == 10,
        r.args@[0]@ == "-nostdin"@,
        r.args@[1]@ == "-i"@ && r.args@[2]@ == transcoded@,
        r.args@[3]@ == "-i"@ && r.args@[4]@ == original@,
        r.args@[5]@ == "-lavfi"@,
        r.args@[7]@ == "-f"@ && r.args@[8]@ == "null"@ && r.args@[9]@ == "-"@,
        ({
            let head =
                "[0:v]setpts=PTS-STARTPTS,format=yuv420p10le[dist];[1:v]setpts=PTS-STARTPTS,format=yuv420p10le[ref];[dist][ref]libvmaf=log_fmt=json:log_path="@
                + r.log_path@ + ":n_subsample="@;
            let every = if n_subsample == 0 {
                1nat
            } else {
                n_subsample as nat
            };
            let frames = head + crate::decimal::digits(every);
            &&& n_threads == 0 ==> r.args@[6]@ == frames
            &&& n_threads > 0 ==> r.args@[6]@ == frames + (":n_threads="@ + crate::decimal::digits(
                n_threads as nat,
            ))
        }),
{
    crate::text::lemma_texts(r.args@);
    if n_threads == 0 {
        assert(r.args@[6]@ + Seq::<char>::empty() =~= r.args@[6]@);
    }
    let every = if n_subsample == 0 {
        1nat
    } else {
        n_subsample as nat
    };
    let frames =
        "[0:v]setpts=PTS-STARTPTS,format=yuv420p10le[dist];[1:v]setpts=PTS-STARTPTS,format=yuv420p10le[ref];[dist][ref]libvmaf=log_fmt=json:log_path="@
        + r.log_path@ + ":n_subsample="@ + crate::decimal::digits(every);
    assert(frames + Seq::<char>::empty() =~= frames);
}

/// What a measurement comes to: a score exactly where a log was read that
/// states one, and then that one; and the log is removed exactly where ffmpeg
/// ran and left one that could be read, or failed.
pub proof fn law_scores(run: VmafRun, r: (Result<Binary64, VmafError>, bool), log: VmafLog, score: Result<Binary64, VmafError>)
    requires
        call_ensures(vmaf_result, (run,), r),
        call_ensures(parse_vmaf_log, (log,), score),
    ensures
        score is Ok <==> log.pooled_mean is Some,
        score matches Ok(x) ==> log.pooled_mean == Some(x),
        score matches Err(e) ==> e is MissingScore,
        r.0 is Ok <==> (run matches VmafRun::Logged(l) && l.pooled_mean is Some),
        r.0 matches Ok(x) ==> run matches VmafRun::Logged(l) && l.pooled_mean == Some(x),
        r.1 <==> !(run is NotStarted) && !(run is NoLog),
        run matches VmafRun::NotStarted(t) ==> r.0 == Err::<Binary64, VmafError>(
            VmafError::Spawn(t),
        ),
        run matches VmafRun::Failed { code, stderr } ==> r.0 == Err::<Binary64, VmafError>(
            VmafError::Ffmpeg { code, stderr },
        ),
        run matches VmafRun::NoLog(t) ==> r.0 == Err::<Binary64, VmafError>(VmafError::ReadLog(t)),
        run matches VmafRun::BadLog(t) ==> r.0 == Err::<Binary64, VmafError>(VmafError::Parse(t)),
        run matches VmafRun::Logged(l) && l.pooled_mean is None ==> r.0 == Err::<
            Binary64,
            VmafError,
        >(VmafError::MissingScore),
{
}

/// The log of a measurement lies beside the encoded file, under its stem.
pub proof fn law_log_lies_beside(
    original: &str,
    transcoded: &str,
    n_subsample: u32,
    n_threads: u64,
    r: VmafCommand,
    dir: Seq<char>,
    name: Seq<char>,
)
    requires
        call_ensures(compute_vmaf, (original, transcoded, n_subsample, n_threads), r),
        crate::path::is_plain_name(name),
        crate::path::stem_of(name) != seq!['.'],
        transcoded@ == dir + seq!['/'] + name,
    ensures
        r.log_path@ == dir + seq!['/'] + crate::path::stem_of(name) + ".vmaf.json"@,
{
    assert(transcoded@ == crate::path::in_dir(dir, name));
}

} // verus!
