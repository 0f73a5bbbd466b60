//! The encoders and the arguments that ffmpeg is given for each.
use vstd::prelude::*;
use vstd::string::*;

use crate::decimal::unsigned_text;
use crate::models::video::ColorMetadata;
use crate::text::same_text;

verus! {

/// A way to encode HEVC.
#[derive(Clone, Copy, Debug, PartialEq, Eq, Structural)]
pub enum Encoder {
    Nvenc,
    VideoToolbox,
    Libx265,
}

/// Appends copies of strings.
fn push_all<const N: usize>(args: &mut Vec<String>, items: [&str; N])
    ensures
        crate::text::texts(final(args)@) == crate::text::texts(old(args)@) + items@.map_values(
            |s: &str| s@,
        ),
{
    let mut i: usize = 0;
    while i < N
        invariant
            i <= N,
            items@.len() == N,
            crate::text::texts(args@) == crate::text::texts(old(args)@) + items@.take(
                i as int,
            ).map_values(|s: &str| s@),
        decreases N - i,
    {
        let ghost before = args@;
        args.push(items[i].to_owned());
        proof {
            assert(crate::text::texts(args@) =~= crate::text::texts(before).push(
                items@[i as int]@,
            ));
            assert(items@.take(i + 1).map_values(|s: &str| s@) =~= items@.take(
                i as int,
            ).map_values(|s: &str| s@).push(items@[i as int]@));
        }
        i = i + 1;
    }
    assert(items@.take(N as int) =~= items@);
}

/// The quality that VideoToolbox is asked for: 100 less twice the rate factor,
/// and no less than 0.
pub open spec fn videotoolbox_quality(crf: u8) -> nat {
    if crf <= 50 {
        (100 - 2 * crf) as nat
    } else {
        0
    }
}

/// The parameters that x265 is given for a file's colours.
pub open spec fn x265_params(color: Option<crate::models::video::ColorView>) -> Seq<char> {
    "aq-mode=3"@ + (match color {
        Some(c) => x265_color(c),
        None => Seq::empty(),
    })
}

/// The x265 parameters for the mastering display and the light levels.
pub open spec fn x265_color(c: crate::models::video::ColorView) -> Seq<char> {
    (match c.master_display {
        Some(md) => ":master-display="@ + md,
        None => Seq::empty(),
    }) + (match c.max_cll {
        Some(mc) => ":max-cll="@ + mc,
        None => Seq::empty(),
    })
}

/// Every stream of the input is mapped and copied unless said otherwise.
pub open spec fn base_args() -> Seq<Seq<char>> {
    seq!["-map"@, "0"@, "-c"@, "copy"@]
}

/// The arguments that choose an encoder and its quality.
pub open spec fn codec_args(
    encoder: Encoder,
    crf: u8,
    color: Option<crate::models::video::ColorView>,
) -> Seq<Seq<char>> {
    match encoder {
        Encoder::Nvenc => seq![
            "-c:v"@,
            "hevc_nvenc"@,
            "-pix_fmt"@,
            "p010le"@,
            "-profile:v"@,
            "main10"@,
            "-preset"@,
            "p7"@,
            "-tune"@,
            "hq"@,
            "-rc"@,
            "vbr"@,
            "-cq"@,
            crate::decimal::digits(crf as nat),
            "-b:v"@,
            "0"@,
            "-spatial-aq"@,
            "1"@,
            "-aq-strength"@,
            "8"@,
            "-rc-lookahead"@,
            "32"@,
            "-bf"@,
            "0"@,
            "-tag:v"@,
            "hvc1"@,
        ],
        Encoder::Libx265 => seq![
            "-c:v"@,
            "libx265"@,
            "-pix_fmt"@,
            "yuv420p10le"@,
            "-profile:v"@,
            "main10"@,
            "-preset"@,
            "slow"@,
            "-crf"@,
            crate::decimal::digits(crf as nat),
            "-x265-params"@,
            x265_params(color),
            "-tag:v"@,
            "hvc1"@,
        ],
        Encoder::VideoToolbox => seq![
            "-c:v"@,
            "hevc_videotoolbox"@,
            "-pix_fmt"@,
            "p010le"@,
            "-profile:v"@,
            "main10"@,
            "-q:v"@,
            crate::decimal::digits(videotoolbox_quality(crf)),
            "-tag:v"@,
            "hvc1"@,
        ],
    }
}

/// The arguments that carry a file's colours over.
pub open spec fn color_args(color: Option<crate::models::video::ColorView>) -> Seq<Seq<char>> {
    match color {
        Some(c) => seq![
            "-color_primaries"@,
            c.color_primaries,
            "-color_trc"@,
            c.color_trc,
            "-colorspace"@,
            c.colorspace,
        ],
        None => Seq::empty(),
    }
}

/// What optional colour metadata holds.
pub open spec fn color_view(color: Option<&ColorMetadata>) -> Option<
    crate::models::video::ColorView,
> {
    match color {
        Some(c) => Some(c@),
        None => None,
    }
}

impl Encoder {
    /// The name of an encoder in the configuration.
    pub open spec fn name(self) -> Seq<char> {
        match self {
            Encoder::Nvenc => "nvenc"@,
            Encoder::VideoToolbox => "videotoolbox"@,
            Encoder::Libx265 => "libx265"@,
        }
    }

    /// The encoder that a configured name stands for.
    pub fn from_env_override(name: Option<&str>) -> (r: Option<Self>)
        ensures
            match r {
                Some(e) => name matches Some(n) && n@ == e.name(),
                None => name matches Some(n) ==> forall|e: Encoder|
                    #![trigger e.name()]
                    n@ != e.name(),
            },
            name matches Some(n) ==> forall|e: Encoder|
                #![trigger e.name()]
                n@ == e.name() ==> r == Some(e),
    {
        proof {
            assert forall|a: Encoder, b: Encoder| #[trigger] a.name() == #[trigger] b.name() implies a
                == b by {
                law_encoder_names_differ(a, b);
            }
        }
        let name = match name {
            Some(n) => n,
            None => {
                return None;
            },
        };
        if same_text(name, "nvenc") {
            Some(Encoder::Nvenc)
        } else if same_text(name, "videotoolbox") {
            Some(Encoder::VideoToolbox)
        } else if same_text(name, "libx265") {
            Some(Encoder::Libx265)
        } else {
            None
        }
    }

    /// The arguments that ffmpeg is given between its input and its output.
    pub fn build_args(&self, crf: u8, color: Option<&ColorMetadata>) -> (r: Vec<String>)
        ensures
            crate::text::texts(r@) == base_args() + codec_args(*self, crf, color_view(color))
                + color_args(color_view(color)),
    {
        let mut args: Vec<String> = Vec::new();
        push_all(&mut args, ["-map", "0", "-c", "copy"]);
        assert(crate::text::texts(args@) =~= base_args());
        match self {
            Encoder::Nvenc => {
                let quality = unsigned_text(crf as u64);
                push_all(
                    &mut args,
                    [
                        "-c:v",
                        "hevc_nvenc",
                        "-pix_fmt",
                        "p010le",
                        "-profile:v",
                        "main10",
                        "-preset",
                        "p7",
                        "-tune",
                        "hq",
                        "-rc",
                        "vbr",
                        "-cq",
                        quality.as_str(),
                        "-b:v",
                        "0",
                        "-spatial-aq",
                        "1",
                        "-aq-strength",
                        "8",
                        "-rc-lookahead",
                        "32",
                        "-bf",
                        "0",
                        "-tag:v",
                        "hvc1",
                    ],
                );
            },
            Encoder::Libx265 => {
                let mut params = "aq-mode=3".to_owned();
                if let Some(c) = color {
                    append_x265_color(c, &mut params);
                }
                assert(params@ =~= x265_params(color_view(color)));
                let quality = unsigned_text(crf as u64);
                push_all(
                    &mut args,
                    [
                        "-c:v",
                        "libx265",
                        "-pix_fmt",
                        "yuv420p10le",
                        "-profile:v",
                        "main10",
                        "-preset",
                        "slow",
                        "-crf",
                        quality.as_str(),
                        "-x265-params",
                        params.as_str(),
                        "-tag:v",
                        "hvc1",
                    ],
                );
            },
            Encoder::VideoToolbox => {
                let q: u64 = if crf <= 50 {
                    100 - 2 * (crf as u64)
                } else {
                    0
                };
                let quality = unsigned_text(q);
                push_all(
                    &mut args,
                    [
                        "-c:v",
                        "hevc_videotoolbox",
                        "-pix_fmt",
                        "p010le",
                        "-profile:v",
                        "main10",
                        "-q:v",
                        quality.as_str(),
                        "-tag:v",
                        "hvc1",
                    ],
                );
            },
        }
        assert(crate::text::texts(args@) =~= base_args() + codec_args(
            *self,
            crf,
            color_view(color),
        ));
        if let Some(c) = color {
            push_all(
                &mut args,
                [
                    "-color_primaries",
                    c.color_primaries.as_str(),
                    "-color_trc",
                    c.color_trc.as_str(),
                    "-colorspace",
                    c.colorspace.as_str(),
                ],
            );
        }
        assert(crate::text::texts(args@) =~= base_args() + codec_args(
            *self,
            crf,
            color_view(color),
        ) + color_args(color_view(color)));
        args
    }
}

/// Appends the x265 parameters for the mastering display and the light
/// levels.
pub fn append_x265_color(color: &ColorMetadata, params: &mut String)
    ensures
        final(params)@ == old(params)@ + x265_color(color@),
{
    if let Some(md) = &color.master_display {
        params.append(":master-display=");
        params.append(md.as_str());
    }
    if let Some(mc) = &color.max_cll {
        params.append(":max-cll=");
        params.append(mc.as_str());
    }
    assert(params@ =~= old(params)@ + x265_color(color@));
}

/// No two encoders have one name.
pub proof fn law_encoder_names_differ(a: Encoder, b: Encoder)
    requires
        a.name() == b.name(),
    ensures
        a == b,
{
    reveal_strlit("nvenc");
    reveal_strlit("videotoolbox");
    reveal_strlit("libx265");
    assert("nvenc"@.len() == 5);
    assert("videotoolbox"@.len() == 12);
    assert("libx265"@.len() == 7);
}

/// Whether an argument tells ffmpeg about colours.
pub open spec fn is_color_flag(arg: Seq<char>) -> bool {
    arg == "-color_primaries"@ || arg == "-color_trc"@ || arg == "-colorspace"@
}

/// A file without colour metadata is encoded without a word on colours.
pub proof fn law_no_colors_no_flags(encoder: Encoder, crf: u8, i: int)
    requires
        0 <= i < (base_args() + codec_args(encoder, crf, None) + color_args(None)).len(),
    ensures
        !is_color_flag((base_args() + codec_args(encoder, crf, None) + color_args(None))[i]),
{
    reveal_strlit("-map");
    reveal_strlit("0");
    reveal_strlit("-c");
    reveal_strlit("copy");
    reveal_strlit("-c:v");
    reveal_strlit("hevc_nvenc");
    reveal_strlit("-pix_fmt");
    reveal_strlit("p010le");
    reveal_strlit("-profile:v");
    reveal_strlit("main10");
    reveal_strlit("-preset");
    reveal_strlit("p7");
    reveal_strlit("-tune");
    reveal_strlit("hq");
    reveal_strlit("-rc");
    reveal_strlit("vbr");
    reveal_strlit("-cq");
    reveal_strlit("-b:v");
    reveal_strlit("-spatial-aq");
    reveal_strlit("1");
    reveal_strlit("-aq-strength");
    reveal_strlit("8");
    reveal_strlit("-rc-lookahead");
    reveal_strlit("32");
    reveal_strlit("-bf");
    reveal_strlit("-tag:v");
    reveal_strlit("hvc1");
    reveal_strlit("libx265");
    reveal_strlit("yuv420p10le");
    reveal_strlit("slow");
    reveal_strlit("-crf");
    reveal_strlit("-x265-params");
    reveal_strlit("aq-mode=3");
    reveal_strlit("hevc_videotoolbox");
    reveal_strlit("-q:v");
    reveal_strlit("-color_primaries");
    reveal_strlit("-color_trc");
    reveal_strlit("-colorspace");
    assert(forall|arg: Seq<char>| #[trigger]
        is_color_flag(arg) ==> arg.len() > 2 && arg[0] == '-' && arg[1] == 'c' && arg[2] == 'o');
    assert("-map"@[1] == 'm');
    assert("0"@[0] == '0');
    assert("-c"@.len() == 2);
    assert("copy"@[0] == 'c');
    assert("-c:v"@[2] == ':');
    assert("hevc_nvenc"@[0] == 'h');
    assert("-pix_fmt"@[1] == 'p');
    assert("p010le"@[0] == 'p');
    assert("-profile:v"@[1] == 'p');
    assert("main10"@[0] == 'm');
    assert("-preset"@[1] == 'p');
    assert("p7"@[0] == 'p');
    assert("-tune"@[1] == 't');
    assert("hq"@[0] == 'h');
    assert("-rc"@[1] == 'r');
    assert("vbr"@[0] == 'v');
    assert("-cq"@[2] == 'q');
    assert("-b:v"@[1] == 'b');
    assert("-spatial-aq"@[1] == 's');
    assert("1"@[0] == '1');
    assert("-aq-strength"@[1] == 'a');
    assert("8"@[0] == '8');
    assert("-rc-lookahead"@[1] == 'r');
    assert("32"@[0] == '3');
    assert("-bf"@[1] == 'b');
    assert("-tag:v"@[1] == 't');
    assert("hvc1"@[0] == 'h');
    assert("libx265"@[0] == 'l');
    assert("yuv420p10le"@[0] == 'y');
    assert("slow"@[0] == 's');
    assert("-crf"@[2] == 'r');
    assert("-x265-params"@[1] == 'x');
    assert("aq-mode=3"@[0] == 'a');
    assert("hevc_videotoolbox"@[0] == 'h');
    assert("-q:v"@[1] == 'q');
    crate::decimal::lemma_digits(crf as nat);
    crate::decimal::lemma_digits(videotoolbox_quality(crf));
    assert(crate::decimal::is_digit(crate::decimal::digits(crf as nat)[0]));
    assert(crate::decimal::is_digit(crate::decimal::digits(videotoolbox_quality(crf))[0]));
    assert(x265_params(None) =~= "aq-mode=3"@);
    let args = base_args() + codec_args(encoder, crf, None) + color_args(None);
    if i >= 4 {
        assert(args[i] == codec_args(encoder, crf, None)[i - 4]);
    }
}

/// Where the arguments of an encoding stand: four that copy all streams, those
/// of the encoder, and those of the colours.
proof fn lemma_args(
    encoder: Encoder,
    crf: u8,
    color: Option<crate::models::video::ColorView>,
    v: Seq<String>,
)
    requires
        crate::text::texts(v) == base_args() + codec_args(encoder, crf, color) + color_args(color),
    ensures
        v.len() == 4 + codec_args(encoder, crf, color).len() + color_args(color).len(),
        v[0]@ == "-map"@ && v[1]@ == "0"@ && v[2]@ == "-c"@ && v[3]@ == "copy"@,
        forall|i: int|
            4 <= i < 4 + codec_args(encoder, crf, color).len() ==> #[trigger] v[i]@ == codec_args(
                encoder,
                crf,
                color,
            )[i - 4],
        forall|i: int|
            4 + codec_args(encoder, crf, color).len() <= i < v.len() ==> #[trigger] v[i]@
                == color_args(color)[i - 4 - codec_args(encoder, crf, color).len()],
{
    crate::text::lemma_texts(v);
    let b = base_args();
    let c = codec_args(encoder, crf, color);
    let e = color_args(color);
    assert(b.len() == 4);
    assert(v.len() == (b + c + e).len());
}

/// The arguments for NVENC, one by one: all streams are mapped and copied, the
/// video is encoded as 10-bit HEVC by NVENC, the argument behind `-cq` is the
/// rate factor in decimal notation, and the one behind `-b:v` is `0`.
pub proof fn law_nvenc_arguments(crf: u8, color: Option<&ColorMetadata>, r: Vec<String>)
    requires
        call_ensures(Encoder::build_args, (&Encoder::Nvenc, crf, color), r),
    ensures
        r@.len() == (if color is Some {
            36int
        } else {
            30
        }),
        r@[0]@ == "-map"@ && r@[1]@ == "0"@ && r@[2]@ == "-c"@ && r@[3]@ == "copy"@,
        r@[4]@ == "-c:v"@ && r@[5]@ == "hevc_nvenc"@,
        r@[6]@ == "-pix_fmt"@ && r@[7]@ == "p010le"@,
        r@[8]@ == "-profile:v"@ && r@[9]@ == "main10"@,
        r@[10]@ == "-preset"@ && r@[11]@ == "p7"@ && r@[12]@ == "-tune"@ && r@[13]@ == "hq"@,
        r@[14]@ == "-rc"@ && r@[15]@ == "vbr"@,
        r@[16]@ == "-cq"@ && crate::decimal::all_digits(r@[17]@) && crate::decimal::value_of(
            r@[17]@,
        ) == crf,
        r@[18]@ == "-b:v"@ && r@[19]@ == "0"@,
        r@[20]@ == "-spatial-aq"@ && r@[21]@ == "1"@ && r@[22]@ == "-aq-strength"@ && r@[23]@
            == "8"@,
        r@[24]@ == "-rc-lookahead"@ && r@[25]@ == "32"@ && r@[26]@ == "-bf"@ && r@[27]@ == "0"@,
        r@[28]@ == "-tag:v"@ && r@[29]@ == "hvc1"@,
        color matches Some(c) ==> tells_colors(r@, 30, *c),
{
    crate::decimal::lemma_digits(crf as nat);
    lemma_args(Encoder::Nvenc, crf, color_view(color), r@);
    let c = codec_args(Encoder::Nvenc, crf, color_view(color));
    assert(c.len() == 26);
}

/// Whether the six arguments from a position on tell ffmpeg the colours of a
/// file: each option is followed by the value of its own name.
pub open spec fn tells_colors(args: Seq<String>, at: int, c: ColorMetadata) -> bool {
    &&& args[at]@ == "-color_primaries"@ && args[at + 1]@ == c.color_primaries@
    &&& args[at + 2]@ == "-color_trc"@ && args[at + 3]@ == c.color_trc@
    &&& args[at + 4]@ == "-colorspace"@ && args[at + 5]@ == c.colorspace@
}

/// The arguments for libx265, one by one: the argument behind `-crf` is the
/// rate factor in decimal notation, and the parameters for x265 end with the
/// mastering display and the light levels where these are known.
pub proof fn law_x265_arguments(crf: u8, color: Option<&ColorMetadata>, r: Vec<String>)
    requires
        call_ensures(Encoder::build_args, (&Encoder::Libx265, crf, color), r),
    ensures
        r@.len() == (if color is Some {
            24int
        } else {
            18
        }),
        r@[0]@ == "-map"@ && r@[1]@ == "0"@ && r@[2]@ == "-c"@ && r@[3]@ == "copy"@,
        r@[4]@ == "-c:v"@ && r@[5]@ == "libx265"@,
        r@[6]@ == "-pix_fmt"@ && r@[7]@ == "yuv420p10le"@,
        r@[8]@ == "-profile:v"@ && r@[9]@ == "main10"@,
        r@[10]@ == "-preset"@ && r@[11]@ == "slow"@,
        r@[12]@ == "-crf"@ && crate::decimal::all_digits(r@[13]@) && crate::decimal::value_of(
            r@[13]@,
        ) == crf,
        r@[14]@ == "-x265-params"@,
        color is None ==> r@[15]@ == "aq-mode=3"@,
        color matches Some(c) ==> r@[15]@ == "aq-mode=3"@ + (match c.master_display {
            Some(md) => ":master-display="@ + md@,
            None => Seq::empty(),
        } + match c.max_cll {
            Some(mc) => ":max-cll="@ + mc@,
            None => Seq::empty(),
        }),
        r@[16]@ == "-tag:v"@ && r@[17]@ == "hvc1"@,
        color matches Some(c) ==> tells_colors(r@, 18, *c),
{
    crate::decimal::lemma_digits(crf as nat);
    lemma_args(Encoder::Libx265, crf, color_view(color), r@);
    let c = codec_args(Encoder::Libx265, crf, color_view(color));
    assert(c.len() == 14);
    assert("aq-mode=3"@ + Seq::<char>::empty() =~= "aq-mode=3"@);
}

/// The arguments for VideoToolbox, one by one: the argument behind `-q:v` is a
/// number that together with twice the rate factor makes 100, or 0 where the
/// rate factor exceeds 50.
pub proof fn law_videotoolbox_arguments(crf: u8, color: Option<&ColorMetadata>, r: Vec<String>)
    requires
        call_ensures(Encoder::build_args, (&Encoder::VideoToolbox, crf, color), r),
    ensures
        r@.len() == (if color is Some {
            20int
        } else {
            14
        }),
        r@[0]@ == "-map"@ && r@[1]@ == "0"@ && r@[2]@ == "-c"@ && r@[3]@ == "copy"@,
        r@[4]@ == "-c:v"@ && r@[5]@ == "hevc_videotoolbox"@,
        r@[6]@ == "-pix_fmt"@ && r@[7]@ == "p010le"@,
        r@[8]@ == "-profile:v"@ && r@[9]@ == "main10"@,
        r@[10]@ == "-q:v"@ && crate::decimal::all_digits(r@[11]@),
        crf <= 50 ==> crate::decimal::value_of(r@[11]@) + 2 * crf == 100,
        crf > 50 ==> crate::decimal::value_of(r@[11]@) == 0,
        r@[12]@ == "-tag:v"@ && r@[13]@ == "hvc1"@,
        color matches Some(c) ==> tells_colors(r@, 14, *c),
{
    crate::decimal::lemma_digits(videotoolbox_quality(crf));
    lemma_args(Encoder::VideoToolbox, crf, color_view(color), r@);
    let c = codec_args(Encoder::VideoToolbox, crf, color_view(color));
    assert(c.len() == 10);
}

/// What is added to the x265 parameters of a file: its mastering display and
/// then its light levels, each where it is known, behind what was there.
pub proof fn law_x265_color_is_added(color: ColorMetadata, params: &mut String, done: ())
    requires
        call_ensures(append_x265_color, (&color, params), done),
    ensures
        color.master_display is None && color.max_cll is None ==> final(params)@ == old(params)@,
        color.master_display is Some && color.max_cll is None ==> final(params)@ == old(params)@
            + (":master-display="@ + color.master_display->0@),
        color.master_display is None && color.max_cll is Some ==> final(params)@ == old(params)@
            + (":max-cll="@ + color.max_cll->0@),
        color.master_display is Some && color.max_cll is Some ==> final(params)@ == old(params)@
            + (":master-display="@ + color.master_display->0@ + (":max-cll="@
            + color.max_cll->0@)),
{
    let e = Seq::<char>::empty();
    assert(old(params)@ + (e + e) =~= old(params)@);
    if let Some(md) = color.master_display {
        assert((":master-display="@ + md@) + e =~= ":master-display="@ + md@);
    }
    if let Some(mc) = color.max_cll {
        assert(e + (":max-cll="@ + mc@) =~= ":max-cll="@ + mc@);
    }
}

/// Three names stand for encoders, each for its own, and no other name does.
pub proof fn law_encoder_names(name: &str, r: Option<Encoder>, unset: Option<Encoder>)
    requires
        call_ensures(Encoder::from_env_override, (Some(name),), r),
        call_ensures(Encoder::from_env_override, (None,), unset),
    ensures
        unset is None,
        r == Some(Encoder::Nvenc) <==> name@ == "nvenc"@,
        r == Some(Encoder::VideoToolbox) <==> name@ == "videotoolbox"@,
        r == Some(Encoder::Libx265) <==> name@ == "libx265"@,
{
    assert(Encoder::Nvenc.name() == "nvenc"@);
    assert(Encoder::VideoToolbox.name() == "videotoolbox"@);
    assert(Encoder::Libx265.name() == "libx265"@);
}

} // verus!
