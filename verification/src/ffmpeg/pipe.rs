//! FFmpeg pipe: encoder choice, command lines and outcomes.
//!
//! Encoders are tried in priority order `h264_nvenc`, `h264_amf`, `h264_qsv`;
//! when none of them can encode a test frame, `libx264` is used. The caller
//! runs FFmpeg; this module decides which encoder to try next, builds the
//! argument lists and interprets what FFmpeg reported.

use vstd::prelude::*;
use vstd::utf8::{valid_utf8, decode_utf8};
use crate::text::{decimal, push_decimal};

verus! {

/// Hardware encoders, in probing priority.
#[derive(Clone, Copy, Debug, PartialEq, Eq, Structural)]
pub enum HwEncoder {
    /// NVIDIA NVENC (`h264_nvenc`).
    Nvenc,
    /// AMD AMF (`h264_amf`).
    Amf,
    /// Intel Quick Sync (`h264_qsv`).
    Qsv,
    /// Software fallback (`libx264`).
    Software,
}

/// The FFmpeg codec name of an encoder.
pub open spec fn codec_name(encoder: HwEncoder) -> Seq<char> {
    match encoder {
        HwEncoder::Nvenc => "h264_nvenc"@,
        HwEncoder::Amf => "h264_amf"@,
        HwEncoder::Qsv => "h264_qsv"@,
        HwEncoder::Software => "libx264"@,
    }
}

/// The extra quality options that an encoder is run with.
pub open spec fn quality_flags(encoder: HwEncoder) -> Seq<Seq<char>> {
    match encoder {
        HwEncoder::Nvenc => seq!["-preset"@, "fast"@],
        HwEncoder::Amf => seq![],
        HwEncoder::Qsv => seq!["-preset"@, "fast"@],
        HwEncoder::Software => seq!["-preset"@, "fast"@, "-crf"@, "23"@],
    }
}

/// The texts of a list of strings.
pub open spec fn texts(v: Seq<String>) -> Seq<Seq<char>> {
    v.map_values(|s: String| s@)
}

/// The texts of a list of string slices.
pub open spec fn str_texts(v: Seq<&str>) -> Seq<Seq<char>> {
    v.map_values(|s: &str| s@)
}

/// What the probe does next.
#[derive(Clone, Copy, Debug, PartialEq, Eq, Structural)]
pub enum ProbeAction {
    /// Test whether this encoder can encode one frame.
    Try(HwEncoder),
    /// Use this encoder.
    Select(HwEncoder),
}

/// The probe's transition table: after testing `tried`.
pub open spec fn probe_transition(tried: HwEncoder, available: bool) -> ProbeAction {
    if available {
        ProbeAction::Select(tried)
    } else {
        match tried {
            HwEncoder::Nvenc => ProbeAction::Try(HwEncoder::Amf),
            HwEncoder::Amf => ProbeAction::Try(HwEncoder::Qsv),
            _ => ProbeAction::Select(HwEncoder::Software),
        }
    }
}

impl HwEncoder {
    /// The FFmpeg codec name.
    pub fn ffmpeg_name(self) -> (name: &'static str)
        ensures
            name@ == codec_name(self),
    {
        match self {
            HwEncoder::Nvenc => "h264_nvenc",
            HwEncoder::Amf => "h264_amf",
            HwEncoder::Qsv => "h264_qsv",
            HwEncoder::Software => "libx264",
        }
    }

    /// The first step of probing: test the highest-priority encoder.
    pub fn probe_start() -> (action: ProbeAction)
        ensures
            action == ProbeAction::Try(HwEncoder::Nvenc),
    {
        ProbeAction::Try(HwEncoder::Nvenc)
    }

    /// The probe step after testing `tried`: select it when it works,
    /// otherwise test the next hardware encoder, or fall back to software
    /// after the last one.
    pub fn probe_next(tried: HwEncoder, available: bool) -> (action: ProbeAction)
        ensures
            action == probe_transition(tried, available),
    {
        if available {
            ProbeAction::Select(tried)
        } else {
            match tried {
                HwEncoder::Nvenc => ProbeAction::Try(HwEncoder::Amf),
                HwEncoder::Amf => ProbeAction::Try(HwEncoder::Qsv),
                _ => ProbeAction::Select(HwEncoder::Software),
            }
        }
    }
}

/// Appends `s` to an argument list.
fn push_arg(args: &mut Vec<String>, s: &str)
    ensures
        texts(final(args)@) == texts(old(args)@).push(s@),
{
    args.push(String::from_str(s));
    assert(texts(args@) =~= texts(old(args)@).push(s@));
}

/// Appends an owned string to an argument list.
fn push_owned(args: &mut Vec<String>, s: String)
    ensures
        texts(final(args)@) == texts(old(args)@).push(s@),
{
    let ghost text = s@;
    args.push(s);
    assert(texts(args@) =~= texts(old(args)@).push(text));
}

/// Appends every slice of `items`, in order, to an argument list.
fn push_args(args: &mut Vec<String>, items: &Vec<&str>)
    ensures
        texts(final(args)@) == texts(old(args)@) + str_texts(items@),
{
    let ghost start = texts(args@);
    let mut i: usize = 0;
    while i < items.len()
        invariant
            i <= items@.len(),
            texts(args@) == start + str_texts(items@.subrange(0, i as int)),
        decreases items@.len() - i,
    {
        push_arg(args, items[i]);
        assert(str_texts(items@.subrange(0, i + 1)) =~= str_texts(items@.subrange(0, i as int)).push(items@[i as int]@));
        assert(start + str_texts(items@.subrange(0, i + 1)) =~= (start + str_texts(items@.subrange(0, i as int))).push(items@[i as int]@));
        i = i + 1;
    }
    assert(items@.subrange(0, items@.len() as int) =~= items@);
}

/// The quality options of an encoder, as passed to FFmpeg.
pub fn quality_args(encoder: HwEncoder) -> (args: Vec<&'static str>)
    ensures
        str_texts(args@) == quality_flags(encoder),
{
    let args: Vec<&'static str> = match encoder {
        HwEncoder::Nvenc => vec!["-preset", "fast"],
        HwEncoder::Amf => vec![],
        HwEncoder::Qsv => vec!["-preset", "fast"],
        HwEncoder::Software => vec!["-preset", "fast", "-crf", "23"],
    };
    assert(str_texts(args@) =~= quality_flags(encoder));
    args
}

/// The arguments of a one-frame test encode with `encoder` on a synthetic
/// black source, output discarded.
pub open spec fn probe_command(encoder: HwEncoder) -> Seq<Seq<char>> {
    seq![
        "-f"@,
        "lavfi"@,
        "-i"@,
        "color=black:s=16x16:r=1"@,
        "-frames:v"@,
        "1"@,
        "-c:v"@,
        codec_name(encoder),
        "-f"@,
        "null"@,
        "-"@,
    ]
}

/// The FFmpeg arguments that test whether `encoder` can encode a frame.
pub fn probe_args(encoder: HwEncoder) -> (args: Vec<String>)
    ensures
        texts(args@) == probe_command(encoder),
{
    let mut args: Vec<String> = Vec::new();
    push_arg(&mut args, "-f");
    push_arg(&mut args, "lavfi");
    push_arg(&mut args, "-i");
    push_arg(&mut args, "color=black:s=16x16:r=1");
    push_arg(&mut args, "-frames:v");
    push_arg(&mut args, "1");
    push_arg(&mut args, "-c:v");
    push_arg(&mut args, encoder.ffmpeg_name());
    push_arg(&mut args, "-f");
    push_arg(&mut args, "null");
    push_arg(&mut args, "-");
    assert(texts(args@) =~= probe_command(encoder));
    args
}

/// The `WIDTHxHEIGHT` frame size option value.
pub open spec fn frame_size_text(width: u32, height: u32) -> Seq<char> {
    decimal(width as nat) + "x"@ + decimal(height as nat)
}

/// The arguments of an encode of raw BGR24 frames read from standard input,
/// up to the output path: input format and size, frame rate, codec, the
/// codec's quality options, and overwrite.
pub open spec fn encode_command(encoder: HwEncoder, width: u32, height: u32, fps: u32) -> Seq<
    Seq<char>,
> {
    seq![
        "-f"@,
        "rawvideo"@,
        "-pix_fmt"@,
        "bgr24"@,
        "-s"@,
        frame_size_text(width, height),
        "-r"@,
        decimal(fps as nat),
        "-i"@,
        "pipe:0"@,
        "-c:v"@,
        codec_name(encoder),
    ] + quality_flags(encoder) + seq!["-y"@]
}

/// The codec names are FFmpeg's names for the four encoders, and no two
/// encoders share one.
pub proof fn lemma_codec_names(e1: HwEncoder, e2: HwEncoder)
    ensures
        codec_name(HwEncoder::Nvenc) =~= seq!['h', '2', '6', '4', '_', 'n', 'v', 'e', 'n', 'c'],
        codec_name(HwEncoder::Amf) =~= seq!['h', '2', '6', '4', '_', 'a', 'm', 'f'],
        codec_name(HwEncoder::Qsv) =~= seq!['h', '2', '6', '4', '_', 'q', 's', 'v'],
        codec_name(HwEncoder::Software) =~= seq!['l', 'i', 'b', 'x', '2', '6', '4'],
        e1 != e2 ==> codec_name(e1) != codec_name(e2),
{
    reveal_strlit("h264_nvenc");
    reveal_strlit("h264_amf");
    reveal_strlit("h264_qsv");
    reveal_strlit("libx264");
    if e1 != e2 {
        if codec_name(e1).len() == codec_name(e2).len() {
            assert(codec_name(e1)[5] != codec_name(e2)[5]);
        }
    }
}

/// The one-frame test encode names the encoder under test: the argument
/// after `-c:v` is that encoder's codec name, so distinct encoders are tested
/// with distinct commands.
pub proof fn lemma_probe_command_tests_its_encoder(e1: HwEncoder, e2: HwEncoder)
    ensures
        probe_command(e1).len() == 11,
        probe_command(e1)[6] == "-c:v"@,
        probe_command(e1)[7] == codec_name(e1),
        e1 != e2 ==> probe_command(e1) != probe_command(e2),
{
    lemma_codec_names(e1, e2);
    if e1 != e2 {
        assert(probe_command(e1)[7] != probe_command(e2)[7]);
    }
}

/// The encode command reads raw frames of the given size and rate from
/// standard input (`-s WIDTHxHEIGHT` and `-r FPS` in decimal, `-i pipe:0`) and
/// carries the chosen encoder's quality options: after the twelve input and
/// codec arguments, ending in `-c:v` and the codec name, come
/// exactly the options `quality_args` gives for that encoder (`-preset fast`
/// for NVENC and Quick Sync, none for AMF, `-preset fast -crf 23` for
/// software), then `-y`.
pub proof fn lemma_encode_command_quality(encoder: HwEncoder, width: u32, height: u32, fps: u32)
    ensures
        ({
            let c = encode_command(encoder, width, height, fps);
            &&& c.len() == 13 + quality_flags(encoder).len()
            &&& c[4] == "-s"@
            &&& c[5] == decimal(width as nat) + seq!['x'] + decimal(height as nat)
            &&& c[6] == "-r"@
            &&& c[7] == decimal(fps as nat)
            &&& c[8] == "-i"@
            &&& c[9] == "pipe:0"@
            &&& c[10] == "-c:v"@
            &&& c[11] == codec_name(encoder)
            &&& c.subrange(12, c.len() - 1) == quality_flags(encoder)
            &&& c[c.len() - 1] == "-y"@
        }),
        quality_flags(HwEncoder::Nvenc) == seq!["-preset"@, "fast"@],
        quality_flags(HwEncoder::Qsv) == seq!["-preset"@, "fast"@],
        quality_flags(HwEncoder::Amf) == Seq::<Seq<char>>::empty(),
        quality_flags(HwEncoder::Software) == seq!["-preset"@, "fast"@, "-crf"@, "23"@],
{
    reveal_strlit("x");
    let c = encode_command(encoder, width, height, fps);
    assert(c.subrange(12, c.len() - 1) =~= quality_flags(encoder));
    assert("x"@ =~= seq!['x']);
}

/// The size in bytes of one BGR24 frame.
pub fn frame_len(width: u32, height: u32) -> (n: usize)
    requires
        width * height * 3 <= u32::MAX,
    ensures
        n == width * height * 3,
{
    assert(width * height <= u32::MAX) by (nonlinear_arith)
        requires
            width * height * 3 <= u32::MAX,
    ;
    let area: u32 = width * height;
    let bytes: u32 = area * 3;
    bytes as usize
}

/// `std::io::Error`, carried through unchanged.
#[verifier::external_type_specification]
#[verifier::external_body]
pub struct ExIoError(std::io::Error);

/// FFmpeg encoding errors.
#[derive(Debug)]
pub enum FfmpegError {
    /// No runnable `ffmpeg` binary was found.
    NotFound,
    /// FFmpeg exited unsuccessfully; its error output.
    EncodingFailed(String),
    /// Starting FFmpeg or talking to it failed.
    Io(std::io::Error),
}

/// The text that `String::from_utf8_lossy` makes of `bytes`.
pub uninterp spec fn lossy_utf8(bytes: Seq<u8>) -> Seq<char>;

/// Calls `String::from_utf8_lossy`. Claimed: the result is a function of the
/// bytes alone, and valid UTF-8 is decoded as it stands. Left unsaid: which
/// replacement characters stand for invalid sequences.
#[verifier::external_body]
fn utf8_lossy(bytes: &[u8]) -> (text: String)
    ensures
        text@ == lossy_utf8(bytes@),
        valid_utf8(bytes@) ==> text@ == decode_utf8(bytes@),
{
    String::from_utf8_lossy(bytes).into_owned()
}

/// The outcome of an encode from FFmpeg's exit status and error output:
/// success, or `EncodingFailed` with the error output as text.
pub fn encode_outcome(success: bool, stderr: &[u8]) -> (r: Result<(), FfmpegError>)
    ensures
        success ==> r is Ok,
        !success ==> (r matches Err(FfmpegError::EncodingFailed(text)) && text@ == lossy_utf8(
            stderr@,
        ) && (valid_utf8(stderr@) ==> text@ == decode_utf8(stderr@))),
{
    if success {
        Ok(())
    } else {
        Err(FfmpegError::EncodingFailed(utf8_lossy(stderr)))
    }
}

/// Where FFmpeg is run from, given whether `ffmpeg -version` succeeded on
/// the search path: the bare name `ffmpeg`, or nothing.
pub fn ffmpeg_location(version_ok: bool) -> (path: Option<String>)
    ensures
        path is Some <==> version_ok,
        path matches Some(p) ==> p@ == "ffmpeg"@,
{
    if version_ok {
        Some(String::from_str("ffmpeg"))
    } else {
        None
    }
}

/// An FFmpeg binary and the encoder chosen for it.
pub struct FfmpegPipe {
    ffmpeg_path: String,
    encoder: HwEncoder,
}

impl FfmpegPipe {
    /// The FFmpeg binary's path.
    pub closed spec fn path_text(&self) -> Seq<char> {
        self.ffmpeg_path@
    }

    /// The chosen encoder.
    pub closed spec fn encoder_choice(&self) -> HwEncoder {
        self.encoder
    }

    /// A pipe for the FFmpeg found at `ffmpeg_path` with the encoder that
    /// probing selected; `NotFound` when no FFmpeg was found.
    pub fn new(ffmpeg_path: Option<String>, encoder: HwEncoder) -> (r: Result<Self, FfmpegError>)
        ensures
            ffmpeg_path is None <==> r matches Err(FfmpegError::NotFound),
            ffmpeg_path is Some <==> r is Ok,
            r matches Ok(pipe) ==> pipe.path_text() == ffmpeg_path->0@ && pipe.encoder_choice()
                == encoder,
    {
        match ffmpeg_path {
            Some(path) => Ok(FfmpegPipe { ffmpeg_path: path, encoder }),
            None => Err(FfmpegError::NotFound),
        }
    }

    /// The selected encoder.
    pub fn selected_encoder(&self) -> (e: HwEncoder)
        ensures
            e == self.encoder_choice(),
    {
        self.encoder
    }

    /// The FFmpeg binary's path.
    pub fn ffmpeg_path(&self) -> (p: &str)
        ensures
            p@ == self.path_text(),
    {
        self.ffmpeg_path.as_str()
    }

    /// The FFmpeg arguments, up to the output path, that encode `width` by
    /// `height` BGR24 frames at `fps` frames per second from standard input
    /// with the selected encoder.
    pub fn encode_args(&self, width: u32, height: u32, fps: u32) -> (args: Vec<String>)
        ensures
            texts(args@) == encode_command(self.encoder_choice(), width, height, fps),
    {
        let mut args: Vec<String> = Vec::new();
        push_arg(&mut args, "-f");
        push_arg(&mut args, "rawvideo");
        push_arg(&mut args, "-pix_fmt");
        push_arg(&mut args, "bgr24");
        push_arg(&mut args, "-s");
        let mut size = String::new();
        push_decimal(&mut size, width);
        size.append("x");
        push_decimal(&mut size, height);
        assert(size@ =~= frame_size_text(width, height));
        push_owned(&mut args, size);
        push_arg(&mut args, "-r");
        let mut rate = String::new();
        push_decimal(&mut rate, fps);
        push_owned(&mut args, rate);
        push_arg(&mut args, "-i");
        push_arg(&mut args, "pipe:0");
        push_arg(&mut args, "-c:v");
        push_arg(&mut args, self.encoder.ffmpeg_name());
        let quality = quality_args(self.encoder);
        push_args(&mut args, &quality);
        push_arg(&mut args, "-y");
        assert(texts(args@) =~= encode_command(self.encoder, width, height, fps));
        args
    }
}

/// The encoder selected from `action` when each test answers `available`,
/// after at most `fuel` further tests.
pub open spec fn probe_drive(available: spec_fn(HwEncoder) -> bool, action: ProbeAction, fuel: nat) -> Option<HwEncoder>
    decreases fuel,
{
    match action {
        ProbeAction::Select(e) => Some(e),
        ProbeAction::Try(e) => if fuel == 0 {
            None
        } else {
            probe_drive(available, probe_transition(e, available(e)), (fuel - 1) as nat)
        },
    }
}

/// The probing priority of an encoder (lower is tried first).
pub open spec fn priority(encoder: HwEncoder) -> nat {
    match encoder {
        HwEncoder::Nvenc => 0,
        HwEncoder::Amf => 1,
        HwEncoder::Qsv => 2,
        HwEncoder::Software => 3,
    }
}

/// Probing selects, within three tests, the highest-priority hardware encoder
/// that works, and software only when no hardware encoder works; it never
/// tests the software encoder.
pub proof fn lemma_probe_selects_first_available(available: spec_fn(HwEncoder) -> bool)
    ensures
        ({
            let chosen = probe_drive(available, ProbeAction::Try(HwEncoder::Nvenc), 3);
            &&& chosen is Some
            &&& (chosen->0 != HwEncoder::Software ==> available(chosen->0))
            &&& forall|e: HwEncoder|
                e != HwEncoder::Software && #[trigger] priority(e) < priority(chosen->0) ==> !available(e)
            &&& (chosen->0 == HwEncoder::Software ==> !available(HwEncoder::Nvenc)
                && !available(HwEncoder::Amf) && !available(HwEncoder::Qsv))
        }),
{
    reveal_with_fuel(probe_drive, 4);
}

} // verus!
