//! The recording session and the conversion of the capture to GIF: what the
//! recorder keeps between start and stop, the GStreamer and ffmpeg command
//! lines, the reading of ffmpeg's crop detection, and the output paths.
use vstd::prelude::*;

use crate::text::{
    chars_of, decimal, is_digit, lemma_decimal_injective, push_chars, push_decimal, push_signed_decimal, push_string,
    push_text, same_text, signed_decimal, string_of, texts,
};

verus! {

/// A rectangular screen region used for cropping the recorded video.
#[derive(Debug, Clone, Copy)]
pub struct Region {
    pub x: i32,
    pub y: i32,
    pub width: i32,
    pub height: i32,
}

// ---------------------------------------------------------------------------
// The recording session
// ---------------------------------------------------------------------------
/// What the recorder keeps while a capture runs: the capture process `P`, the
/// file it writes, the crop to apply, the source types, and the PipeWire file
/// descriptor `F` that must stay open until the capture has finished.
pub struct RecorderState<P, F> {
    process: Option<P>,
    raw_file: Option<String>,
    crop: Option<Region>,
    source_types: u32,
    pipewire_fd: Option<F>,
}

/// The recorder's state, abstractly.
pub struct RecorderView<P, F> {
    pub process: Option<P>,
    pub raw_file: Option<Seq<char>>,
    pub crop: Option<Region>,
    pub source_types: u32,
    pub pipewire_fd: Option<F>,
}

impl<P, F> View for RecorderState<P, F> {
    type V = RecorderView<P, F>;

    closed spec fn view(&self) -> RecorderView<P, F> {
        RecorderView {
            process: self.process,
            raw_file: match self.raw_file {
                Some(f) => Some(f@),
                None => None,
            },
            crop: self.crop,
            source_types: self.source_types,
            pipewire_fd: self.pipewire_fd,
        }
    }
}

/// What a stop hands back of the capture that ran.
pub struct StopJob<P, F> {
    /// The capture process, to be interrupted and awaited.
    pub process: P,
    /// The file the capture wrote.
    pub raw_file: String,
    /// The region to crop, if one was selected.
    pub crop: Option<Region>,
    /// The source types the capture was started with.
    pub source_types: u32,
    /// The PipeWire descriptor, to be closed once the process has exited.
    pub pipewire_fd: Option<F>,
    /// Whether black borders are to be detected and cropped.
    pub auto_crop_black: bool,
}

/// A stop, abstractly.
pub struct StopView<P, F> {
    pub process: P,
    pub raw_file: Seq<char>,
    pub crop: Option<Region>,
    pub source_types: u32,
    pub pipewire_fd: Option<F>,
    pub auto_crop_black: bool,
}

impl<P, F> View for StopJob<P, F> {
    type V = StopView<P, F>;

    open spec fn view(&self) -> StopView<P, F> {
        StopView {
            process: self.process,
            raw_file: self.raw_file@,
            crop: self.crop,
            source_types: self.source_types,
            pipewire_fd: self.pipewire_fd,
            auto_crop_black: self.auto_crop_black,
        }
    }
}

/// An idle recorder; the source types default to both monitors and windows.
pub open spec fn idle_state<P, F>() -> RecorderView<P, F> {
    RecorderView { process: None, raw_file: None, crop: None, source_types: 3, pipewire_fd: None }
}

/// The state once a capture has started.
pub open spec fn started_state<P, F>(
    process: P,
    raw_file: Seq<char>,
    crop: Option<Region>,
    source_types: u32,
    pipewire_fd: F,
) -> RecorderView<P, F> {
    RecorderView {
        process: Some(process),
        raw_file: Some(raw_file),
        crop,
        source_types,
        pipewire_fd: Some(pipewire_fd),
    }
}

/// Window captures come with black borders that are cropped automatically.
pub open spec fn crops_black_borders(source_types: u32) -> bool {
    source_types == 2
}

/// The effect of a stop: the state afterwards, and what was handed back or why not.
pub open spec fn stop_transition<P, F>(s: RecorderView<P, F>) -> (
    RecorderView<P, F>,
    Result<StopView<P, F>, Seq<char>>,
) {
    match s.process {
        None => (s, Err("Not recording"@)),
        Some(p) => match s.raw_file {
            None => (RecorderView { process: None, ..s }, Err("Recording file path is missing"@)),
            Some(f) => (
                RecorderView {
                    process: None,
                    raw_file: None,
                    crop: None,
                    pipewire_fd: None,
                    ..s
                },
                Ok(
                    StopView {
                        process: p,
                        raw_file: f,
                        crop: s.crop,
                        source_types: s.source_types,
                        pipewire_fd: s.pipewire_fd,
                        auto_crop_black: crops_black_borders(s.source_types),
                    },
                ),
            ),
        },
    }
}

/// Whether black borders are cropped for captures of these source types.
pub fn auto_crop_black_for(source_types: u32) -> (r: bool)
    ensures
        r == crops_black_borders(source_types),
{
    source_types == 2
}

impl<P, F> RecorderState<P, F> {
    /// An idle recorder.
    pub fn new() -> (r: Self)
        ensures
            r@ == idle_state::<P, F>(),
    {
        RecorderState { process: None, raw_file: None, crop: None, source_types: 3, pipewire_fd: None }
    }

    /// Whether a capture is running.
    pub fn is_recording(&self) -> (r: bool)
        ensures
            r == self@.process is Some,
    {
        self.process.is_some()
    }

    /// Refuses a second capture while one runs.
    pub fn check_idle(&self) -> (r: Result<(), String>)
        ensures
            match r {
                Ok(()) => self@.process is None,
                Err(e) => self@.process is Some && e@ == "Already recording"@,
            },
    {
        if self.process.is_some() {
            Err(string_of("Already recording"))
        } else {
            Ok(())
        }
    }

    /// Keeps what a capture that just started needs at its stop.
    pub fn record_started(
        &mut self,
        process: P,
        raw_file: String,
        crop: Option<Region>,
        source_types: u32,
        pipewire_fd: F,
    )
        ensures
            final(self)@ == started_state(process, raw_file@, crop, source_types, pipewire_fd),
    {
        self.process = Some(process);
        self.raw_file = Some(raw_file);
        self.crop = crop;
        self.source_types = source_types;
        self.pipewire_fd = Some(pipewire_fd);
    }

    /// Takes out what a stop needs, leaving the recorder idle.
    pub fn take_for_stop(&mut self) -> (r: Result<StopJob<P, F>, String>)
        ensures
            ({
                let (s, out) = stop_transition(old(self)@);
                &&& final(self)@ == s
                &&& match (r, out) {
                    (Ok(job), Ok(v)) => job@ == v,
                    (Err(e), Err(m)) => e@ == m,
                    _ => false,
                }
            }),
    {
        let process = match self.process.take() {
            Some(p) => p,
            None => {
                return Err(string_of("Not recording"));
            },
        };
        let raw_file = match self.raw_file.take() {
            Some(f) => f,
            None => {
                return Err(string_of("Recording file path is missing"));
            },
        };
        let crop = self.crop.take();
        let source_types = self.source_types;
        let pipewire_fd = self.pipewire_fd.take();
        Ok(
            StopJob {
                process,
                raw_file,
                crop,
                source_types,
                pipewire_fd,
                auto_crop_black: auto_crop_black_for(source_types),
            },
        )
    }
}

/// A stop after a start hands back exactly what the start kept, with black
/// borders cropped for window captures, and leaves the recorder idle.
pub proof fn law_stop_returns_what_start_kept<P, F>(
    process: P,
    raw_file: Seq<char>,
    crop: Option<Region>,
    source_types: u32,
    pipewire_fd: F,
)
    ensures
        ({
            let (s, out) = stop_transition(
                started_state(process, raw_file, crop, source_types, pipewire_fd),
            );
            &&& out == Ok::<StopView<P, F>, Seq<char>>(
                StopView {
                    process,
                    raw_file,
                    crop,
                    source_types,
                    pipewire_fd: Some(pipewire_fd),
                    auto_crop_black: source_types == 2,
                },
            )
            &&& s.process is None
            &&& s.raw_file is None
            &&& s.pipewire_fd is None
        }),
{
}

/// A recorder that is not recording refuses to stop and stays as it was.
pub proof fn law_stop_without_capture_is_refused<P, F>(s: RecorderView<P, F>)
    requires
        s.process is None,
    ensures
        stop_transition(s) == (s, Err::<StopView<P, F>, Seq<char>>("Not recording"@)),
{
}

/// After any stop, the recorder is not recording.
pub proof fn law_stop_ends_recording<P, F>(s: RecorderView<P, F>)
    ensures
        stop_transition(s).0.process is None,
{
}

// ---------------------------------------------------------------------------
// Paths
// ---------------------------------------------------------------------------
/// `base` joined with a relative `name`, as `Path::join` does on Unix: a `/`
/// goes between them unless `base` is empty or already ends in one.
pub open spec fn joined(base: Seq<char>, name: Seq<char>) -> Seq<char> {
    if base.len() > 0 && base.last() != '/' {
        base + seq!['/'] + name
    } else {
        base + name
    }
}

/// Joins a relative `name` onto `base`.
pub fn join_path(base: &str, name: &str) -> (r: String)
    requires
        name@.len() > 0,
        name@[0] != '/',
    ensures
        r@ == joined(base@, name@),
{
    let mut r = string_of(base);
    let n = base.unicode_len();
    if n > 0 && base.get_char(n - 1) != '/' {
        r.append("/");
        proof {
            reveal_strlit("/");
        }
    }
    r.append(name);
    r
}

/// Where the raw capture is written: `gif-that-for-you-raw.mkv` in the temporary directory.
pub fn raw_capture_path(temp_dir: &str) -> (r: String)
    ensures
        r@ == joined(temp_dir@, "gif-that-for-you-raw.mkv"@),
{
    proof {
        reveal_strlit("gif-that-for-you-raw.mkv");
    }
    join_path(temp_dir, "gif-that-for-you-raw.mkv")
}

/// The file name of a GIF saved at `timestamp` (seconds since the epoch).
pub open spec fn gif_file_name_text(timestamp: u64) -> Seq<char> {
    "recording-"@ + decimal(timestamp as nat) + ".gif"@
}

/// The `Pictures` directory under a home directory.
pub fn pictures_path(home: &str) -> (r: String)
    ensures
        r@ == joined(home@, "Pictures"@),
{
    proof {
        reveal_strlit("Pictures");
    }
    join_path(home, "Pictures")
}

/// The directory a GIF is saved in: `~/Pictures` when it is a directory, the
/// home directory when it is not, the temporary directory without a home.
pub open spec fn output_dir_text(home: Option<Seq<char>>, pictures_is_dir: bool, temp_dir: Seq<char>) -> Seq<
    char,
> {
    match home {
        None => temp_dir,
        Some(h) => if pictures_is_dir {
            joined(h, "Pictures"@)
        } else {
            h
        },
    }
}

/// Where the GIF of a recording stopped at `timestamp` is saved.
pub fn gif_output_path(home: &Option<String>, pictures_is_dir: bool, temp_dir: &str, timestamp: u64) -> (r:
    String)
    ensures
        r@ == joined(
            output_dir_text(
                match home {
                    Some(h) => Some(h@),
                    None => None,
                },
                pictures_is_dir,
                temp_dir@,
            ),
            gif_file_name_text(timestamp),
        ),
{
    let base = match home {
        None => string_of(temp_dir),
        Some(h) => if pictures_is_dir {
            pictures_path(h.as_str())
        } else {
            h.clone()
        },
    };
    let mut name = string_of("recording-");
    push_decimal(&mut name, timestamp);
    name.append(".gif");
    proof {
        reveal_strlit("recording-");
        assert(name@[0] == 'r');
    }
    join_path(base.as_str(), name.as_str())
}

// ---------------------------------------------------------------------------
// Processes
// ---------------------------------------------------------------------------
/// The `gst-launch-1.0` arguments that record the PipeWire stream `node_id`,
/// reached through descriptor `fd`, losslessly to `raw_file`.
pub open spec fn gstreamer_args_text(fd: i32, node_id: u32, raw_file: Seq<char>) -> Seq<Seq<char>> {
    seq![
        "pipewiresrc"@,
        "fd="@ + signed_decimal(fd as int),
        "path="@ + decimal(node_id as nat),
        "do-timestamp=true"@,
        "!"@,
        "videoconvert"@,
        "!"@,
        "avenc_ffv1"@,
        "!"@,
        "matroskamux"@,
        "!"@,
        "filesink"@,
        "location="@ + raw_file,
    ]
}

/// The arguments of the capture pipeline.
pub fn gstreamer_args(fd: i32, node_id: u32, raw_file: &str) -> (r: Vec<String>)
    ensures
        texts(r@) == gstreamer_args_text(fd, node_id, raw_file@),
{
    let mut v: Vec<String> = Vec::new();
    push_text(&mut v, "pipewiresrc");
    let mut a = string_of("fd=");
    push_signed_decimal(&mut a, fd);
    push_string(&mut v, a);
    let mut b = string_of("path=");
    push_decimal(&mut b, node_id as u64);
    push_string(&mut v, b);
    push_text(&mut v, "do-timestamp=true");
    push_text(&mut v, "!");
    push_text(&mut v, "videoconvert");
    push_text(&mut v, "!");
    push_text(&mut v, "avenc_ffv1");
    push_text(&mut v, "!");
    push_text(&mut v, "matroskamux");
    push_text(&mut v, "!");
    push_text(&mut v, "filesink");
    let mut c = string_of("location=");
    c.append(raw_file);
    push_string(&mut v, c);
    assert(texts(v@) =~= gstreamer_args_text(fd, node_id, raw_file@));
    v
}

/// The message when `gst-launch-1.0` cannot be started.
pub open spec fn gst_spawn_error_text(error: Seq<char>) -> Seq<char> {
    "Failed to start gst-launch-1.0: "@ + error + "\n\
     Please install GStreamer with the PipeWire and libav plugins:\n\
     · Arch:   pacman -S gstreamer gst-plugins-base gst-plugins-good \
       gst-plugin-pipewire gst-libav\n\
     · Ubuntu: apt install gstreamer1.0-tools gstreamer1.0-plugins-base \
       gstreamer1.0-plugins-good gstreamer1.0-pipewire gstreamer1.0-libav"@
}

/// Explains a failure to start the capture pipeline.
pub fn gst_spawn_error(error: &str) -> (r: String)
    ensures
        r@ == gst_spawn_error_text(error@),
{
    let mut r = string_of("Failed to start gst-launch-1.0: ");
    r.append(error);
    r.append(
        "\n\
     Please install GStreamer with the PipeWire and libav plugins:\n\
     · Arch:   pacman -S gstreamer gst-plugins-base gst-plugins-good \
       gst-plugin-pipewire gst-libav\n\
     · Ubuntu: apt install gstreamer1.0-tools gstreamer1.0-plugins-base \
       gstreamer1.0-plugins-good gstreamer1.0-pipewire gstreamer1.0-libav",
    );
    r
}

/// The descriptor flags with close-on-exec cleared, when they could be read
/// (`F_GETFD` gave a non-negative value); `None` leaves the descriptor alone.
pub fn without_cloexec(flags: i32) -> (r: Option<i32>)
    ensures
        flags >= 0 ==> r == Some(flags & !1i32),
        flags < 0 ==> r is None,
{
    if flags >= 0 {
        Some(flags & !1i32)
    } else {
        None
    }
}

/// Clearing close-on-exec clears the lowest bit and keeps every other one.
pub proof fn law_cloexec_cleared_only(flags: i32)
    requires
        flags >= 0,
    ensures
        (flags & !1i32) & 1 == 0,
        (flags & !1i32) | (flags & 1) == flags,
{
    assert((flags & !1i32) & 1 == 0) by (bit_vector);
    assert((flags & !1i32) | (flags & 1) == flags) by (bit_vector);
}

/// The arguments of `kill` that interrupt process `pid`, so that the capture
/// pipeline ends its stream cleanly.
pub fn sigint_args(pid: u32) -> (r: Vec<String>)
    ensures
        texts(r@) == seq!["-SIGINT"@, decimal(pid as nat)],
{
    let mut v: Vec<String> = Vec::new();
    push_text(&mut v, "-SIGINT");
    let mut p = String::new();
    push_decimal(&mut p, pid as u64);
    assert(p@ =~= decimal(pid as nat));
    push_string(&mut v, p);
    assert(texts(v@) =~= seq!["-SIGINT"@, decimal(pid as nat)]);
    v
}

// ---------------------------------------------------------------------------
// Crop detection
// ---------------------------------------------------------------------------
/// The filter chain that skips the first 0.3 s and detects black borders.
pub open spec fn cropdetect_filter_text() -> Seq<char> {
    "trim=start=0.3,setpts=PTS-STARTPTS,cropdetect=limit=10:round=2:reset=0"@
}

/// The `ffmpeg` arguments that run crop detection over the first 240 frames of `input`.
pub fn cropdetect_args(input: &str) -> (r: Vec<String>)
    ensures
        texts(r@) == seq![
            "-i"@,
            input@,
            "-vf"@,
            cropdetect_filter_text(),
            "-frames:v"@,
            "240"@,
            "-f"@,
            "null"@,
            "-"@,
        ],
{
    let mut v: Vec<String> = Vec::new();
    push_text(&mut v, "-i");
    push_text(&mut v, input);
    push_text(&mut v, "-vf");
    push_text(&mut v, "trim=start=0.3,setpts=PTS-STARTPTS,cropdetect=limit=10:round=2:reset=0");
    push_text(&mut v, "-frames:v");
    push_text(&mut v, "240");
    push_text(&mut v, "-f");
    push_text(&mut v, "null");
    push_text(&mut v, "-");
    assert(texts(v@) =~= seq![
        "-i"@,
        input@,
        "-vf"@,
        cropdetect_filter_text(),
        "-frames:v"@,
        "240"@,
        "-f"@,
        "null"@,
        "-"@,
    ]);
    v
}

/// Whether `crop=` starts at index `j` of `s`.
pub open spec fn crop_key_at(s: Seq<char>, j: int) -> bool {
    &&& 0 <= j
    &&& j + 5 <= s.len()
    &&& s[j] == 'c'
    &&& s[j + 1] == 'r'
    &&& s[j + 2] == 'o'
    &&& s[j + 3] == 'p'
    &&& s[j + 4] == '='
}

/// The first index at or after `i` where `crop=` starts.
pub open spec fn find_crop_key(s: Seq<char>, i: nat) -> Option<nat>
    decreases s.len() - i,
{
    if i + 5 > s.len() {
        None
    } else if crop_key_at(s, i as int) {
        Some(i)
    } else {
        find_crop_key(s, i + 1)
    }
}

/// A character of a crop value: a digit or `:`.
pub open spec fn is_crop_char(c: char) -> bool {
    is_digit(c) || c == ':'
}

/// The length of the run of crop characters at the start of `s`.
pub open spec fn crop_run(s: Seq<char>) -> nat
    decreases s.len(),
{
    if s.len() == 0 || !is_crop_char(s[0]) {
        0
    } else {
        1 + crop_run(s.drop_first())
    }
}

/// The number of `:` in `s`.
pub open spec fn colons(s: Seq<char>) -> nat
    decreases s.len(),
{
    if s.len() == 0 {
        0
    } else {
        colons(s.drop_last()) + if s.last() == ':' {
            1nat
        } else {
            0nat
        }
    }
}

/// The crop filter a line of cropdetect output names: the digits and colons
/// after its first `crop=`, when they make four fields.
pub open spec fn crop_in_line(line: Seq<char>) -> Option<Seq<char>> {
    match find_crop_key(line, 0) {
        None => None,
        Some(pos) => {
            let rest = line.skip(pos + 5int);
            let value = rest.take(crop_run(rest) as int);
            if colons(value) == 3 {
                Some("crop="@ + value)
            } else {
                None
            }
        },
    }
}

/// The index of the last `\n` before `end`, if any.
pub open spec fn last_newline(s: Seq<char>, end: nat) -> Option<nat>
    decreases end,
{
    if end == 0 {
        None
    } else if s[end - 1] == '\n' {
        Some((end - 1) as nat)
    } else {
        last_newline(s, (end - 1) as nat)
    }
}

/// The crop that the last line naming one (of the first `end` characters of
/// `s`, split at `\n`) names.
pub open spec fn last_crop_before(s: Seq<char>, end: nat) -> Option<Seq<char>>
    decreases end,
{
    match last_newline(s, end) {
        None => crop_in_line(s.take(end as int)),
        Some(k) => if k < end {
            match crop_in_line(s.subrange(k + 1int, end as int)) {
                Some(c) => Some(c),
                None => last_crop_before(s, k),
            }
        } else {
            None
        },
    }
}

/// The crop filter of the last line of cropdetect output that names one.
/// (Lines are split at `\n`; a `\r` before it, which the line iterator drops,
/// ends the digits either way, and the empty line after a final `\n` names
/// none.)
pub open spec fn last_crop(output: Seq<char>) -> Option<Seq<char>> {
    last_crop_before(output, output.len())
}

/// Whether `Video:` starts at index `j` of `s`.
pub open spec fn video_key_at(s: Seq<char>, j: int) -> bool {
    &&& 0 <= j
    &&& j + 6 <= s.len()
    &&& s[j] == 'V'
    &&& s[j + 1] == 'i'
    &&& s[j + 2] == 'd'
    &&& s[j + 3] == 'e'
    &&& s[j + 4] == 'o'
    &&& s[j + 5] == ':'
}

/// Whether `Video:` occurs in `s` at or after index `i`.
pub open spec fn names_video_from(s: Seq<char>, i: nat) -> bool
    decreases s.len() - i,
{
    if i + 6 > s.len() {
        false
    } else if video_key_at(s, i as int) {
        true
    } else {
        names_video_from(s, i + 1)
    }
}

/// The index where the run of digits of `s` that starts at `i` ends.
pub open spec fn digits_end(s: Seq<char>, i: nat) -> nat
    decreases s.len() - i,
{
    if i < s.len() && is_digit(s[i as int]) {
        digits_end(s, i + 1)
    } else {
        i
    }
}

/// The frame size `WxH` that starts at index `i` of a line, as its width and
/// height digits: two runs of digits joined by `x`, after a space and before
/// a comma, a space, a `\r` or the end of the line (so that a codec tag such
/// as `0x31564646)` is no size).
pub open spec fn size_at(line: Seq<char>, i: nat) -> Option<(Seq<char>, Seq<char>)> {
    let a = digits_end(line, i);
    let b = digits_end(line, a + 1);
    if 1 <= i && i < a && a < line.len() && line[i - 1] == ' ' && line[a as int] == 'x' && a + 1
        < b && (b == line.len() || line[b as int] == ',' || line[b as int] == ' ' || line[b as int]
        == '\r') {
        Some((line.subrange(i as int, a as int), line.subrange(a + 1int, b as int)))
    } else {
        None
    }
}

/// The first frame size in `line` at or after index `i`.
pub open spec fn first_size(line: Seq<char>, i: nat) -> Option<(Seq<char>, Seq<char>)>
    decreases line.len() - i,
{
    if i >= line.len() {
        None
    } else {
        match size_at(line, i) {
            Some(wh) => Some(wh),
            None => first_size(line, i + 1),
        }
    }
}

/// The index of the first `\n` at or after `i`, or the length of `s`.
pub open spec fn line_end(s: Seq<char>, i: nat) -> nat
    decreases s.len() - i,
{
    if i < s.len() && s[i as int] != '\n' {
        line_end(s, i + 1)
    } else {
        i
    }
}

/// The frame size of the first line, from the one starting at `start` on,
/// that describes a video stream (names `Video:`) and gives a size.
pub open spec fn frame_size_from(s: Seq<char>, start: nat) -> Option<(Seq<char>, Seq<char>)>
    decreases s.len() - start,
{
    let end = line_end(s, start);
    let line = s.subrange(start as int, end as int);
    if start <= end <= s.len() && names_video_from(line, 0) && first_size(line, 0) is Some {
        first_size(line, 0)
    } else if start <= end && end < s.len() {
        frame_size_from(s, end + 1)
    } else {
        None
    }
}

/// The width and height digits of the video that ffmpeg reports reading, as
/// its stream line gives them (`Stream #0:0: Video: ..., 1920x1080, ...`).
pub open spec fn frame_size(output: Seq<char>) -> Option<(Seq<char>, Seq<char>)> {
    frame_size_from(output, 0)
}

/// The crop filter that keeps the whole `w` by `h` frame.
pub open spec fn full_frame_crop(w: Seq<char>, h: Seq<char>) -> Seq<char> {
    "crop="@ + w + ":"@ + h + ":0:0"@
}

/// Whether crop filter `c` keeps the whole frame of the video of `output`.
pub open spec fn covers_whole_frame(output: Seq<char>, c: Seq<char>) -> bool {
    match frame_size(output) {
        Some(wh) => c == full_frame_crop(wh.0, wh.1),
        None => false,
    }
}

/// The black borders that ffmpeg's cropdetect output reports: the crop filter
/// of the last line naming one, unless that crop keeps the whole frame, in
/// which case there are no borders to remove.
pub open spec fn detected_crop(output: Seq<char>) -> Option<Seq<char>> {
    match last_crop(output) {
        Some(c) => if covers_whole_frame(output, c) {
            None
        } else {
            Some(c)
        },
        None => None,
    }
}

proof fn lemma_last_newline(s: Seq<char>, end: nat)
    requires
        end <= s.len(),
    ensures
        match last_newline(s, end) {
            Some(k) => k < end && s[k as int] == '\n' && forall|j: int|
                k < j < end ==> s[j] != '\n',
            None => forall|j: int| 0 <= j < end ==> s[j] != '\n',
        },
    decreases end,
{
    if end > 0 && s[end - 1] != '\n' {
        lemma_last_newline(s, (end - 1) as nat);
    }
}

proof fn lemma_find_crop_key(s: Seq<char>, i: nat)
    ensures
        match find_crop_key(s, i) {
            Some(p) => i <= p && crop_key_at(s, p as int) && forall|j: int|
                i <= j < p ==> !crop_key_at(s, j),
            None => forall|j: int| i <= j ==> !crop_key_at(s, j),
        },
    decreases s.len() - i,
{
    if i + 5 <= s.len() && !crop_key_at(s, i as int) {
        lemma_find_crop_key(s, i + 1);
    }
}

proof fn lemma_crop_run(s: Seq<char>)
    ensures
        crop_run(s) <= s.len(),
        forall|j: int| 0 <= j < crop_run(s) ==> is_crop_char(#[trigger] s[j]),
        crop_run(s) < s.len() ==> !is_crop_char(s[crop_run(s) as int]),
    decreases s.len(),
{
    if s.len() > 0 && is_crop_char(s[0]) {
        lemma_crop_run(s.drop_first());
        assert forall|j: int| 0 <= j < crop_run(s) implies is_crop_char(#[trigger] s[j]) by {
            if j > 0 {
                assert(s[j] == s.drop_first()[j - 1]);
            }
        }
    }
}

fn crop_char(c: char) -> (r: bool)
    ensures
        r == is_crop_char(c),
{
    c == '0' || c == '1' || c == '2' || c == '3' || c == '4' || c == '5' || c == '6' || c == '7'
        || c == '8' || c == '9' || c == ':'
}

/// The crop filter named by the line `cs[start..end]`, if any.
fn crop_in_range(cs: &Vec<char>, start: usize, end: usize) -> (r: Option<String>)
    requires
        start <= end <= cs@.len(),
    ensures
        match r {
            Some(c) => crop_in_line(cs@.subrange(start as int, end as int)) == Some(c@),
            None => crop_in_line(cs@.subrange(start as int, end as int)) is None,
        },
{
    let ghost line = cs@.subrange(start as int, end as int);
    proof {
        lemma_find_crop_key(line, 0);
    }
    let mut j = start;
    let mut found = false;
    while !found && end - j >= 5
        invariant
            start <= j <= end <= cs@.len(),
            line == cs@.subrange(start as int, end as int),
            forall|k: int| 0 <= k < j - start ==> !crop_key_at(line, k),
            found ==> crop_key_at(line, j - start),
        decreases end - j + if found { 0int } else { 1int },
    {
        if cs[j] == 'c' && cs[j + 1] == 'r' && cs[j + 2] == 'o' && cs[j + 3] == 'p' && cs[j + 4]
            == '=' {
            assert(crop_key_at(line, j - start));
            found = true;
        } else {
            assert(!crop_key_at(line, j - start));
            j = j + 1;
        }
    }
    if !found {
        proof {
            lemma_find_crop_key(line, 0);
            if let Some(p) = find_crop_key(line, 0) {
                assert(crop_key_at(line, p as int));
                assert(false);
            }
        }
        return None;
    }
    let ghost pos = (j - start) as nat;
    proof {
        lemma_find_crop_key(line, 0);
        assert(crop_key_at(line, pos as int));
        match find_crop_key(line, 0) {
            Some(p) => {
                if p < pos {
                    assert(!crop_key_at(line, p as int));
                }
                if pos < p {
                    assert(!crop_key_at(line, pos as int));
                }
                assert(p == pos);
            },
            None => {
                assert(!crop_key_at(line, pos as int));
            },
        }
    }
    let value_start = j + 5;
    let ghost rest = line.skip(pos + 5int);
    assert(rest =~= cs@.subrange(value_start as int, end as int));
    proof {
        lemma_crop_run(rest);
    }
    let mut k = value_start;
    let mut n_colons: usize = 0;
    while k < end && crop_char(cs[k])
        invariant
            value_start <= k <= end <= cs@.len(),
            rest == cs@.subrange(value_start as int, end as int),
            forall|t: int| 0 <= t < k - value_start ==> is_crop_char(#[trigger] rest[t]),
            n_colons == colons(rest.take(k - value_start)),
            n_colons <= k - value_start,
        decreases end - k,
    {
        assert(rest.take(k + 1 - value_start).drop_last() =~= rest.take(k - value_start));
        if cs[k] == ':' {
            n_colons = n_colons + 1;
        }
        k = k + 1;
    }
    proof {
        lemma_crop_run(rest);
        let run = crop_run(rest);
        let got = (k - value_start) as nat;
        if got < run {
            assert(is_crop_char(rest[got as int]));
        }
        if run < got {
            assert(is_crop_char(rest[run as int]));
        }
        assert(got == run);
    }
    if n_colons == 3 {
        let mut c = string_of("crop=");
        push_chars(&mut c, cs, value_start, k);
        assert(cs@.subrange(value_start as int, k as int) =~= rest.take(crop_run(rest) as int));
        Some(c)
    } else {
        None
    }
}

/// The crop filter of the last line of `cs` that names one.
fn last_crop_in(cs: &Vec<char>) -> (r: Option<String>)
    ensures
        match r {
            Some(c) => last_crop(cs@) == Some(c@),
            None => last_crop(cs@) is None,
        },
{
    let mut end = cs.len();
    loop
        invariant
            end <= cs@.len(),
            last_crop(cs@) == last_crop_before(cs@, end as nat),
        decreases end,
    {
        let mut k = end;
        while k > 0 && cs[k - 1] != '\n'
            invariant
                k <= end <= cs@.len(),
                forall|j: int| k <= j < end ==> cs@[j] != '\n',
            decreases k,
        {
            k = k - 1;
        }
        proof {
            lemma_last_newline(cs@, end as nat);
            match last_newline(cs@, end as nat) {
                Some(p) => {
                    if k == 0 {
                        assert(cs@[p as int] != '\n');
                    } else {
                        if p < k - 1 {
                            assert(cs@[k - 1] != '\n');
                        }
                        if k - 1 < p {
                            assert(cs@[p as int] != '\n');
                        }
                        assert(p == k - 1);
                    }
                },
                None => {
                    if k > 0 {
                        assert(cs@[k - 1] == '\n');
                    }
                },
            }
        }
        if k == 0 {
            assert(cs@.subrange(0, end as int) =~= cs@.take(end as int));
            return crop_in_range(cs, 0, end);
        }
        let found = crop_in_range(cs, k, end);
        if found.is_some() {
            return found;
        }
        end = k - 1;
    }
}

fn digit(c: char) -> (r: bool)
    ensures
        r == is_digit(c),
{
    c == '0' || c == '1' || c == '2' || c == '3' || c == '4' || c == '5' || c == '6' || c == '7'
        || c == '8' || c == '9'
}

/// The end of the run of digits of the line `cs[start..end]` that starts at
/// `i`.
fn digits_end_in(cs: &Vec<char>, start: usize, end: usize, i: usize) -> (r: usize)
    requires
        start <= i <= end <= cs@.len(),
    ensures
        i <= r <= end,
        r - start == digits_end(cs@.subrange(start as int, end as int), (i - start) as nat),
{
    let ghost line = cs@.subrange(start as int, end as int);
    let mut k = i;
    while k < end && digit(cs[k])
        invariant
            start <= i <= k <= end <= cs@.len(),
            line == cs@.subrange(start as int, end as int),
            digits_end(line, (i - start) as nat) == digits_end(line, (k - start) as nat),
        decreases end - k,
    {
        assert(line[k - start] == cs@[k as int]);
        k = k + 1;
    }
    if k < end {
        assert(line[k - start] == cs@[k as int]);
    }
    k
}

/// The frame size that starts at index `i` of the line `cs[start..end]`, as
/// the ends of its width and height digits.
fn size_at_in(cs: &Vec<char>, start: usize, end: usize, i: usize) -> (r: Option<(usize, usize)>)
    requires
        start <= i <= end <= cs@.len(),
    ensures
        match r {
            Some((a, b)) => {
                &&& i < a < b <= end
                &&& size_at(cs@.subrange(start as int, end as int), (i - start) as nat) == Some(
                    (cs@.subrange(i as int, a as int), cs@.subrange(a + 1, b as int)),
                )
            },
            None => size_at(cs@.subrange(start as int, end as int), (i - start) as nat) is None,
        },
{
    let ghost line = cs@.subrange(start as int, end as int);
    let ghost li = (i - start) as nat;
    if i == start || i >= end {
        return None;
    }
    assert(line[li - 1] == cs@[i - 1]);
    if cs[i - 1] != ' ' {
        return None;
    }
    let a = digits_end_in(cs, start, end, i);
    if a == i || a >= end {
        return None;
    }
    assert(line[a - start] == cs@[a as int]);
    if cs[a] != 'x' {
        return None;
    }
    let b = digits_end_in(cs, start, end, a + 1);
    if b == a + 1 {
        return None;
    }
    if b < end {
        assert(line[b - start] == cs@[b as int]);
        if cs[b] != ',' && cs[b] != ' ' && cs[b] != '\r' {
            return None;
        }
    }
    assert(line.subrange(li as int, a - start) =~= cs@.subrange(i as int, a as int));
    assert(line.subrange(a + 1 - start, b - start) =~= cs@.subrange(a + 1, b as int));
    Some((a, b))
}

/// The first frame size in the line `cs[start..end]`, as the start of its
/// width digits and the ends of its width and height digits.
fn first_size_in(cs: &Vec<char>, start: usize, end: usize) -> (r: Option<(usize, usize, usize)>)
    requires
        start <= end <= cs@.len(),
    ensures
        match r {
            Some((i, a, b)) => {
                &&& start <= i < a < b <= end
                &&& first_size(cs@.subrange(start as int, end as int), 0) == Some(
                    (cs@.subrange(i as int, a as int), cs@.subrange(a + 1, b as int)),
                )
            },
            None => first_size(cs@.subrange(start as int, end as int), 0) is None,
        },
{
    let ghost line = cs@.subrange(start as int, end as int);
    let mut i = start;
    while i < end
        invariant
            start <= i <= end <= cs@.len(),
            line == cs@.subrange(start as int, end as int),
            first_size(line, 0) == first_size(line, (i - start) as nat),
        decreases end - i,
    {
        match size_at_in(cs, start, end, i) {
            Some((a, b)) => {
                return Some((i, a, b));
            },
            None => {},
        }
        i = i + 1;
    }
    None
}

/// Whether the line `cs[start..end]` names `Video:`.
fn names_video_in(cs: &Vec<char>, start: usize, end: usize) -> (r: bool)
    requires
        start <= end <= cs@.len(),
    ensures
        r == names_video_from(cs@.subrange(start as int, end as int), 0),
{
    let ghost line = cs@.subrange(start as int, end as int);
    let mut i = start;
    while end - i >= 6
        invariant
            start <= i <= end <= cs@.len(),
            line == cs@.subrange(start as int, end as int),
            names_video_from(line, 0) == names_video_from(line, (i - start) as nat),
        decreases end - i,
    {
        let at = cs[i] == 'V' && cs[i + 1] == 'i' && cs[i + 2] == 'd' && cs[i + 3] == 'e' && cs[i
            + 4] == 'o' && cs[i + 5] == ':';
        assert(at == video_key_at(line, i - start));
        if at {
            return true;
        }
        i = i + 1;
    }
    false
}

/// The width and height of the video that ffmpeg's output `cs` reports.
fn frame_size_in(cs: &Vec<char>) -> (r: Option<(String, String)>)
    ensures
        match r {
            Some((w, h)) => frame_size(cs@) == Some((w@, h@)),
            None => frame_size(cs@) is None,
        },
{
    let mut start: usize = 0;
    loop
        invariant
            start <= cs@.len(),
            frame_size(cs@) == frame_size_from(cs@, start as nat),
        decreases cs@.len() - start,
    {
        let mut end = start;
        while end < cs.len() && cs[end] != '\n'
            invariant
                start <= end <= cs@.len(),
                line_end(cs@, start as nat) == line_end(cs@, end as nat),
            decreases cs@.len() - end,
        {
            end = end + 1;
        }
        if names_video_in(cs, start, end) {
            match first_size_in(cs, start, end) {
                Some((i, a, b)) => {
                    let mut w = String::new();
                    push_chars(&mut w, cs, i, a);
                    let mut h = String::new();
                    push_chars(&mut h, cs, a + 1, b);
                    assert(w@ =~= cs@.subrange(i as int, a as int));
                    assert(h@ =~= cs@.subrange(a + 1, b as int));
                    return Some((w, h));
                },
                None => {},
            }
        }
        if end >= cs.len() {
            return None;
        }
        start = end + 1;
    }
}

/// Reads ffmpeg's cropdetect output (its standard error) and returns the crop
/// filter that removes the black borders it found, such as
/// `crop=1280:800:320:140`: that of the last line naming one, unless it keeps
/// the whole frame of the video that ffmpeg reports reading, when there are no
/// borders and the result is `None`.
pub fn parse_cropdetect(output: &str) -> (r: Option<String>)
    ensures
        match r {
            Some(c) => detected_crop(output@) == Some(c@),
            None => detected_crop(output@) is None,
        },
{
    let cs = chars_of(output);
    match last_crop_in(&cs) {
        None => None,
        Some(c) => match frame_size_in(&cs) {
            None => Some(c),
            Some((w, h)) => {
                let mut full = string_of("crop=");
                full.append(w.as_str());
                full.append(":");
                full.append(h.as_str());
                full.append(":0:0");
                proof {
                    reveal_strlit(":");
                }
                if same_text(&c, full.as_str()) {
                    None
                } else {
                    Some(c)
                }
            },
        },
    }
}

/// A crop filter with four numeric fields: `crop=` followed by digits and
/// exactly three colons.
pub open spec fn is_crop_filter(c: Seq<char>) -> bool {
    &&& c.len() >= 5
    &&& c.take(5) == "crop="@
    &&& colons(c.skip(5)) == 3
    &&& forall|i: int| 5 <= i < c.len() ==> is_crop_char(#[trigger] c[i])
}

proof fn lemma_crop_in_line_is_filter(line: Seq<char>)
    ensures
        crop_in_line(line) matches Some(c) ==> is_crop_filter(c),
{
    if let Some(pos) = find_crop_key(line, 0) {
        let rest = line.skip(pos + 5int);
        let value = rest.take(crop_run(rest) as int);
        lemma_crop_run(rest);
        if colons(value) == 3 {
            reveal_strlit("crop=");
            let c = "crop="@ + value;
            assert(c.take(5) =~= "crop="@);
            assert(c.skip(5) =~= value);
            assert forall|i: int| 5 <= i < c.len() implies is_crop_char(#[trigger] c[i]) by {
                assert(c[i] == value[i - 5]);
                assert(value[i - 5] == rest[i - 5]);
            }
        }
    }
}

proof fn lemma_last_crop_is_filter(s: Seq<char>, end: nat)
    ensures
        last_crop_before(s, end) matches Some(c) ==> is_crop_filter(c),
    decreases end,
{
    match last_newline(s, end) {
        None => lemma_crop_in_line_is_filter(s.take(end as int)),
        Some(k) => if k < end {
            lemma_crop_in_line_is_filter(s.subrange(k + 1int, end as int));
            lemma_last_crop_is_filter(s, k);
        },
    }
}

/// Whatever crop detection settles on is a crop filter ready for a `-vf`
/// chain, `crop=` and four numeric fields, and never one that keeps the whole
/// frame: a video without black borders gets no crop.
pub proof fn law_detected_crop_is_a_crop_filter(output: Seq<char>)
    ensures
        detected_crop(output) matches Some(c) ==> is_crop_filter(c),
        detected_crop(output) matches Some(c) ==> !covers_whole_frame(output, c),
{
    lemma_last_crop_is_filter(output, output.len());
}

// ---------------------------------------------------------------------------
// GIF conversion
// ---------------------------------------------------------------------------
/// The ffmpeg filter chain of the GIF conversion: skip the first 0.3 s, crop
/// the detected borders, crop the selected region, then resample to `fps` and
/// build a per-recording palette with error-diffusion dithering.
pub open spec fn gif_filters_text(detected: Option<Seq<char>>, crop: Option<Region>, fps: u32) -> Seq<
    char,
> {
    let trim = "trim=start=0.3,setpts=PTS-STARTPTS,"@;
    let borders = match detected {
        Some(c) => c + ","@,
        None => Seq::empty(),
    };
    let region = match crop {
        Some(r) => "crop="@ + signed_decimal(r.width as int) + ":"@ + signed_decimal(
            r.height as int,
        ) + ":"@ + signed_decimal(r.x as int) + ":"@ + signed_decimal(r.y as int) + ","@,
        None => Seq::empty(),
    };
    trim + borders + region + "fps="@ + decimal(fps as nat)
        + ",split[s0][s1];[s0]palettegen=stats_mode=diff[p];[s1][p]paletteuse=dither=floyd_steinberg:diff_mode=rectangle"@
}

/// Builds the filter chain of the GIF conversion.
pub fn gif_filters(detected: &Option<String>, crop: Option<Region>, fps: u32) -> (r: String)
    ensures
        r@ == gif_filters_text(
            match detected {
                Some(c) => Some(c@),
                None => None,
            },
            crop,
            fps,
        ),
{
    let mut f = string_of("trim=start=0.3,setpts=PTS-STARTPTS,");
    let ghost f0 = f@;
    match detected {
        Some(c) => {
            f.append(c.as_str());
            f.append(",");
        },
        None => {},
    }
    let ghost f1 = f@;
    match crop {
        Some(r) => {
            f.append("crop=");
            push_signed_decimal(&mut f, r.width);
            f.append(":");
            push_signed_decimal(&mut f, r.height);
            f.append(":");
            push_signed_decimal(&mut f, r.x);
            f.append(":");
            push_signed_decimal(&mut f, r.y);
            f.append(",");
        },
        None => {},
    }
    let ghost f2 = f@;
    f.append("fps=");
    push_decimal(&mut f, fps as u64);
    f.append(
        ",split[s0][s1];[s0]palettegen=stats_mode=diff[p];[s1][p]paletteuse=dither=floyd_steinberg:diff_mode=rectangle",
    );
    assert(f@ =~= gif_filters_text(
        match detected {
            Some(c) => Some(c@),
            None => None,
        },
        crop,
        fps,
    ));
    f
}

/// The `ffmpeg` arguments that convert `input` to the GIF `output` through `filters`.
pub fn gif_ffmpeg_args(input: &str, filters: &str, output: &str) -> (r: Vec<String>)
    ensures
        texts(r@) == seq!["-y"@, "-i"@, input@, "-vf"@, filters@, output@],
{
    let mut v: Vec<String> = Vec::new();
    push_text(&mut v, "-y");
    push_text(&mut v, "-i");
    push_text(&mut v, input);
    push_text(&mut v, "-vf");
    push_text(&mut v, filters);
    push_text(&mut v, output);
    assert(texts(v@) =~= seq!["-y"@, "-i"@, input@, "-vf"@, filters@, output@]);
    v
}

/// How a run of ffmpeg ended.
pub enum FfmpegRun {
    /// It could not be started, with this error.
    NotStarted(String),
    /// It exited, successfully or not, with this status as displayed.
    Exited { success: bool, status: String },
}

/// What a GIF conversion reports for each way ffmpeg can end.
pub open spec fn conversion_result_text(run: FfmpegRun) -> Result<(), Seq<char>> {
    match run {
        FfmpegRun::NotStarted(e) => Err("Failed to run ffmpeg: "@ + e@ + "\nPlease install ffmpeg."@),
        FfmpegRun::Exited { success, status } => if success {
            Ok(())
        } else {
            Err("ffmpeg exited with status "@ + status@ + " while converting to GIF"@)
        },
    }
}

/// The outcome of a GIF conversion.
pub fn conversion_result(run: FfmpegRun) -> (r: Result<(), String>)
    ensures
        match (r, conversion_result_text(run)) {
            (Ok(()), Ok(())) => true,
            (Err(e), Err(m)) => e@ == m,
            _ => false,
        },
{
    match run {
        FfmpegRun::NotStarted(e) => {
            let mut m = string_of("Failed to run ffmpeg: ");
            m.append(e.as_str());
            m.append("\nPlease install ffmpeg.");
            Err(m)
        },
        FfmpegRun::Exited { success, status } => {
            if success {
                Ok(())
            } else {
                let mut m = string_of("ffmpeg exited with status ");
                m.append(status.as_str());
                m.append(" while converting to GIF");
                Err(m)
            }
        },
    }
}

// ---------------------------------------------------------------------------
// The conversion after a stop
// ---------------------------------------------------------------------------
/// Where a conversion stands.
#[derive(Clone, Copy, Debug, PartialEq, Eq)]
pub enum ConversionStep {
    /// Crop detection runs over the raw capture.
    Detecting,
    /// ffmpeg converts the capture to GIF.
    Converting,
    /// The raw capture is being removed.
    Cleaning,
    /// The outcome was reported.
    Finished,
}

/// The conversion of a stopped capture to GIF.
pub struct GifConversion {
    step: ConversionStep,
    raw_file: String,
    output: String,
    crop: Option<Region>,
    fps: u32,
}

/// A conversion, abstractly.
pub struct ConversionView {
    pub step: ConversionStep,
    pub raw_file: Seq<char>,
    pub output: Seq<char>,
    pub crop: Option<Region>,
    pub fps: u32,
}

impl View for GifConversion {
    type V = ConversionView;

    closed spec fn view(&self) -> ConversionView {
        ConversionView {
            step: self.step,
            raw_file: self.raw_file@,
            output: self.output@,
            crop: self.crop,
            fps: self.fps,
        }
    }
}

/// What the conversion asks of its caller next.
pub enum ConversionAction {
    /// Run `ffmpeg` with these arguments and hand back its standard error
    /// (`None` when it could not be run).
    RunCropDetect { args: Vec<String> },
    /// Run `ffmpeg` with these arguments and hand back how it ended.
    RunFfmpeg { args: Vec<String> },
    /// Remove this file (whether that works does not matter).
    RemoveRawFile { path: String },
    /// Report this outcome: the saved GIF, or why there is none.
    Finish(Result<String, String>),
    /// Nothing to do.
    Ignore,
}

/// What the conversion asks next, abstractly.
pub enum ConversionActionView {
    RunCropDetect(Seq<Seq<char>>),
    RunFfmpeg(Seq<Seq<char>>),
    RemoveRawFile(Seq<char>),
    Finish(Result<Seq<char>, Seq<char>>),
    Ignore,
}

impl View for ConversionAction {
    type V = ConversionActionView;

    open spec fn view(&self) -> ConversionActionView {
        match self {
            ConversionAction::RunCropDetect { args } => ConversionActionView::RunCropDetect(
                texts(args@),
            ),
            ConversionAction::RunFfmpeg { args } => ConversionActionView::RunFfmpeg(texts(args@)),
            ConversionAction::RemoveRawFile { path } => ConversionActionView::RemoveRawFile(path@),
            ConversionAction::Finish(r) => ConversionActionView::Finish(
                match r {
                    Ok(p) => Ok(p@),
                    Err(e) => Err(e@),
                },
            ),
            ConversionAction::Ignore => ConversionActionView::Ignore,
        }
    }
}

/// What happened since the last action.
pub enum ConversionEvent {
    /// Crop detection ended with this standard error, or could not run.
    CropDetectOutput(Option<String>),
    /// The GIF conversion ended so.
    FfmpegDone(FfmpegRun),
    /// The raw capture was removed, or its removal failed.
    RawFileRemoved,
}

/// The arguments of the conversion run with the given detected crop.
pub open spec fn convert_args_text(c: ConversionView, detected: Option<Seq<char>>) -> Seq<Seq<char>> {
    seq!["-y"@, "-i"@, c.raw_file, "-vf"@, gif_filters_text(detected, c.crop, c.fps), c.output]
}

/// The crop detection arguments for the raw capture.
pub open spec fn detect_args_text(raw_file: Seq<char>) -> Seq<Seq<char>> {
    seq![
        "-i"@,
        raw_file,
        "-vf"@,
        cropdetect_filter_text(),
        "-frames:v"@,
        "240"@,
        "-f"@,
        "null"@,
        "-"@,
    ]
}

/// A fresh conversion and its first action: crop detection for window captures
/// (whose borders are cropped), the conversion itself otherwise.
pub open spec fn conversion_begin(
    raw_file: Seq<char>,
    output: Seq<char>,
    crop: Option<Region>,
    fps: u32,
    auto_crop_black: bool,
) -> (ConversionView, ConversionActionView) {
    let c = ConversionView { step: ConversionStep::Detecting, raw_file, output, crop, fps };
    if auto_crop_black {
        (c, ConversionActionView::RunCropDetect(detect_args_text(raw_file)))
    } else {
        (
            ConversionView { step: ConversionStep::Converting, ..c },
            ConversionActionView::RunFfmpeg(convert_args_text(c, None)),
        )
    }
}

/// The effect of an event on a conversion.
pub open spec fn conversion_transition(c: ConversionView, e: ConversionEvent) -> (
    ConversionView,
    ConversionActionView,
) {
    match (c.step, e) {
        (ConversionStep::Detecting, ConversionEvent::CropDetectOutput(out)) => {
            let detected = match out {
                Some(o) => detected_crop(o@),
                None => None,
            };
            (
                ConversionView { step: ConversionStep::Converting, ..c },
                ConversionActionView::RunFfmpeg(convert_args_text(c, detected)),
            )
        },
        (ConversionStep::Converting, ConversionEvent::FfmpegDone(run)) => match conversion_result_text(
            run,
        ) {
            Ok(()) => (
                ConversionView { step: ConversionStep::Cleaning, ..c },
                ConversionActionView::RemoveRawFile(c.raw_file),
            ),
            Err(m) => (
                ConversionView { step: ConversionStep::Finished, ..c },
                ConversionActionView::Finish(Err(m)),
            ),
        },
        (ConversionStep::Cleaning, ConversionEvent::RawFileRemoved) => (
            ConversionView { step: ConversionStep::Finished, ..c },
            ConversionActionView::Finish(Ok(c.output)),
        ),
        _ => (c, ConversionActionView::Ignore),
    }
}

impl GifConversion {
    /// Starts converting the capture `raw_file` to the GIF `output`.
    pub fn begin(raw_file: String, output: String, crop: Option<Region>, fps: u32, auto_crop_black: bool) -> (r: (
        GifConversion,
        ConversionAction,
    ))
        ensures
            (r.0@, r.1@) == conversion_begin(raw_file@, output@, crop, fps, auto_crop_black),
    {
        if auto_crop_black {
            let args = cropdetect_args(raw_file.as_str());
            (
                GifConversion { step: ConversionStep::Detecting, raw_file, output, crop, fps },
                ConversionAction::RunCropDetect { args },
            )
        } else {
            let filters = gif_filters(&None, crop, fps);
            let args = gif_ffmpeg_args(raw_file.as_str(), filters.as_str(), output.as_str());
            (
                GifConversion { step: ConversionStep::Converting, raw_file, output, crop, fps },
                ConversionAction::RunFfmpeg { args },
            )
        }
    }

    /// Where the conversion stands.
    pub fn step(&self) -> (s: ConversionStep)
        ensures
            s == self@.step,
    {
        self.step
    }

    /// Takes in an event and says what to do next.
    pub fn advance(&mut self, event: ConversionEvent) -> (a: ConversionAction)
        ensures
            (final(self)@, a@) == conversion_transition(old(self)@, event),
    {
        match (self.step, event) {
            (ConversionStep::Detecting, ConversionEvent::CropDetectOutput(out)) => {
                let detected = match out {
                    Some(o) => parse_cropdetect(o.as_str()),
                    None => None,
                };
                let filters = gif_filters(&detected, self.crop, self.fps);
                let args = gif_ffmpeg_args(
                    self.raw_file.as_str(),
                    filters.as_str(),
                    self.output.as_str(),
                );
                self.step = ConversionStep::Converting;
                ConversionAction::RunFfmpeg { args }
            },
            (ConversionStep::Converting, ConversionEvent::FfmpegDone(run)) => {
                match conversion_result(run) {
                    Ok(()) => {
                        self.step = ConversionStep::Cleaning;
                        ConversionAction::RemoveRawFile { path: self.raw_file.clone() }
                    },
                    Err(m) => {
                        self.step = ConversionStep::Finished;
                        ConversionAction::Finish(Err(m))
                    },
                }
            },
            (ConversionStep::Cleaning, ConversionEvent::RawFileRemoved) => {
                self.step = ConversionStep::Finished;
                ConversionAction::Finish(Ok(self.output.clone()))
            },
            _ => ConversionAction::Ignore,
        }
    }
}

/// The raw capture is removed only after ffmpeg converted it successfully;
/// on a failed conversion it is kept and the failure reported.
pub proof fn law_raw_capture_removed_only_after_success(c: ConversionView, e: ConversionEvent)
    ensures
        conversion_transition(c, e).1 is RemoveRawFile ==> c.step is Converting,
        conversion_transition(c, e).1 is RemoveRawFile ==> (e matches ConversionEvent::FfmpegDone(
            FfmpegRun::Exited { success: true, .. },
        )),
        c.step is Converting ==> (e matches ConversionEvent::FfmpegDone(run)
            ==> (conversion_result_text(run) is Err ==> conversion_transition(c, e).1 is Finish)),
{
}

/// A conversion reports success only once the raw capture was removed, and
/// what it reports is the output path it was given.
pub proof fn law_success_reports_the_output_path(c: ConversionView, e: ConversionEvent, p: Seq<char>)
    requires
        conversion_transition(c, e).1 == ConversionActionView::Finish(Ok(p)),
    ensures
        p == c.output,
        c.step is Cleaning,
{
}

/// Whether `e` is the event that answers action `a`: the crop detection's
/// output, the end of the ffmpeg run, or the removal of the raw capture.
pub open spec fn answers(a: ConversionActionView, e: ConversionEvent) -> bool {
    match (a, e) {
        (ConversionActionView::RunCropDetect(_), ConversionEvent::CropDetectOutput(_)) => true,
        (ConversionActionView::RunFfmpeg(_), ConversionEvent::FfmpegDone(_)) => true,
        (ConversionActionView::RemoveRawFile(_), ConversionEvent::RawFileRemoved) => true,
        _ => false,
    }
}

/// Whether a conversion at `c` has just asked for `a`: each step has its own
/// action, and a finished conversion has reported its outcome.
pub open spec fn awaits(c: ConversionView, a: ConversionActionView) -> bool {
    match c.step {
        ConversionStep::Detecting => a is RunCropDetect,
        ConversionStep::Converting => a is RunFfmpeg,
        ConversionStep::Cleaning => a is RemoveRawFile,
        ConversionStep::Finished => a is Finish,
    }
}

/// The position of a step in the order the conversion goes through them.
pub open spec fn conversion_rank(s: ConversionStep) -> int {
    match s {
        ConversionStep::Detecting => 0,
        ConversionStep::Converting => 1,
        ConversionStep::Cleaning => 2,
        ConversionStep::Finished => 3,
    }
}

/// A conversion starts by asking for the action of its step, and a caller who
/// answers each action with its event is never ignored: every answer moves the
/// conversion to a later step with a new action, until one reports the
/// outcome. So a loop that performs the actions ends, after at most three
/// answers, with the outcome.
pub proof fn law_answered_conversion_moves_on(
    c: ConversionView,
    a: ConversionActionView,
    e: ConversionEvent,
    raw_file: Seq<char>,
    output: Seq<char>,
    crop: Option<Region>,
    fps: u32,
    auto_crop_black: bool,
)
    ensures
        awaits(
            conversion_begin(raw_file, output, crop, fps, auto_crop_black).0,
            conversion_begin(raw_file, output, crop, fps, auto_crop_black).1,
        ),
        awaits(c, a) && answers(a, e) ==> {
            let (c2, a2) = conversion_transition(c, e);
            &&& awaits(c2, a2)
            &&& a2 !is Ignore
            &&& conversion_rank(c2.step) > conversion_rank(c.step)
        },
        awaits(c, a) ==> (a is Finish <==> c.step is Finished),
{
}

/// The end of every GIF filter chain: the frame rate `fps`, then the palette
/// generation and use.
pub open spec fn fps_and_palette(fps: u32) -> Seq<char> {
    "fps="@ + decimal(fps as nat)
        + ",split[s0][s1];[s0]palettegen=stats_mode=diff[p];[s1][p]paletteuse=dither=floyd_steinberg:diff_mode=rectangle"@
}

/// Whether `s` ends with `t`.
pub open spec fn ends_with(s: Seq<char>, t: Seq<char>) -> bool {
    t.len() <= s.len() && s.skip(s.len() - t.len()) == t
}

/// Whether `s` starts with `t`.
pub open spec fn starts_with(s: Seq<char>, t: Seq<char>) -> bool {
    t.len() <= s.len() && s.take(t.len() as int) == t
}

spec fn filters_head(detected: Option<Seq<char>>, crop: Option<Region>) -> Seq<char> {
    let borders = match detected {
        Some(c) => c + ","@,
        None => Seq::empty(),
    };
    let region = match crop {
        Some(r) => "crop="@ + signed_decimal(r.width as int) + ":"@ + signed_decimal(
            r.height as int,
        ) + ":"@ + signed_decimal(r.x as int) + ":"@ + signed_decimal(r.y as int) + ","@,
        None => Seq::empty(),
    };
    "trim=start=0.3,setpts=PTS-STARTPTS,"@ + borders + region
}

proof fn lemma_filters_split(detected: Option<Seq<char>>, crop: Option<Region>, fps: u32)
    ensures
        gif_filters_text(detected, crop, fps) == filters_head(detected, crop) + fps_and_palette(fps),
        starts_with(
            filters_head(detected, crop),
            "trim=start=0.3,setpts=PTS-STARTPTS,"@ + match detected {
                Some(c) => c + ","@,
                None => Seq::empty(),
            },
        ),
{
    assert(gif_filters_text(detected, crop, fps) =~= filters_head(detected, crop) + fps_and_palette(
        fps,
    ));
    let borders = match detected {
        Some(c) => c + ","@,
        None => Seq::empty(),
    };
    let t = "trim=start=0.3,setpts=PTS-STARTPTS,"@ + borders;
    assert(filters_head(detected, crop).take(t.len() as int) =~= t);
}

proof fn lemma_fps_and_palette_injective(h: Seq<char>, a: u32, b: u32)
    requires
        h + fps_and_palette(a) == h + fps_and_palette(b),
    ensures
        a == b,
{
    reveal_strlit("fps=");
    let ta = fps_and_palette(a);
    let tb = fps_and_palette(b);
    assert((h + ta).skip(h.len() as int) =~= ta);
    assert((h + tb).skip(h.len() as int) =~= tb);
    assert(ta == tb);
    let da = decimal(a as nat);
    let db = decimal(b as nat);
    assert(ta.subrange(4, 4 + da.len() as int) =~= da);
    assert(tb.subrange(4, 4 + db.len() as int) =~= db);
    assert(da =~= db);
    lemma_decimal_injective(a as nat, b as nat);
}

proof fn lemma_ends_with_tail(h: Seq<char>, t: Seq<char>, p: Seq<char>)
    requires
        starts_with(h, p),
    ensures
        ends_with(h + t, t),
        starts_with(h + t, p),
{
    assert((h + t).skip((h + t).len() - t.len()) =~= t);
    assert((h + t).take(p.len() as int) =~= h.take(p.len() as int));
}

/// A capture converted without crop detection is converted at once, reading
/// the raw capture and writing the output, with a filter chain that keeps the
/// frame rate it was given: the chain starts with the 0.3 s trim and ends with
/// `fps=` and that rate before the palette filters; two such conversions that
/// differ only in frame rate run ffmpeg with different filters. The
/// conversion keeps the rate for later steps.
pub proof fn law_conversion_uses_the_chosen_frame_rate(
    raw_file: Seq<char>,
    output: Seq<char>,
    crop: Option<Region>,
    fps: u32,
    other_fps: u32,
    auto_crop_black: bool,
)
    ensures
        conversion_begin(raw_file, output, crop, fps, auto_crop_black).0.fps == fps,
        conversion_begin(raw_file, output, crop, fps, auto_crop_black).0.crop == crop,
        !auto_crop_black ==> (conversion_begin(raw_file, output, crop, fps, false).1 matches
            ConversionActionView::RunFfmpeg(args) && args.len() == 6 && args[2] == raw_file
            && args[5] == output && starts_with(args[4], "trim=start=0.3,setpts=PTS-STARTPTS,"@)
            && ends_with(args[4], fps_and_palette(fps))),
        fps != other_fps ==> conversion_begin(raw_file, output, crop, fps, false).1
            != conversion_begin(raw_file, output, crop, other_fps, false).1,
{
    lemma_filters_split(None, crop, fps);
    lemma_filters_split(None, crop, other_fps);
    assert("trim=start=0.3,setpts=PTS-STARTPTS,"@ + Seq::<char>::empty() =~= "trim=start=0.3,setpts=PTS-STARTPTS,"@);
    lemma_ends_with_tail(
        filters_head(None, crop),
        fps_and_palette(fps),
        "trim=start=0.3,setpts=PTS-STARTPTS,"@,
    );
    let h = filters_head(None, crop);
    if fps != other_fps && conversion_begin(raw_file, output, crop, fps, false).1
        == conversion_begin(raw_file, output, crop, other_fps, false).1 {
        let a1 = convert_args_text(
            ConversionView { step: ConversionStep::Detecting, raw_file, output, crop, fps },
            None,
        );
        let a2 = convert_args_text(
            ConversionView { step: ConversionStep::Detecting, raw_file, output, crop, fps: other_fps },
            None,
        );
        assert(a1[4] == a2[4]);
        lemma_fps_and_palette_injective(h, fps, other_fps);
    }
}

/// After crop detection, a window capture is converted with a filter chain
/// that removes the detected borders right after the trim and ends with
/// `fps=` and the frame rate the conversion was begun with; conversions that
/// differ only in frame rate run ffmpeg with different filters.
pub proof fn law_detected_conversion_uses_the_chosen_frame_rate(
    c: ConversionView,
    out: Option<String>,
    other_fps: u32,
)
    requires
        c.step is Detecting,
    ensures
        ({
            let detected = match out {
                Some(o) => detected_crop(o@),
                None => None,
            };
            let borders = match detected {
                Some(d) => d + ","@,
                None => Seq::empty(),
            };
            conversion_transition(c, ConversionEvent::CropDetectOutput(out)).1 matches
                ConversionActionView::RunFfmpeg(args) && args.len() == 6 && args[2] == c.raw_file
                && args[5] == c.output && starts_with(
                args[4],
                "trim=start=0.3,setpts=PTS-STARTPTS,"@ + borders,
            ) && ends_with(args[4], fps_and_palette(c.fps))
        }),
        c.fps != other_fps ==> conversion_transition(c, ConversionEvent::CropDetectOutput(out)).1
            != conversion_transition(
            ConversionView { fps: other_fps, ..c },
            ConversionEvent::CropDetectOutput(out),
        ).1,
{
    let detected = match out {
        Some(o) => detected_crop(o@),
        None => None,
    };
    lemma_filters_split(detected, c.crop, c.fps);
    lemma_filters_split(detected, c.crop, other_fps);
    let h = filters_head(detected, c.crop);
    let borders = match detected {
        Some(d) => d + ","@,
        None => Seq::empty(),
    };
    lemma_ends_with_tail(h, fps_and_palette(c.fps), "trim=start=0.3,setpts=PTS-STARTPTS,"@ + borders);
    if c.fps != other_fps && conversion_transition(c, ConversionEvent::CropDetectOutput(out)).1
        == conversion_transition(
        ConversionView { fps: other_fps, ..c },
        ConversionEvent::CropDetectOutput(out),
    ).1 {
        let a1 = convert_args_text(c, detected);
        let a2 = convert_args_text(ConversionView { fps: other_fps, ..c }, detected);
        assert(a1[4] == a2[4]);
        lemma_fps_and_palette_injective(h, c.fps, other_fps);
    }
}

/// Crop detection runs only for captures whose black borders are cropped.
pub proof fn law_detection_only_for_window_captures(
    raw_file: Seq<char>,
    output: Seq<char>,
    crop: Option<Region>,
    fps: u32,
    auto_crop_black: bool,
)
    ensures
        conversion_begin(raw_file, output, crop, fps, auto_crop_black).1 is RunCropDetect
            <==> auto_crop_black,
{
}

} // verus!
