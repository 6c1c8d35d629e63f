use gif_that_for_you::recorder::{
    auto_crop_black_for, conversion_result, cropdetect_args, gif_ffmpeg_args, gif_filters,
    gif_output_path, gst_spawn_error, gstreamer_args, join_path, parse_cropdetect,
    pictures_path, raw_capture_path, sigint_args, without_cloexec, ConversionAction,
    ConversionEvent, ConversionStep, FfmpegRun, GifConversion, RecorderState, Region,
};

fn s(t: &str) -> String {
    t.to_string()
}

#[test]
fn recorder_starts_idle() {
    let r: RecorderState<u32, i32> = RecorderState::new();
    assert!(!r.is_recording());
    assert!(r.check_idle().is_ok());
}

#[test]
fn stop_hands_back_what_start_kept() {
    let mut r: RecorderState<u32, i32> = RecorderState::new();
    let crop = Region { x: 1, y: 2, width: 30, height: 40 };
    r.record_started(4242, s("/tmp/raw.mkv"), Some(crop), 2, 17);
    assert!(r.is_recording());
    assert_eq!(r.check_idle(), Err(s("Already recording")));
    let job = match r.take_for_stop() {
        Ok(job) => job,
        Err(e) => panic!("{}", e),
    };
    assert_eq!(job.process, 4242);
    assert_eq!(job.raw_file, "/tmp/raw.mkv");
    let c = job.crop.unwrap();
    assert_eq!((c.x, c.y, c.width, c.height), (1, 2, 30, 40));
    assert_eq!(job.source_types, 2);
    assert_eq!(job.pipewire_fd, Some(17));
    assert!(job.auto_crop_black);
    assert!(!r.is_recording());
    assert!(r.check_idle().is_ok());
    assert!(matches!(r.take_for_stop(), Err(e) if e == "Not recording"));
}

#[test]
fn screen_captures_are_not_auto_cropped() {
    let mut r: RecorderState<u32, i32> = RecorderState::new();
    r.record_started(1, s("f"), None, 1, 3);
    let job = r.take_for_stop().ok().unwrap();
    assert!(!job.auto_crop_black);
    assert!(job.crop.is_none());
    assert!(auto_crop_black_for(2));
    assert!(!auto_crop_black_for(1));
    assert!(!auto_crop_black_for(3));
}

#[test]
fn stop_without_capture_is_refused() {
    let mut r: RecorderState<u32, i32> = RecorderState::new();
    assert!(matches!(r.take_for_stop(), Err(e) if e == "Not recording"));
}

#[test]
fn gstreamer_pipeline_arguments() {
    let args = gstreamer_args(42, 57, "/tmp/gif-that-for-you-raw.mkv");
    let expected = vec![
        "pipewiresrc",
        "fd=42",
        "path=57",
        "do-timestamp=true",
        "!",
        "videoconvert",
        "!",
        "avenc_ffv1",
        "!",
        "matroskamux",
        "!",
        "filesink",
        "location=/tmp/gif-that-for-you-raw.mkv",
    ];
    assert_eq!(args, expected);
    assert_eq!(gstreamer_args(-1, 0, "x")[1], "fd=-1");
    assert_eq!(gstreamer_args(i32::MIN, 4294967295, "x")[1], "fd=-2147483648");
    assert_eq!(gstreamer_args(i32::MIN, 4294967295, "x")[2], "path=4294967295");
}

#[test]
fn gstreamer_spawn_failure_explains_installation() {
    assert_eq!(
        gst_spawn_error("No such file or directory (os error 2)"),
        "Failed to start gst-launch-1.0: No such file or directory (os error 2)\n\
         Please install GStreamer with the PipeWire and libav plugins:\n\
         · Arch:   pacman -S gstreamer gst-plugins-base gst-plugins-good gst-plugin-pipewire gst-libav\n\
         · Ubuntu: apt install gstreamer1.0-tools gstreamer1.0-plugins-base gstreamer1.0-plugins-good gstreamer1.0-pipewire gstreamer1.0-libav"
    );
}

#[test]
fn close_on_exec_is_cleared() {
    assert_eq!(without_cloexec(1), Some(0));
    assert_eq!(without_cloexec(3), Some(2));
    assert_eq!(without_cloexec(0), Some(0));
    assert_eq!(without_cloexec(0x7ffffffe), Some(0x7ffffffe));
    assert_eq!(without_cloexec(-1), None);
}

#[test]
fn interrupt_arguments() {
    assert_eq!(sigint_args(1234), vec![s("-SIGINT"), s("1234")]);
    assert_eq!(sigint_args(0), vec![s("-SIGINT"), s("0")]);
}

#[test]
fn paths_are_joined_like_path_join() {
    assert_eq!(join_path("/home/ann", "Pictures"), "/home/ann/Pictures");
    assert_eq!(join_path("/home/ann/", "Pictures"), "/home/ann/Pictures");
    assert_eq!(join_path("", "Pictures"), "Pictures");
    assert_eq!(join_path("/", "tmp"), "/tmp");
    assert_eq!(pictures_path("/home/ann"), "/home/ann/Pictures");
    assert_eq!(raw_capture_path("/tmp"), "/tmp/gif-that-for-you-raw.mkv");
}

#[test]
fn gif_is_saved_in_pictures_home_or_temp() {
    let home = Some(s("/home/ann"));
    assert_eq!(
        gif_output_path(&home, true, "/tmp", 1725029869),
        "/home/ann/Pictures/recording-1725029869.gif"
    );
    assert_eq!(gif_output_path(&home, false, "/tmp", 5), "/home/ann/recording-5.gif");
    assert_eq!(gif_output_path(&None, true, "/tmp", 0), "/tmp/recording-0.gif");
}

#[test]
fn crop_detection_arguments() {
    let expected = vec![
        "-i",
        "/tmp/raw.mkv",
        "-vf",
        "trim=start=0.3,setpts=PTS-STARTPTS,cropdetect=limit=10:round=2:reset=0",
        "-frames:v",
        "240",
        "-f",
        "null",
        "-",
    ];
    assert_eq!(cropdetect_args("/tmp/raw.mkv"), expected);
}

const CROPDETECT_LOG: &str = "ffmpeg version 6.1 Copyright (c) 2000-2023 the FFmpeg developers\n\
Input #0, matroska,webm, from '/tmp/gif-that-for-you-raw.mkv':\n\
  Stream #0:0: Video: ffv1 (FFV1 / 0x31564646), bgr0(pc, gbr/unknown/unknown), 1920x1080, SAR 1:1 DAR 16:9, 30 fps, 30 tbr, 1k tbn (default)\n\
Stream mapping:\n\
  Stream #0:0 -> #0:0 (ffv1 (native) -> wrapped_avframe (native))\n\
Output #0, null, to 'pipe:':\n\
  Stream #0:0: Video: wrapped_avframe, bgr0(pc, gbr/unknown/unknown, progressive), 1920x1080 [SAR 1:1 DAR 16:9], q=2-31, 200 kb/s, 30 fps, 30 tbn (default)\n\
[Parsed_cropdetect_2 @ 0x55] x1:0 x2:1919 y1:0 y2:1079 w:1920 h:1072 x:0 y:4 pts:1 t:0.03 limit:0.039216 crop=1920:1072:0:4\n\
[Parsed_cropdetect_2 @ 0x55] x1:320 x2:1599 y1:140 y2:939 w:1280 h:800 x:320 y:140 pts:2 t:0.07 limit:0.039216 crop=1280:800:320:140\n\
frame=  240 fps=0.0 q=-0.0 Lsize=N/A time=00:00:08.00 bitrate=N/A speed=  24x\n";

#[test]
fn crop_detection_takes_the_last_crop_line() {
    assert_eq!(parse_cropdetect(CROPDETECT_LOG), Some(s("crop=1280:800:320:140")));
}

#[test]
fn crop_detection_handles_crlf_and_missing_lines() {
    assert_eq!(parse_cropdetect("a crop=10:20:30:40\r\nlast line\r\n"), Some(s("crop=10:20:30:40")));
    assert_eq!(parse_cropdetect(""), None);
    assert_eq!(parse_cropdetect("no crop here\n"), None);
    assert_eq!(parse_cropdetect("crop=1:2:3:4"), Some(s("crop=1:2:3:4")));
}

#[test]
fn crop_detection_needs_four_fields() {
    // a line naming three fields is passed over for an earlier complete one
    assert_eq!(parse_cropdetect("crop=1:2:3:4\ncrop=5:6:7\n"), Some(s("crop=1:2:3:4")));
    assert_eq!(parse_cropdetect("crop=1:2:3:4:5\n"), None);
    // only the first crop= of a line counts, and the value ends at the first other character
    assert_eq!(parse_cropdetect("crop=9 crop=1:2:3:4\n"), None);
    assert_eq!(parse_cropdetect("xcrop=1:2:3:4,rest\n"), Some(s("crop=1:2:3:4")));
    assert_eq!(parse_cropdetect("crop=:::\n"), Some(s("crop=:::")));
}

#[test]
fn gif_filter_chain() {
    let tail = "fps=15,split[s0][s1];[s0]palettegen=stats_mode=diff[p];[s1][p]paletteuse=dither=floyd_steinberg:diff_mode=rectangle";
    assert_eq!(gif_filters(&None, None, 15), format!("trim=start=0.3,setpts=PTS-STARTPTS,{}", tail));
    let region = Region { x: 10, y: 20, width: 640, height: 480 };
    assert_eq!(
        gif_filters(&Some(s("crop=1280:800:320:140")), Some(region), 15),
        format!("trim=start=0.3,setpts=PTS-STARTPTS,crop=1280:800:320:140,crop=640:480:10:20,{}", tail)
    );
    let negative = Region { x: -5, y: 0, width: 100, height: 50 };
    assert_eq!(
        gif_filters(&None, Some(negative), 30),
        "trim=start=0.3,setpts=PTS-STARTPTS,crop=100:50:-5:0,fps=30,split[s0][s1];[s0]palettegen=stats_mode=diff[p];[s1][p]paletteuse=dither=floyd_steinberg:diff_mode=rectangle"
    );
}

#[test]
fn gif_conversion_arguments() {
    assert_eq!(
        gif_ffmpeg_args("/tmp/raw.mkv", "fps=15", "/home/ann/Pictures/recording-1.gif"),
        vec!["-y", "-i", "/tmp/raw.mkv", "-vf", "fps=15", "/home/ann/Pictures/recording-1.gif"]
    );
}

#[test]
fn gif_conversion_outcomes() {
    assert_eq!(conversion_result(FfmpegRun::Exited { success: true, status: s("exit status: 0") }), Ok(()));
    assert_eq!(
        conversion_result(FfmpegRun::Exited { success: false, status: s("exit status: 1") }),
        Err(s("ffmpeg exited with status exit status: 1 while converting to GIF"))
    );
    assert_eq!(
        conversion_result(FfmpegRun::NotStarted(s("No such file or directory (os error 2)"))),
        Err(s("Failed to run ffmpeg: No such file or directory (os error 2)\nPlease install ffmpeg."))
    );
}

fn args_of(a: ConversionAction) -> Vec<String> {
    match a {
        ConversionAction::RunCropDetect { args } => args,
        ConversionAction::RunFfmpeg { args } => args,
        _ => panic!("expected an ffmpeg run"),
    }
}

const TAIL: &str = "fps=15,split[s0][s1];[s0]palettegen=stats_mode=diff[p];[s1][p]paletteuse=dither=floyd_steinberg:diff_mode=rectangle";

#[test]
fn window_capture_is_cropped_then_converted_then_removed() {
    let (mut c, a) = GifConversion::begin(s("/tmp/raw.mkv"), s("/out.gif"), None, 15, true);
    assert_eq!(c.step(), ConversionStep::Detecting);
    assert!(matches!(&a, ConversionAction::RunCropDetect { .. }));
    assert_eq!(args_of(a), cropdetect_args("/tmp/raw.mkv"));
    let a = c.advance(ConversionEvent::CropDetectOutput(Some(s(CROPDETECT_LOG))));
    assert!(matches!(&a, ConversionAction::RunFfmpeg { .. }));
    let args = args_of(a);
    assert_eq!(args[4], format!("trim=start=0.3,setpts=PTS-STARTPTS,crop=1280:800:320:140,{}", TAIL));
    assert_eq!(args[5], "/out.gif");
    let a = c.advance(ConversionEvent::FfmpegDone(FfmpegRun::Exited { success: true, status: s("exit status: 0") }));
    assert!(matches!(a, ConversionAction::RemoveRawFile { path } if path == "/tmp/raw.mkv"));
    let a = c.advance(ConversionEvent::RawFileRemoved);
    assert!(matches!(a, ConversionAction::Finish(Ok(p)) if p == "/out.gif"));
    assert_eq!(c.step(), ConversionStep::Finished);
    assert!(matches!(c.advance(ConversionEvent::RawFileRemoved), ConversionAction::Ignore));
}

#[test]
fn screen_capture_skips_crop_detection() {
    let region = Region { x: 0, y: 0, width: 20, height: 20 };
    let (c, a) = GifConversion::begin(s("r.mkv"), s("o.gif"), Some(region), 15, false);
    assert_eq!(c.step(), ConversionStep::Converting);
    assert!(matches!(&a, ConversionAction::RunFfmpeg { .. }));
    assert_eq!(
        args_of(a),
        gif_ffmpeg_args("r.mkv", &format!("trim=start=0.3,setpts=PTS-STARTPTS,crop=20:20:0:0,{}", TAIL), "o.gif")
    );
}

#[test]
fn crop_detection_that_cannot_run_converts_uncropped() {
    let (mut c, _) = GifConversion::begin(s("r.mkv"), s("o.gif"), None, 15, true);
    let a = c.advance(ConversionEvent::CropDetectOutput(None));
    assert_eq!(args_of(a)[4], format!("trim=start=0.3,setpts=PTS-STARTPTS,{}", TAIL));
}

#[test]
fn failed_conversion_keeps_the_raw_capture() {
    let (mut c, _) = GifConversion::begin(s("r.mkv"), s("o.gif"), None, 15, false);
    let a = c.advance(ConversionEvent::FfmpegDone(FfmpegRun::Exited { success: false, status: s("exit status: 1") }));
    assert!(matches!(a, ConversionAction::Finish(Err(e)) if e == "ffmpeg exited with status exit status: 1 while converting to GIF"));
    assert_eq!(c.step(), ConversionStep::Finished);
}

#[test]
fn detected_crop_is_a_crop_filter() {
    for out in [CROPDETECT_LOG, "crop=0:0:0:0", "a crop=12:34:56:78x\n"] {
        let c = parse_cropdetect(out).unwrap();
        assert!(c.starts_with("crop="));
        assert_eq!(c.matches(':').count(), 3);
        assert!(c[5..].chars().all(|ch| ch.is_ascii_digit() || ch == ':'));
    }
}

const FULL_FRAME_LOG: &str = "Input #0, matroska,webm, from '/tmp/gif-that-for-you-raw.mkv':\n\
  Stream #0:0: Video: ffv1 (FFV1 / 0x31564646), bgr0(pc, gbr/unknown/unknown), 1920x1080, SAR 1:1 DAR 16:9, 30 fps, 30 tbr, 1k tbn (default)\n\
[Parsed_cropdetect_2 @ 0x55] x1:0 x2:1919 y1:0 y2:1079 w:1920 h:1080 x:0 y:0 pts:1 t:0.03 limit:0.039216 crop=1920:1080:0:0\n\
[Parsed_cropdetect_2 @ 0x55] x1:0 x2:1919 y1:0 y2:1079 w:1920 h:1080 x:0 y:0 pts:2 t:0.07 limit:0.039216 crop=1920:1080:0:0\n\
frame=  240 fps=0.0 q=-0.0 Lsize=N/A time=00:00:08.00 bitrate=N/A speed=  24x\n";

#[test]
fn crop_detection_finds_no_borders_in_a_full_frame() {
    assert_eq!(parse_cropdetect(FULL_FRAME_LOG), None);
}

#[test]
fn crop_detection_reads_the_frame_size_of_the_input_stream() {
    // the codec tag 0x30524742 is no size; the first stream line's size counts
    let out = "  Stream #0:0: Video: rawvideo (BGR[0] / 0x30524742), bgr0, 640x480, 30 fps\n\
  Stream #0:0: Video: wrapped_avframe, bgr0, 320x240 [SAR 1:1 DAR 4:3]\n\
crop=640:480:0:0\n";
    assert_eq!(parse_cropdetect(out), None);
    let out = "  Stream #0:0: Video: rawvideo (BGR[0] / 0x30524742), bgr0, 640x480, 30 fps\n\
crop=320:240:0:0\n";
    assert_eq!(parse_cropdetect(out), Some(s("crop=320:240:0:0")));
    // a crop that starts inside the frame is kept even with the full size
    let out = "Video: x, 640x480\ncrop=640:480:2:0\n";
    assert_eq!(parse_cropdetect(out), Some(s("crop=640:480:2:0")));
    // a size on a line that names no video stream is not the frame size
    let out = "title: 640x480, clip\ncrop=640:480:0:0\n";
    assert_eq!(parse_cropdetect(out), Some(s("crop=640:480:0:0")));
    // without a known frame size the detected crop stands
    assert_eq!(parse_cropdetect("crop=1920:1080:0:0\n"), Some(s("crop=1920:1080:0:0")));
}

#[test]
fn crop_detection_with_borders_in_a_full_frame_log() {
    let out = format!("{}crop=1280:800:320:140\n", FULL_FRAME_LOG);
    assert_eq!(parse_cropdetect(&out), Some(s("crop=1280:800:320:140")));
}

#[test]
fn answered_conversion_moves_on_until_the_outcome() {
    for auto_crop in [true, false] {
        let (mut c, mut a) = GifConversion::begin(s("r.mkv"), s("o.gif"), None, 10, auto_crop);
        let mut answers = 0;
        let outcome = loop {
            let e = match a {
                ConversionAction::RunCropDetect { .. } => ConversionEvent::CropDetectOutput(Some(s(FULL_FRAME_LOG))),
                ConversionAction::RunFfmpeg { .. } => ConversionEvent::FfmpegDone(FfmpegRun::Exited { success: true, status: s("exit status: 0") }),
                ConversionAction::RemoveRawFile { .. } => ConversionEvent::RawFileRemoved,
                ConversionAction::Finish(r) => break r,
                ConversionAction::Ignore => panic!("an answered action was ignored"),
            };
            answers += 1;
            a = c.advance(e);
        };
        assert_eq!(outcome, Ok(s("o.gif")));
        assert_eq!(answers, if auto_crop { 3 } else { 2 });
        assert_eq!(c.step(), ConversionStep::Finished);
    }
}

#[test]
fn full_frame_detection_adds_no_crop_to_the_conversion() {
    let (mut c, _) = GifConversion::begin(s("r.mkv"), s("o.gif"), None, 15, true);
    let a = c.advance(ConversionEvent::CropDetectOutput(Some(s(FULL_FRAME_LOG))));
    match a {
        ConversionAction::RunFfmpeg { args } => {
            assert_eq!(args[4], "trim=start=0.3,setpts=PTS-STARTPTS,fps=15,split[s0][s1];[s0]palettegen=stats_mode=diff[p];[s1][p]paletteuse=dither=floyd_steinberg:diff_mode=rectangle");
        }
        _ => panic!("expected the conversion run"),
    }
}
