use subtitle_bridge::media::{
    ffmpeg, init_ffmpeg_path, temp_path, well_known_ffmpeg_locations, AudioConfig, FfmpegRequest,
    ImageConfig, MediaType, DEFAULT_AUDIO_OFFSET,
};
use subtitle_bridge::seconds::Seconds;
use subtitle_bridge::subtitle::Subtitle;

fn subtitle() -> Subtitle {
    Subtitle {
        id: 1,
        text: "Hello world".to_string(),
        sub_start: Seconds::from_millis(12_000),
        sub_end: Seconds::from_millis(14_500),
        media_path: "/movies/a.mkv".to_string(),
        aid: 2,
    }
}

fn image(format: &str, quality: i32, is_animated: bool) -> ImageConfig {
    ImageConfig { format: format.to_string(), quality, is_animated, size: None, advanced_args: None }
}

fn audio(format: &str, quality: i32) -> AudioConfig {
    AudioConfig { format: format.to_string(), quality, filters: None, advanced_args: None }
}

fn image_args(config: &ImageConfig) -> Vec<String> {
    let mut args = Vec::new();
    config.apply_to_args(&mut args, &subtitle());
    args
}

fn audio_args(config: &AudioConfig) -> Vec<String> {
    let mut args = Vec::new();
    config.apply_to_args(&mut args);
    args
}

#[test]
fn media_types_have_two_names() {
    assert_eq!(MediaType::from_str("thumbnail"), Some(MediaType::Thumbnail));
    assert_eq!(MediaType::from_str("audio"), Some(MediaType::Audio));
    assert_eq!(MediaType::from_str("audio_range"), None);
    assert_eq!(MediaType::from_str("Audio"), None);
    assert_eq!(MediaType::from_str(""), None);
    assert_eq!(MediaType::Thumbnail.name(), "thumbnail");
    assert_eq!(MediaType::Audio.name(), "audio");
}

#[test]
fn default_configs_are_jpeg_and_mp3() {
    let image = ImageConfig::default();
    assert_eq!(image.format, "jpeg");
    assert_eq!(image.quality, 5);
    assert!(!image.is_animated);
    assert_eq!(image.size, None);
    assert_eq!(image.advanced_args, None);
    let audio = AudioConfig::default();
    assert_eq!(audio.format, "mp3");
    assert_eq!(audio.quality, 128);
    assert_eq!(audio.filters, None);
    assert_eq!(audio.advanced_args, None);
    assert_eq!(DEFAULT_AUDIO_OFFSET, 250);
}

#[test]
fn image_extensions_follow_the_format() {
    for (format, extension) in [
        ("jpeg", "jpg"),
        ("jpg", "jpg"),
        (".jpg", "jpg"),
        ("", "jpg"),
        ("...", "jpg"),
        ("avif", "avif"),
        ("avif_animated", "avif"),
        ("webp", "webp"),
        (".webp_animated", "webp"),
        ("png", "png"),
        ("..gif", "gif"),
        ("JPEG", "JPEG"),
    ] {
        assert_eq!(image(format, 5, false).get_extension(), extension, "for {:?}", format);
    }
}

#[test]
fn audio_extensions_follow_the_format() {
    for (format, extension) in
        [("mp3", "mp3"), ("opus", "opus"), (".opus", "opus"), ("", "mp3"), (".", "mp3"), ("ogg", "ogg")]
    {
        assert_eq!(audio(format, 128).get_extension(), extension, "for {:?}", format);
    }
}

#[test]
fn still_jpeg_takes_one_frame() {
    assert_eq!(image_args(&image("jpeg", 5, false)), ["-vframes", "1", "-c:v", "mjpeg", "-q:v", "5"]);
    assert_eq!(image_args(&image("jpg", 0, false)), ["-vframes", "1", "-c:v", "mjpeg", "-q:v", "1"]);
    assert_eq!(image_args(&image("jpg", 99, false)), ["-vframes", "1", "-c:v", "mjpeg", "-q:v", "31"]);
}

#[test]
fn image_args_are_appended_to_what_is_there() {
    let mut args = vec!["-ss".to_string(), "1.000".to_string()];
    image("jpeg", 5, false).apply_to_args(&mut args, &subtitle());
    assert_eq!(args, ["-ss", "1.000", "-vframes", "1", "-c:v", "mjpeg", "-q:v", "5"]);
}

#[test]
fn avif_args_depend_on_animation() {
    assert_eq!(
        image_args(&image("avif", 70, false)),
        [
            "-vframes", "1", "-c:v", "libaom-av1", "-crf", "63", "-cpu-used", "8", "-pix_fmt",
            "yuv420p", "-still-picture", "1"
        ]
    );
    assert_eq!(
        image_args(&image("avif", -4, true)),
        ["-t", "2.500", "-c:v", "libaom-av1", "-crf", "0", "-cpu-used", "8", "-pix_fmt", "yuv420p"]
    );
}

#[test]
fn other_formats_are_webp() {
    assert_eq!(
        image_args(&image("webp", 80, false)),
        ["-vframes", "1", "-c:v", "libwebp", "-quality", "80"]
    );
    assert_eq!(
        image_args(&image("webp_animated", 101, true)),
        ["-t", "2.500", "-c:v", "libwebp", "-quality", "100", "-loop", "0"]
    );
    assert_eq!(
        image_args(&image("png", -1, false)),
        ["-vframes", "1", "-c:v", "libwebp", "-quality", "0"]
    );
}

#[test]
fn size_adds_a_scale_filter_unless_blank() {
    let mut config = image("jpeg", 5, false);
    config.size = Some("320:-1".to_string());
    assert_eq!(
        image_args(&config),
        ["-vframes", "1", "-vf", "scale=320:-1", "-c:v", "mjpeg", "-q:v", "5"]
    );
    config.size = Some("   ".to_string());
    assert_eq!(image_args(&config), ["-vframes", "1", "-c:v", "mjpeg", "-q:v", "5"]);
    config.size = Some(" 1x1 ".to_string());
    assert_eq!(
        image_args(&config),
        ["-vframes", "1", "-vf", "scale= 1x1 ", "-c:v", "mjpeg", "-q:v", "5"]
    );
}

#[test]
fn advanced_image_args_replace_scale_and_codec() {
    let mut config = image("avif", 5, false);
    config.size = Some("320:-1".to_string());
    config.advanced_args = Some("  -c:v png   -compression_level 9 ".to_string());
    assert_eq!(image_args(&config), ["-vframes", "1", "-c:v", "png", "-compression_level", "9"]);
    config.is_animated = true;
    assert_eq!(image_args(&config), ["-t", "2.500", "-c:v", "png", "-compression_level", "9"]);
    config.advanced_args = Some(String::new());
    assert_eq!(image_args(&config), ["-t", "2.500"]);
}

#[test]
fn mp3_and_opus_args() {
    assert_eq!(
        audio_args(&audio("mp3", 128)),
        ["-c:a", "libmp3lame", "-b:a", "128k", "-af", "afade=t=in:d=0.005"]
    );
    assert_eq!(
        audio_args(&audio("mp3", 1000)),
        ["-c:a", "libmp3lame", "-b:a", "320k", "-af", "afade=t=in:d=0.005"]
    );
    assert_eq!(
        audio_args(&audio("opus", 1000)),
        ["-c:a", "libopus", "-b:a", "512k", "-af", "afade=t=in:d=0.005"]
    );
    assert_eq!(
        audio_args(&audio("flac", 2)),
        ["-c:a", "libopus", "-b:a", "8k", "-af", "afade=t=in:d=0.005"]
    );
    assert_eq!(
        audio_args(&audio(".mp3", i32::MIN)),
        ["-c:a", "libopus", "-b:a", "8k", "-af", "afade=t=in:d=0.005"]
    );
}

#[test]
fn filters_join_the_fade_in() {
    let mut config = audio("mp3", 64);
    config.filters = Some("loudnorm,volume=2".to_string());
    assert_eq!(
        audio_args(&config),
        ["-c:a", "libmp3lame", "-b:a", "64k", "-af", "afade=t=in:d=0.005,loudnorm,volume=2"]
    );
    config.filters = Some(" \t".to_string());
    assert_eq!(
        audio_args(&config),
        ["-c:a", "libmp3lame", "-b:a", "64k", "-af", "afade=t=in:d=0.005"]
    );
    config.filters = Some(" loudnorm ".to_string());
    assert_eq!(
        audio_args(&config),
        ["-c:a", "libmp3lame", "-b:a", "64k", "-af", "afade=t=in:d=0.005, loudnorm "]
    );
}

#[test]
fn advanced_audio_args_replace_everything() {
    let mut config = audio("mp3", 64);
    config.filters = Some("loudnorm".to_string());
    config.advanced_args = Some("-c:a aac\n-b:a 96k".to_string());
    let mut args = vec!["-vn".to_string()];
    config.apply_to_args(&mut args);
    assert_eq!(args, ["-vn", "-c:a", "aac", "-b:a", "96k"]);
}

#[test]
fn still_thumbnail_seeks_to_the_middle() {
    let request = FfmpegRequest::thumbnail_at(&subtitle(), None, "/tmp/out.jpg".to_string());
    assert_eq!(
        request.args(),
        &[
            "-ss", "13.250", "-i", "/movies/a.mkv", "-vframes", "1", "-c:v", "mjpeg", "-q:v", "5",
            "-y", "/tmp/out.jpg"
        ]
    );
    assert_eq!(request.output_path(), "/tmp/out.jpg");
}

#[test]
fn animated_thumbnail_seeks_to_the_start() {
    let config = image("webp", 75, true);
    let request = FfmpegRequest::thumbnail_at(&subtitle(), Some(config), "o.webp".to_string());
    assert_eq!(
        request.args(),
        &[
            "-ss", "12.000", "-i", "/movies/a.mkv", "-t", "2.500", "-c:v", "libwebp", "-quality",
            "75", "-loop", "0", "-y", "o.webp"
        ]
    );
}

#[test]
fn thumbnail_midpoint_rounds_towards_zero() {
    let mut sub = subtitle();
    sub.sub_start = Seconds::from_millis(1);
    sub.sub_end = Seconds::from_millis(2);
    let request = FfmpegRequest::thumbnail_at(&sub, None, "o".to_string());
    assert_eq!(request.args()[1], "0.001");
    sub.sub_start = Seconds::from_millis(-2);
    sub.sub_end = Seconds::from_millis(-1);
    let request = FfmpegRequest::thumbnail_at(&sub, None, "o".to_string());
    assert_eq!(request.args()[1], "-0.001");
}

#[test]
fn audio_range_pads_by_a_quarter_second() {
    let request = FfmpegRequest::audio_range_at(
        Seconds::from_millis(12_000),
        Seconds::from_millis(14_500),
        "/movies/a.mkv",
        2,
        None,
        None,
        None,
        "/tmp/out.mp3".to_string(),
    );
    assert_eq!(
        request.args(),
        &[
            "-ss", "11.750", "-i", "/movies/a.mkv", "-t", "3.000", "-map", "0:a:1", "-vn", "-c:a",
            "libmp3lame", "-b:a", "128k", "-af", "afade=t=in:d=0.005", "-y", "/tmp/out.mp3"
        ]
    );
    assert_eq!(request.output_path(), "/tmp/out.mp3");
}

#[test]
fn audio_range_takes_the_given_padding() {
    let request = FfmpegRequest::audio_range_at(
        Seconds::from_millis(12_000),
        Seconds::from_millis(14_500),
        "a.mkv",
        1,
        Some(Seconds::from_millis(1_000)),
        Some(Seconds::from_millis(0)),
        Some(audio("opus", 96)),
        "o.opus".to_string(),
    );
    assert_eq!(
        request.args(),
        &[
            "-ss", "11.000", "-i", "a.mkv", "-t", "3.500", "-map", "0:a:0", "-vn", "-c:a",
            "libopus", "-b:a", "96k", "-af", "afade=t=in:d=0.005", "-y", "o.opus"
        ]
    );
}

#[test]
fn audio_range_never_starts_before_zero() {
    let request = FfmpegRequest::audio_range_at(
        Seconds::from_millis(100),
        Seconds::from_millis(900),
        "a.mkv",
        0,
        None,
        None,
        None,
        "o".to_string(),
    );
    let args = request.args();
    assert_eq!(args[1], "0.000");
    assert_eq!(args[5], "1.300");
    assert_eq!(args[7], "0:a:0");
}

#[test]
fn audio_range_with_odd_tracks_and_times() {
    let request = FfmpegRequest::audio_range_at(
        Seconds::from_millis(5_000),
        Seconds::from_millis(4_000),
        "a.mkv",
        i64::MIN,
        Some(Seconds::from_millis(-250)),
        Some(Seconds::from_millis(-250)),
        None,
        "o".to_string(),
    );
    let args = request.args();
    assert_eq!(args[1], "5.250");
    assert_eq!(args[5], "-1.500");
    assert_eq!(args[7], "0:a:0");
    let request = FfmpegRequest::audio_range_at(
        Seconds::from_millis(i64::MIN),
        Seconds::from_millis(i64::MAX),
        "a.mkv",
        i64::MAX,
        Some(Seconds::from_millis(i64::MAX)),
        Some(Seconds::from_millis(i64::MAX)),
        None,
        "o".to_string(),
    );
    let args = request.args();
    assert_eq!(args[1], "0.000");
    assert_eq!(args[5], "4000000000000.000");
    assert_eq!(args[7], "0:a:9223372036854775806");
}

#[test]
fn audio_of_one_line_is_a_range_over_it() {
    let request = FfmpegRequest::audio(&subtitle(), None, Some(Seconds::from_millis(500)), None, "/tmp");
    let args = request.args();
    assert_eq!(
        &args[..15],
        &[
            "-ss", "11.750", "-i", "/movies/a.mkv", "-t", "3.250", "-map", "0:a:1", "-vn", "-c:a",
            "libmp3lame", "-b:a", "128k", "-af", "afade=t=in:d=0.005"
        ]
    );
    assert_eq!(args[15], "-y");
    assert_eq!(args[16], request.output_path());
    assert_eq!(args.len(), 17);
    assert!(request.output_path().starts_with("/tmp/audio_"));
    assert!(request.output_path().ends_with(".mp3"));
}

#[test]
fn requests_write_to_fresh_temporary_files() {
    let first = FfmpegRequest::thumbnail(&subtitle(), None, "/tmp");
    let second = FfmpegRequest::thumbnail(&subtitle(), Some(image(".avif", 30, false)), "/tmp/");
    assert!(first.output_path().starts_with("/tmp/thumb_"));
    assert!(first.output_path().ends_with(".jpg"));
    assert!(second.output_path().starts_with("/tmp/thumb_"));
    assert!(second.output_path().ends_with(".avif"));
    assert_ne!(
        first.output_path().trim_end_matches(".jpg"),
        second.output_path().trim_end_matches(".avif")
    );
    assert_eq!(first.args().last().map(|s| s.as_str()), Some(first.output_path()));
    let range = FfmpegRequest::audio_range(
        Seconds::from_millis(0),
        Seconds::from_millis(1),
        "a",
        1,
        None,
        None,
        Some(audio("opus", 64)),
        "",
    );
    assert!(range.output_path().starts_with("audio_"));
    assert!(range.output_path().ends_with(".opus"));
}

#[test]
fn temp_paths_hold_a_uuid() {
    let path = temp_path("thumb", "jpg", "/var/tmp");
    let name = path.strip_prefix("/var/tmp/thumb_").unwrap().strip_suffix(".jpg").unwrap();
    assert!(uuid::Uuid::parse_str(name).is_ok());
    assert_eq!(name.len(), 36);
    assert_ne!(path, temp_path("thumb", "jpg", "/var/tmp"));
}

#[test]
fn payload_is_base64_of_a_good_run() {
    assert_eq!(
        FfmpegRequest::payload(true, Some(b"hello".to_vec())),
        Some("aGVsbG8=".to_string())
    );
    assert_eq!(
        FfmpegRequest::payload(true, Some(vec![0xff, 0xfe, 0xfd])),
        Some("//79".to_string())
    );
    assert_eq!(FfmpegRequest::payload(true, Some(vec![0])), Some("AA==".to_string()));
}

#[test]
fn payload_is_none_for_a_bad_run() {
    assert_eq!(FfmpegRequest::payload(false, Some(b"hello".to_vec())), None);
    assert_eq!(FfmpegRequest::payload(true, Some(Vec::new())), None);
    assert_eq!(FfmpegRequest::payload(true, None), None);
    assert_eq!(FfmpegRequest::payload(false, None), None);
}

#[test]
fn ffmpeg_path_is_trimmed_or_default() {
    assert_eq!(init_ffmpeg_path("  /opt/bin/ffmpeg \n", None), "/opt/bin/ffmpeg");
    assert_eq!(init_ffmpeg_path("", None), "ffmpeg");
    assert_eq!(init_ffmpeg_path("   ", None), "ffmpeg");
    assert_eq!(init_ffmpeg_path("   ", Some("/usr/bin/ffmpeg")), "ffmpeg");
    assert_eq!(init_ffmpeg_path("ffmpeg", None), "ffmpeg");
    assert_eq!(init_ffmpeg_path(" ffmpeg ", Some("/usr/local/bin/ffmpeg")), "/usr/local/bin/ffmpeg");
    assert_eq!(init_ffmpeg_path("ffmpeg6", Some("/usr/local/bin/ffmpeg")), "ffmpeg6");
}

#[test]
fn ffmpeg_defaults_to_its_bare_name() {
    assert_eq!(ffmpeg(None), "ffmpeg");
    assert_eq!(ffmpeg(Some("/opt/bin/ffmpeg")), "/opt/bin/ffmpeg");
    assert_eq!(
        well_known_ffmpeg_locations(),
        ["/opt/homebrew/bin/ffmpeg", "/usr/local/bin/ffmpeg", "/usr/bin/ffmpeg"]
    );
}
