//! Clip requests for the encoder: what to run for a thumbnail or an audio
//! snippet, and what becomes of its output.
//!
//! Times are computed in whole milliseconds and written with three
//! decimals. Running the encoder is the caller's business.

use crate::seconds::{fixed_decimal, fixed_decimal_text, Seconds};
use crate::subtitle::{seconds_view, text_view, Subtitle, SubtitleView};
use crate::text::{
    blank, is_blank, push_all, push_signed_decimal, push_string, push_text, same_text,
    signed_decimal, split_words, strip_leading, texts, trim, trimmed, without_leading, words,
};
use vstd::prelude::*;
use vstd::string::*;

verus! {

/// The padding, in milliseconds, that an audio clip gets before and after
/// the line where the request names none.
pub const DEFAULT_AUDIO_OFFSET: i64 = 250;

/// The kinds of clip that a request for one subtitle can ask for.
#[derive(Clone, Copy, Debug, PartialEq, Eq, Structural)]
pub enum MediaType {
    Thumbnail,
    Audio,
}

impl MediaType {
    /// The kind that `name` names: `thumbnail` or `audio`.
    pub open spec fn named(name: Seq<char>) -> Option<MediaType> {
        if name == "thumbnail"@ {
            Some(MediaType::Thumbnail)
        } else if name == "audio"@ {
            Some(MediaType::Audio)
        } else {
            None
        }
    }

    /// The name of the kind, as requests and replies write it.
    pub open spec fn name_of(self) -> Seq<char> {
        match self {
            MediaType::Thumbnail => "thumbnail"@,
            MediaType::Audio => "audio"@,
        }
    }

    /// The kind that `name` names, if it names one.
    pub fn from_str(name: &str) -> (kind: Option<MediaType>)
        ensures
            kind == MediaType::named(name@),
    {
        if same_text(name, "thumbnail") {
            Some(MediaType::Thumbnail)
        } else if same_text(name, "audio") {
            Some(MediaType::Audio)
        } else {
            None
        }
    }

    /// The name of the kind.
    pub fn name(&self) -> (name: &'static str)
        ensures
            name@ == self.name_of(),
    {
        match self {
            MediaType::Thumbnail => "thumbnail",
            MediaType::Audio => "audio",
        }
    }
}

/// `value` brought into the range from `low` to `high`.
pub open spec fn clamped(value: int, low: int, high: int) -> int {
    if value < low {
        low
    } else if value > high {
        high
    } else {
        value
    }
}

/// `value` brought into the range from `low` to `high`, written out.
fn clamped_text(value: i32, low: i32, high: i32) -> (text: String)
    requires
        low <= high,
    ensures
        text@ == signed_decimal(clamped(value as int, low as int, high as int)),
{
    let bounded = if value < low {
        low
    } else if value > high {
        high
    } else {
        value
    };
    let mut text = String::new();
    push_signed_decimal(&mut text, bounded as i64);
    assert(text@ =~= signed_decimal(bounded as int));
    text
}

/// The point halfway between `a` and `b`, rounded towards zero.
pub open spec fn midpoint(a: int, b: int) -> int {
    if a + b >= 0 {
        (a + b) / 2
    } else {
        -((-(a + b)) / 2)
    }
}

/// How thumbnails are encoded.
#[derive(Clone, Debug)]
pub struct ImageConfig {
    pub format: String,
    pub quality: i32,
    pub is_animated: bool,
    pub size: Option<String>,
    pub advanced_args: Option<String>,
}

/// What an [`ImageConfig`] holds.
pub struct ImageConfigView {
    pub format: Seq<char>,
    pub quality: i32,
    pub is_animated: bool,
    pub size: Option<Seq<char>>,
    pub advanced_args: Option<Seq<char>>,
}

impl View for ImageConfig {
    type V = ImageConfigView;

    open spec fn view(&self) -> ImageConfigView {
        ImageConfigView {
            format: self.format@,
            quality: self.quality,
            is_animated: self.is_animated,
            size: text_view(self.size),
            advanced_args: text_view(self.advanced_args),
        }
    }
}

impl ImageConfigView {
    /// A still JPEG of quality 5 in the source's size.
    pub open spec fn standard() -> ImageConfigView {
        ImageConfigView {
            format: "jpeg"@,
            quality: 5,
            is_animated: false,
            size: None,
            advanced_args: None,
        }
    }

    /// The file extension: the format without leading dots, where `jpeg`
    /// and the empty format give `jpg` and the animated variants give the
    /// extension of their still format.
    pub open spec fn extension(self) -> Seq<char> {
        let name = strip_leading(self.format, '.');
        if name.len() == 0 || name == "jpeg"@ || name == "jpg"@ {
            "jpg"@
        } else if name == "avif"@ || name == "avif_animated"@ {
            "avif"@
        } else if name == "webp"@ || name == "webp_animated"@ {
            "webp"@
        } else {
            name
        }
    }

    /// How much is encoded: `duration` milliseconds of an animation, or
    /// one frame.
    pub open spec fn length_args(self, duration: int) -> Seq<Seq<char>> {
        if self.is_animated {
            seq!["-t"@, fixed_decimal(duration)]
        } else {
            seq!["-vframes"@, "1"@]
        }
    }

    /// The scaling filter, where a size is set and not blank.
    pub open spec fn scale_args(self) -> Seq<Seq<char>> {
        match self.size {
            Some(size) => if is_blank(size) {
                Seq::empty()
            } else {
                seq!["-vf"@, "scale="@ + size]
            },
            None => Seq::empty(),
        }
    }

    /// The codec and its quality, by format; any format but JPEG and AVIF
    /// is encoded as WebP.
    pub open spec fn codec_args(self) -> Seq<Seq<char>> {
        if self.format == "jpeg"@ || self.format == "jpg"@ {
            seq!["-c:v"@, "mjpeg"@, "-q:v"@, signed_decimal(clamped(self.quality as int, 1, 31))]
        } else if self.format == "avif"@ {
            seq![
                "-c:v"@,
                "libaom-av1"@,
                "-crf"@,
                signed_decimal(clamped(self.quality as int, 0, 63)),
                "-cpu-used"@,
                "8"@,
                "-pix_fmt"@,
                "yuv420p"@,
            ] + if self.is_animated {
                Seq::<Seq<char>>::empty()
            } else {
                seq!["-still-picture"@, "1"@]
            }
        } else {
            seq!["-c:v"@, "libwebp"@, "-quality"@, signed_decimal(clamped(self.quality as int, 0, 100))]
                + if self.is_animated {
                seq!["-loop"@, "0"@]
            } else {
                Seq::<Seq<char>>::empty()
            }
        }
    }

    /// The encoder arguments for a line that is shown for `duration`
    /// milliseconds. Advanced arguments, where set, take the place of
    /// scaling and codec.
    pub open spec fn args(self, duration: int) -> Seq<Seq<char>> {
        match self.advanced_args {
            Some(advanced) => self.length_args(duration) + words(advanced),
            None => self.length_args(duration) + self.scale_args() + self.codec_args(),
        }
    }
}

impl Default for ImageConfig {
    fn default() -> (config: ImageConfig)
        ensures
            config@ == ImageConfigView::standard(),
    {
        ImageConfig {
            format: String::from_str("jpeg"),
            quality: 5,
            is_animated: false,
            size: None,
            advanced_args: None,
        }
    }
}

impl ImageConfig {
    /// The extension of the files that this configuration makes.
    pub fn get_extension(&self) -> (extension: &str)
        ensures
            extension@ == self@.extension(),
    {
        let name = without_leading(self.format.as_str(), '.');
        if name.is_empty() || same_text(name, "jpeg") || same_text(name, "jpg") {
            "jpg"
        } else if same_text(name, "avif") || same_text(name, "avif_animated") {
            "avif"
        } else if same_text(name, "webp") || same_text(name, "webp_animated") {
            "webp"
        } else {
            name
        }
    }

    /// Appends how much is encoded.
    fn push_length_args(&self, args: &mut Vec<String>, duration: i64)
        ensures
            texts(final(args)@) == texts(old(args)@) + self@.length_args(duration as int),
    {
        if self.is_animated {
            push_text(args, "-t");
            push_string(args, fixed_decimal_text(duration));
        } else {
            push_text(args, "-vframes");
            push_text(args, "1");
        }
        assert(texts(args@) =~= texts(old(args)@) + self@.length_args(duration as int));
    }

    /// Appends the scaling filter, where one is called for.
    fn push_scale_args(&self, args: &mut Vec<String>)
        ensures
            texts(final(args)@) == texts(old(args)@) + self@.scale_args(),
    {
        if let Some(size) = &self.size {
            if !blank(size.as_str()) {
                push_text(args, "-vf");
                let mut scale = String::from_str("scale=");
                scale.append(size.as_str());
                push_string(args, scale);
            }
        }
        assert(texts(args@) =~= texts(old(args)@) + self@.scale_args());
    }

    /// Appends the codec and its quality.
    fn push_codec_args(&self, args: &mut Vec<String>)
        ensures
            texts(final(args)@) == texts(old(args)@) + self@.codec_args(),
    {
        let format = self.format.as_str();
        if same_text(format, "jpeg") || same_text(format, "jpg") {
            push_text(args, "-c:v");
            push_text(args, "mjpeg");
            push_text(args, "-q:v");
            push_string(args, clamped_text(self.quality, 1, 31));
            assert(texts(args@) =~= texts(old(args)@) + self@.codec_args());
        } else if same_text(format, "avif") {
            push_text(args, "-c:v");
            push_text(args, "libaom-av1");
            push_text(args, "-crf");
            push_string(args, clamped_text(self.quality, 0, 63));
            push_text(args, "-cpu-used");
            push_text(args, "8");
            push_text(args, "-pix_fmt");
            push_text(args, "yuv420p");
            if !self.is_animated {
                push_text(args, "-still-picture");
                push_text(args, "1");
            }
            assert(texts(args@) =~= texts(old(args)@) + self@.codec_args());
        } else {
            push_text(args, "-c:v");
            push_text(args, "libwebp");
            push_text(args, "-quality");
            push_string(args, clamped_text(self.quality, 0, 100));
            if self.is_animated {
                push_text(args, "-loop");
                push_text(args, "0");
            }
            assert(texts(args@) =~= texts(old(args)@) + self@.codec_args());
        }
    }

    /// Appends the encoder arguments for a thumbnail of `sub` to `args`.
    pub fn apply_to_args(&self, args: &mut Vec<String>, sub: &Subtitle)
        ensures
            texts(final(args)@) == texts(old(args)@) + self@.args(
                sub@.sub_end - sub@.sub_start,
            ),
    {
        self.push_length_args(args, sub.sub_end.millis() - sub.sub_start.millis());
        if let Some(advanced) = &self.advanced_args {
            push_all(args, split_words(advanced.as_str()));
        } else {
            self.push_scale_args(args);
            self.push_codec_args(args);
        }
        assert(texts(args@) =~= texts(old(args)@) + self@.args(sub@.sub_end - sub@.sub_start));
    }
}

/// How audio clips are encoded.
#[derive(Clone, Debug)]
pub struct AudioConfig {
    pub format: String,
    pub quality: i32,
    pub filters: Option<String>,
    pub advanced_args: Option<String>,
}

/// What an [`AudioConfig`] holds.
pub struct AudioConfigView {
    pub format: Seq<char>,
    pub quality: i32,
    pub filters: Option<Seq<char>>,
    pub advanced_args: Option<Seq<char>>,
}

impl View for AudioConfig {
    type V = AudioConfigView;

    open spec fn view(&self) -> AudioConfigView {
        AudioConfigView {
            format: self.format@,
            quality: self.quality,
            filters: text_view(self.filters),
            advanced_args: text_view(self.advanced_args),
        }
    }
}

/// The filter that every audio clip starts with: a short fade-in.
pub open spec fn fade_in() -> Seq<char> {
    "afade=t=in:d=0.005"@
}

impl AudioConfigView {
    /// MP3 at 128 kbit/s with no filters of the user's.
    pub open spec fn standard() -> AudioConfigView {
        AudioConfigView { format: "mp3"@, quality: 128, filters: None, advanced_args: None }
    }

    /// The file extension: the format without leading dots, `mp3` where
    /// nothing is left.
    pub open spec fn extension(self) -> Seq<char> {
        let name = strip_leading(self.format, '.');
        if name.len() == 0 {
            "mp3"@
        } else {
            name
        }
    }

    /// The codec and its bit rate; any format but MP3 is encoded as Opus.
    pub open spec fn codec_args(self) -> Seq<Seq<char>> {
        if self.format == "mp3"@ {
            seq![
                "-c:a"@,
                "libmp3lame"@,
                "-b:a"@,
                signed_decimal(clamped(self.quality as int, 8, 320)) + "k"@,
            ]
        } else {
            seq![
                "-c:a"@,
                "libopus"@,
                "-b:a"@,
                signed_decimal(clamped(self.quality as int, 8, 512)) + "k"@,
            ]
        }
    }

    /// The filter chain: the fade-in, then the user's filters where they
    /// are set and not blank.
    pub open spec fn filter_chain(self) -> Seq<char> {
        match self.filters {
            Some(filters) => if is_blank(filters) {
                fade_in()
            } else {
                fade_in() + ","@ + filters
            },
            None => fade_in(),
        }
    }

    /// The encoder arguments. Advanced arguments, where set, take the
    /// place of everything else.
    pub open spec fn args(self) -> Seq<Seq<char>> {
        match self.advanced_args {
            Some(advanced) => words(advanced),
            None => self.codec_args() + seq!["-af"@, self.filter_chain()],
        }
    }
}

impl Default for AudioConfig {
    fn default() -> (config: AudioConfig)
        ensures
            config@ == AudioConfigView::standard(),
    {
        AudioConfig {
            format: String::from_str("mp3"),
            quality: 128,
            filters: None,
            advanced_args: None,
        }
    }
}

impl AudioConfig {
    /// The extension of the files that this configuration makes.
    pub fn get_extension(&self) -> (extension: &str)
        ensures
            extension@ == self@.extension(),
    {
        let name = without_leading(self.format.as_str(), '.');
        if name.is_empty() {
            "mp3"
        } else {
            name
        }
    }

    /// Appends the encoder arguments for an audio clip to `args`.
    pub fn apply_to_args(&self, args: &mut Vec<String>)
        ensures
            texts(final(args)@) == texts(old(args)@) + self@.args(),
    {
        let ghost before = texts(args@);
        if let Some(advanced) = &self.advanced_args {
            push_all(args, split_words(advanced.as_str()));
            return ;
        }
        push_text(args, "-c:a");
        let mut rate = if same_text(self.format.as_str(), "mp3") {
            push_text(args, "libmp3lame");
            clamped_text(self.quality, 8, 320)
        } else {
            push_text(args, "libopus");
            clamped_text(self.quality, 8, 512)
        };
        rate.append("k");
        push_text(args, "-b:a");
        push_string(args, rate);
        assert(texts(args@) =~= before + self@.codec_args());
        let mut chain = String::from_str("afade=t=in:d=0.005");
        if let Some(filters) = &self.filters {
            if !blank(filters.as_str()) {
                chain.append(",");
                chain.append(filters.as_str());
            }
        }
        assert(chain@ =~= self@.filter_chain());
        push_text(args, "-af");
        push_string(args, chain);
        assert(texts(args@) =~= before + self@.args());
    }
}

/// The configuration that a request uses: the given one, or the standard
/// one where none is given.
pub open spec fn image_config_or_standard(config: Option<ImageConfig>) -> ImageConfigView {
    match config {
        Some(c) => c@,
        None => ImageConfigView::standard(),
    }
}

/// The configuration that a request uses: the given one, or the standard
/// one where none is given.
pub open spec fn audio_config_or_standard(config: Option<AudioConfig>) -> AudioConfigView {
    match config {
        Some(c) => c@,
        None => AudioConfigView::standard(),
    }
}

/// The path of the file `name` in the directory `dir`.
pub open spec fn in_directory(dir: Seq<char>, name: Seq<char>) -> Seq<char> {
    if dir.len() == 0 {
        name
    } else if dir.last() == '/' {
        dir + name
    } else {
        dir + "/"@ + name
    }
}

/// The path of a temporary file: `prefix`, an underscore, a token that
/// tells the file from every other, a dot and the extension, in `dir`.
pub open spec fn temp_file(
    dir: Seq<char>,
    prefix: Seq<char>,
    token: Seq<char>,
    extension: Seq<char>,
) -> Seq<char> {
    in_directory(dir, prefix + "_"@ + token + "."@ + extension)
}

/// Where a clip starts: `padding` before the line, but not before the
/// start of the file.
pub open spec fn clip_start(sub_start: int, padding: int) -> int {
    if sub_start - padding < 0 {
        0
    } else {
        sub_start - padding
    }
}

/// How long a clip is: from the start of the first line to the end of the
/// last, with the padding before and after.
pub open spec fn clip_duration(
    sub_start: int,
    sub_end: int,
    padding_before: int,
    padding_after: int,
) -> int {
    sub_end - sub_start + padding_before + padding_after
}

/// The padding that a request asks for, or the default where it names
/// none.
pub open spec fn padding_or_default(offset: Option<int>) -> int {
    match offset {
        Some(padding) => padding,
        None => DEFAULT_AUDIO_OFFSET as int,
    }
}

/// The audio stream that the encoder takes for the track `aid`: tracks
/// count from one, streams from zero.
pub open spec fn audio_stream(aid: i64) -> int {
    if aid >= 1 {
        aid - 1
    } else {
        0
    }
}

/// What a clip request holds: the file that the encoder writes and the
/// arguments that it is run with.
pub struct FfmpegRequestView {
    pub output_path: Seq<char>,
    pub args: Seq<Seq<char>>,
}

/// The request for a thumbnail of `sub`, written to `output`: a frame
/// from the middle of the line, or an animation from its start.
pub open spec fn thumbnail_request(
    sub: SubtitleView,
    config: ImageConfigView,
    output: Seq<char>,
) -> FfmpegRequestView {
    let seek = if config.is_animated {
        sub.sub_start
    } else {
        midpoint(sub.sub_start, sub.sub_end)
    };
    FfmpegRequestView {
        output_path: output,
        args: seq!["-ss"@, fixed_decimal(seek), "-i"@, sub.media_path] + config.args(
            sub.sub_end - sub.sub_start,
        ) + seq!["-y"@, output],
    }
}

/// The request for the audio from `sub_start` to `sub_end` of the track
/// `aid` of `media_path`, with padding, written to `output`.
pub open spec fn audio_range_request(
    sub_start: int,
    sub_end: int,
    media_path: Seq<char>,
    aid: i64,
    offset_start: Option<int>,
    offset_end: Option<int>,
    config: AudioConfigView,
    output: Seq<char>,
) -> FfmpegRequestView {
    let before = padding_or_default(offset_start);
    let after = padding_or_default(offset_end);
    FfmpegRequestView {
        output_path: output,
        args: seq![
            "-ss"@,
            fixed_decimal(clip_start(sub_start, before)),
            "-i"@,
            media_path,
            "-t"@,
            fixed_decimal(clip_duration(sub_start, sub_end, before, after)),
            "-map"@,
            "0:a:"@ + signed_decimal(audio_stream(aid)),
            "-vn"@,
        ] + config.args() + seq!["-y"@, output],
    }
}

/// What `base64`'s `STANDARD` engine encodes `data` to: base64 in the
/// standard alphabet, with padding.
pub uninterp spec fn base64_standard(data: Seq<u8>) -> Seq<char>;

/// Whether `length` bytes can be encoded: the encoded length must fit in
/// `usize`.
pub open spec fn encodable(length: nat) -> bool {
    length / 3 <= (usize::MAX - 4) / 4
}

/// What a finished encoder run hands to the client: the output in
/// base64, where the run succeeded and left a file that is not empty.
pub open spec fn clip_payload(succeeded: bool, output: Option<Seq<u8>>) -> Option<Seq<char>> {
    match output {
        Some(data) => if succeeded && data.len() > 0 && encodable(data.len()) {
            Some(base64_standard(data))
        } else {
            None
        },
        None => None,
    }
}

/// The encoder program for the configured `path`: the path without white
/// space around it, or `ffmpeg` where nothing is left. For the bare name
/// `ffmpeg`, a well-known location that was found takes its place.
pub open spec fn resolved_ffmpeg(path: Seq<char>, found: Option<Seq<char>>) -> Seq<char> {
    let name = trimmed(path);
    if name.len() == 0 {
        "ffmpeg"@
    } else if name == "ffmpeg"@ && found is Some {
        found->0
    } else {
        name
    }
}

/// Calls `Engine::encode` on `base64`'s `STANDARD` engine. The call
/// panics where the encoded length does not fit in `usize`, which the
/// precondition rules out.
#[verifier::external_body]
fn encode_base64(data: &Vec<u8>) -> (text: String)
    requires
        encodable(data@.len()),
    ensures
        text@ == base64_standard(data@),
{
    base64::Engine::encode(&base64::engine::general_purpose::STANDARD, data)
}

/// Calls `Uuid::new_v4` and writes the id out. The id is random, so
/// nothing is claimed of the result.
#[verifier::external_body]
fn fresh_token() -> (token: String) {
    uuid::Uuid::new_v4().to_string()
}

/// A clip request: the arguments for one run of the encoder and the file
/// that the run writes.
#[derive(Clone, Debug)]
pub struct FfmpegRequest {
    output_path: String,
    args: Vec<String>,
}

impl View for FfmpegRequest {
    type V = FfmpegRequestView;

    closed spec fn view(&self) -> FfmpegRequestView {
        FfmpegRequestView { output_path: self.output_path@, args: texts(self.args@) }
    }
}

/// The path of `name` in the directory `dir`.
fn path_in(dir: &str, name: &str) -> (path: String)
    ensures
        path@ == in_directory(dir@, name@),
{
    let chars = crate::text::characters(dir);
    let mut path = String::from_str(dir);
    if chars.len() > 0 && chars[chars.len() - 1] != '/' {
        path.append("/");
    }
    path.append(name);
    proof {
        reveal_strlit("/");
        assert(path@ =~= in_directory(dir@, name@));
    }
    path
}

/// The path of a new temporary file in `temp_dir`, named with `prefix`
/// and the extension `ext`.
pub fn temp_path(prefix: &str, ext: &str, temp_dir: &str) -> (path: String)
    ensures
        exists|token: Seq<char>| path@ == temp_file(temp_dir@, prefix@, token, ext@),
{
    let token = fresh_token();
    let mut name = String::from_str(prefix);
    name.append("_");
    name.append(token.as_str());
    name.append(".");
    name.append(ext);
    assert(name@ =~= prefix@ + "_"@ + token@ + "."@ + ext@);
    let path = path_in(temp_dir, name.as_str());
    assert(path@ == temp_file(temp_dir@, prefix@, token@, ext@));
    path
}

impl FfmpegRequest {
    /// The arguments that the encoder is run with.
    pub fn args(&self) -> (args: &Vec<String>)
        ensures
            texts(args@) == self@.args,
    {
        &self.args
    }

    /// The file that the encoder writes.
    pub fn output_path(&self) -> (path: &str)
        ensures
            path@ == self@.output_path,
    {
        self.output_path.as_str()
    }

    /// The request for a thumbnail of `sub`, written to `output_path`.
    pub fn thumbnail_at(sub: &Subtitle, config: Option<ImageConfig>, output_path: String) -> (request:
        FfmpegRequest)
        ensures
            request@ == thumbnail_request(sub@, image_config_or_standard(config), output_path@),
    {
        let config = match config {
            Some(config) => config,
            None => ImageConfig::default(),
        };
        let start = sub.sub_start.millis();
        let end = sub.sub_end.millis();
        let seek = if config.is_animated {
            start
        } else if start + end >= 0 {
            (start + end) / 2
        } else {
            -((-(start + end)) / 2)
        };
        let mut args: Vec<String> = Vec::new();
        push_text(&mut args, "-ss");
        push_string(&mut args, fixed_decimal_text(seek));
        push_text(&mut args, "-i");
        push_text(&mut args, sub.media_path.as_str());
        config.apply_to_args(&mut args, sub);
        push_text(&mut args, "-y");
        push_text(&mut args, output_path.as_str());
        assert(texts(args@) =~= thumbnail_request(sub@, config@, output_path@).args);
        FfmpegRequest { output_path, args }
    }

    /// The request for a thumbnail of `sub`, written to a new temporary
    /// file in `temp_dir`.
    pub fn thumbnail(sub: &Subtitle, config: Option<ImageConfig>, temp_dir: &str) -> (request:
        FfmpegRequest)
        ensures
            exists|token: Seq<char>|
                request@ == thumbnail_request(
                    sub@,
                    image_config_or_standard(config),
                    temp_file(
                        temp_dir@,
                        "thumb"@,
                        token,
                        image_config_or_standard(config).extension(),
                    ),
                ),
    {
        let output = match &config {
            Some(c) => temp_path("thumb", c.get_extension(), temp_dir),
            None => temp_path("thumb", ImageConfig::default().get_extension(), temp_dir),
        };
        FfmpegRequest::thumbnail_at(sub, config, output)
    }

    /// The request for the audio of one line, with padding, written to a
    /// new temporary file in `temp_dir`.
    pub fn audio(
        sub: &Subtitle,
        offset_start: Option<Seconds>,
        offset_end: Option<Seconds>,
        config: Option<AudioConfig>,
        temp_dir: &str,
    ) -> (request: FfmpegRequest)
        ensures
            exists|token: Seq<char>|
                request@ == audio_range_request(
                    sub@.sub_start,
                    sub@.sub_end,
                    sub@.media_path,
                    sub@.aid,
                    seconds_view(offset_start),
                    seconds_view(offset_end),
                    audio_config_or_standard(config),
                    temp_file(
                        temp_dir@,
                        "audio"@,
                        token,
                        audio_config_or_standard(config).extension(),
                    ),
                ),
    {
        FfmpegRequest::audio_range(
            sub.sub_start,
            sub.sub_end,
            sub.media_path.as_str(),
            sub.aid,
            offset_start,
            offset_end,
            config,
            temp_dir,
        )
    }

    /// The request for the audio from `sub_start` to `sub_end`, with
    /// padding, written to `output_path`.
    pub fn audio_range_at(
        sub_start: Seconds,
        sub_end: Seconds,
        media_path: &str,
        aid: i64,
        offset_start: Option<Seconds>,
        offset_end: Option<Seconds>,
        config: Option<AudioConfig>,
        output_path: String,
    ) -> (request: FfmpegRequest)
        ensures
            request@ == audio_range_request(
                sub_start@,
                sub_end@,
                media_path@,
                aid,
                seconds_view(offset_start),
                seconds_view(offset_end),
                audio_config_or_standard(config),
                output_path@,
            ),
    {
        let config = match config {
            Some(config) => config,
            None => AudioConfig::default(),
        };
        let before = match offset_start {
            Some(padding) => padding.millis(),
            None => DEFAULT_AUDIO_OFFSET,
        };
        let after = match offset_end {
            Some(padding) => padding.millis(),
            None => DEFAULT_AUDIO_OFFSET,
        };
        let start = if sub_start.millis() - before < 0 {
            0
        } else {
            sub_start.millis() - before
        };
        let duration = sub_end.millis() - sub_start.millis() + before + after;
        let stream = if aid >= 1 {
            aid - 1
        } else {
            0
        };
        let mut map = String::from_str("0:a:");
        push_signed_decimal(&mut map, stream);
        let mut args: Vec<String> = Vec::new();
        push_text(&mut args, "-ss");
        push_string(&mut args, fixed_decimal_text(start));
        push_text(&mut args, "-i");
        push_text(&mut args, media_path);
        push_text(&mut args, "-t");
        push_string(&mut args, fixed_decimal_text(duration));
        push_text(&mut args, "-map");
        push_string(&mut args, map);
        push_text(&mut args, "-vn");
        config.apply_to_args(&mut args);
        push_text(&mut args, "-y");
        push_text(&mut args, output_path.as_str());
        assert(texts(args@) =~= audio_range_request(
            sub_start@,
            sub_end@,
            media_path@,
            aid,
            seconds_view(offset_start),
            seconds_view(offset_end),
            config@,
            output_path@,
        ).args);
        FfmpegRequest { output_path, args }
    }

    /// The request for the audio from `sub_start` to `sub_end`, with
    /// padding, written to a new temporary file in `temp_dir`.
    pub fn audio_range(
        sub_start: Seconds,
        sub_end: Seconds,
        media_path: &str,
        aid: i64,
        offset_start: Option<Seconds>,
        offset_end: Option<Seconds>,
        config: Option<AudioConfig>,
        temp_dir: &str,
    ) -> (request: FfmpegRequest)
        ensures
            exists|token: Seq<char>|
                request@ == audio_range_request(
                    sub_start@,
                    sub_end@,
                    media_path@,
                    aid,
                    seconds_view(offset_start),
                    seconds_view(offset_end),
                    audio_config_or_standard(config),
                    temp_file(
                        temp_dir@,
                        "audio"@,
                        token,
                        audio_config_or_standard(config).extension(),
                    ),
                ),
    {
        let output = match &config {
            Some(c) => temp_path("audio", c.get_extension(), temp_dir),
            None => temp_path("audio", AudioConfig::default().get_extension(), temp_dir),
        };
        FfmpegRequest::audio_range_at(
            sub_start,
            sub_end,
            media_path,
            aid,
            offset_start,
            offset_end,
            config,
            output,
        )
    }

    /// What a finished run hands to the client. `succeeded` says whether
    /// the encoder ended well, `output` holds what it left in the output
    /// file, if the file could be read.
    pub fn payload(succeeded: bool, output: Option<Vec<u8>>) -> (data: Option<String>)
        ensures
            text_view(data) == clip_payload(
                succeeded,
                match output {
                    Some(bytes) => Some(bytes@),
                    None => None,
                },
            ),
    {
        match output {
            Some(bytes) => {
                if succeeded && bytes.len() > 0 && bytes.len() / 3 <= (usize::MAX - 4) / 4 {
                    Some(encode_base64(&bytes))
                } else {
                    None
                }
            },
            None => None,
        }
    }
}

/// The places where the encoder is looked for when only its bare name is
/// configured, in the order in which they are tried.
pub fn well_known_ffmpeg_locations() -> (locations: Vec<String>)
    ensures
        texts(locations@) == seq![
            "/opt/homebrew/bin/ffmpeg"@,
            "/usr/local/bin/ffmpeg"@,
            "/usr/bin/ffmpeg"@,
        ],
{
    let mut locations: Vec<String> = Vec::new();
    push_text(&mut locations, "/opt/homebrew/bin/ffmpeg");
    push_text(&mut locations, "/usr/local/bin/ffmpeg");
    push_text(&mut locations, "/usr/bin/ffmpeg");
    assert(texts(locations@) =~= seq![
        "/opt/homebrew/bin/ffmpeg"@,
        "/usr/local/bin/ffmpeg"@,
        "/usr/bin/ffmpeg"@,
    ]);
    locations
}

/// The encoder program that the process runs from now on, for the
/// configured `path`; the caller keeps it. `found` is the first
/// well-known location at which an encoder exists, where the caller has
/// looked for one.
pub fn init_ffmpeg_path(path: &str, found: Option<&str>) -> (program: String)
    ensures
        program@ == resolved_ffmpeg(
            path@,
            match found {
                Some(f) => Some(f@),
                None => None,
            },
        ),
{
    let name = trim(path);
    if name.is_empty() {
        return String::from_str("ffmpeg");
    }
    if same_text(name, "ffmpeg") {
        if let Some(location) = found {
            return String::from_str(location);
        }
    }
    String::from_str(name)
}

/// The encoder program to run: the one that was set up, or `ffmpeg`
/// where none was.
pub fn ffmpeg<'a>(configured: Option<&'a str>) -> (program: &'a str)
    ensures
        program@ == match configured {
            Some(p) => p@,
            None => "ffmpeg"@,
        },
{
    match configured {
        Some(program) => program,
        None => "ffmpeg",
    }
}

} // verus!
