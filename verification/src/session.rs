//! The client protocol: requests for clips, the replies to them, and the
//! subtitle messages that every client receives.

use crate::json::{
    as_double_bits, json_document, json_double_bits, json_member, json_quoted, member, parse, quote,
};
use crate::media::{
    audio_range_request, thumbnail_request, temp_file, temp_path, AudioConfigView, FfmpegRequest,
    FfmpegRequestView, ImageConfigView, MediaType,
};
use crate::player::{read_string_member, read_unsigned_member, string_member, unsigned_member};
use crate::seconds::{double_millis, short_decimal, Seconds};
use crate::store::SubtitleStore;
use crate::subtitle::{seconds_view, text_view, Subtitle, SubtitleView};
use crate::text::{decimal, push_decimal, same_text};
use vstd::prelude::*;
use vstd::string::*;

verus! {

/// How many published subtitles a client may leave unread. A client that
/// falls further behind loses the oldest of them, so that a slow client
/// never holds up the player or the other clients.
pub const BROADCAST_CAPACITY: usize = 64;

/// A client's request for a clip.
#[derive(Clone, Debug)]
pub enum ClientRequest {
    /// One audio clip from the start of one line to the end of another.
    AudioRange {
        start_id: u64,
        end_id: u64,
        offset_start: Option<Seconds>,
        offset_end: Option<Seconds>,
    },
    /// A thumbnail or an audio clip of one line. The offsets count for
    /// audio only.
    Single { kind: MediaType, id: u64, offset_start: Option<Seconds>, offset_end: Option<Seconds> },
}

/// What a [`ClientRequest`] holds.
pub enum ClientRequestView {
    AudioRange { start_id: u64, end_id: u64, offset_start: Option<int>, offset_end: Option<int> },
    Single { kind: MediaType, id: u64, offset_start: Option<int>, offset_end: Option<int> },
}

impl View for ClientRequest {
    type V = ClientRequestView;

    open spec fn view(&self) -> ClientRequestView {
        match *self {
            ClientRequest::AudioRange {
                start_id,
                end_id,
                offset_start,
                offset_end,
            } => ClientRequestView::AudioRange {
                start_id,
                end_id,
                offset_start: seconds_view(offset_start),
                offset_end: seconds_view(offset_end),
            },
            ClientRequest::Single {
                kind,
                id,
                offset_start,
                offset_end,
            } => ClientRequestView::Single {
                kind,
                id,
                offset_start: seconds_view(offset_start),
                offset_end: seconds_view(offset_end),
            },
        }
    }
}

/// What a reply answers: the request's kind and the ids that it named.
#[derive(Clone, Copy, Debug, PartialEq, Eq, Structural)]
pub enum ReplyTo {
    Single { kind: MediaType, id: u64 },
    Range { start_id: u64, end_id: u64 },
}

/// A clip to encode and the reply that its data goes into.
#[derive(Clone, Debug)]
pub struct ClipJob {
    pub request: FfmpegRequest,
    pub reply_to: ReplyTo,
}

/// What a [`ClipJob`] holds.
pub struct ClipJobView {
    pub request: FfmpegRequestView,
    pub reply_to: ReplyTo,
}

impl View for ClipJob {
    type V = ClipJobView;

    open spec fn view(&self) -> ClipJobView {
        ClipJobView { request: self.request@, reply_to: self.reply_to }
    }
}

/// The time in seconds under `key` in `document`, in milliseconds, if a
/// number stands there.
pub open spec fn seconds_member(document: serde_json::Value, key: Seq<char>) -> Option<int> {
    match json_member(document, key) {
        Some(inner) => match json_double_bits(inner) {
            Some(bits) => Some(double_millis(bits)),
            None => None,
        },
        None => None,
    }
}

/// The members of a client's message that the protocol looks at.
#[derive(Clone, Debug)]
pub struct RequestFields {
    /// `request`, where it is a string.
    pub request: Option<String>,
    /// `id`, where it is an unsigned integer.
    pub id: Option<u64>,
    /// `start_id`, where it is an unsigned integer.
    pub start_id: Option<u64>,
    /// `end_id`, where it is an unsigned integer.
    pub end_id: Option<u64>,
    /// `offset_start`, where it is a number.
    pub offset_start: Option<Seconds>,
    /// `offset_end`, where it is a number.
    pub offset_end: Option<Seconds>,
}

/// What a [`RequestFields`] holds.
pub struct RequestFieldsView {
    pub request: Option<Seq<char>>,
    pub id: Option<u64>,
    pub start_id: Option<u64>,
    pub end_id: Option<u64>,
    pub offset_start: Option<int>,
    pub offset_end: Option<int>,
}

impl View for RequestFields {
    type V = RequestFieldsView;

    open spec fn view(&self) -> RequestFieldsView {
        RequestFieldsView {
            request: text_view(self.request),
            id: self.id,
            start_id: self.start_id,
            end_id: self.end_id,
            offset_start: seconds_view(self.offset_start),
            offset_end: seconds_view(self.offset_end),
        }
    }
}

/// The members of `document` that the protocol looks at.
pub open spec fn request_fields_of(document: serde_json::Value) -> RequestFieldsView {
    RequestFieldsView {
        request: string_member(document, "request"@),
        id: unsigned_member(document, "id"@),
        start_id: unsigned_member(document, "start_id"@),
        end_id: unsigned_member(document, "end_id"@),
        offset_start: seconds_member(document, "offset_start"@),
        offset_end: seconds_member(document, "offset_end"@),
    }
}

/// The request kind that asks for a clip over several lines.
pub open spec fn range_request() -> Seq<char> {
    "audio_range"@
}

/// The request that a message with the members `fields` makes, if it
/// makes one. A request needs a kind. The range kind needs the ids of the
/// first and the last line; any other needs one id and a known kind. The
/// offsets are optional.
pub open spec fn requested(fields: RequestFieldsView) -> Option<ClientRequestView> {
    match fields.request {
        None => None,
        Some(name) => if name == range_request() {
            if fields.start_id is Some && fields.end_id is Some {
                Some(
                    ClientRequestView::AudioRange {
                        start_id: fields.start_id->0,
                        end_id: fields.end_id->0,
                        offset_start: fields.offset_start,
                        offset_end: fields.offset_end,
                    },
                )
            } else {
                None
            }
        } else {
            if fields.id is Some && MediaType::named(name) is Some {
                Some(
                    ClientRequestView::Single {
                        kind: MediaType::named(name)->0,
                        id: fields.id->0,
                        offset_start: fields.offset_start,
                        offset_end: fields.offset_end,
                    },
                )
            } else {
                None
            }
        },
    }
}

/// How a parsed request is read.
pub open spec fn request_of(document: serde_json::Value) -> Option<ClientRequestView> {
    requested(request_fields_of(document))
}

/// How a client's message is read: none where it is not JSON or not a
/// request.
pub open spec fn message_request(text: Seq<char>) -> Option<ClientRequestView> {
    match json_document(text) {
        Some(document) => request_of(document),
        None => None,
    }
}

/// The time under `key`.
fn read_seconds_member(document: &serde_json::Value, key: &str) -> (time: Option<Seconds>)
    ensures
        seconds_view(time) == seconds_member(*document, key@),
{
    match member(document, key) {
        Some(inner) => match as_double_bits(inner) {
            Some(bits) => Some(Seconds::from_double_bits(bits)),
            None => None,
        },
        None => None,
    }
}

/// Reads the members of `document` that the protocol looks at.
fn read_request_fields(document: &serde_json::Value) -> (fields: RequestFields)
    ensures
        fields@ == request_fields_of(*document),
{
    RequestFields {
        request: read_string_member(document, "request"),
        id: read_unsigned_member(document, "id"),
        start_id: read_unsigned_member(document, "start_id"),
        end_id: read_unsigned_member(document, "end_id"),
        offset_start: read_seconds_member(document, "offset_start"),
        offset_end: read_seconds_member(document, "offset_end"),
    }
}

/// The request that a message with the members `fields` makes, if it
/// makes one.
pub fn classify_request(fields: RequestFields) -> (request: Option<ClientRequest>)
    ensures
        match request {
            Some(r) => requested(fields@) == Some(r@),
            None => requested(fields@).is_none(),
        },
{
    let name = match &fields.request {
        Some(name) => name,
        None => {
            return None;
        },
    };
    if same_text(name.as_str(), "audio_range") {
        match (fields.start_id, fields.end_id) {
            (Some(start_id), Some(end_id)) => Some(
                ClientRequest::AudioRange {
                    start_id,
                    end_id,
                    offset_start: fields.offset_start,
                    offset_end: fields.offset_end,
                },
            ),
            _ => None,
        }
    } else {
        match (fields.id, MediaType::from_str(name.as_str())) {
            (Some(id), Some(kind)) => Some(
                ClientRequest::Single {
                    kind,
                    id,
                    offset_start: fields.offset_start,
                    offset_end: fields.offset_end,
                },
            ),
            _ => None,
        }
    }
}

/// Reads a client's message. A message that is no request gives none: it
/// is passed over without a reply.
pub fn decode_request(text: &str) -> (request: Option<ClientRequest>)
    ensures
        match request {
            Some(r) => message_request(text@) == Some(r@),
            None => message_request(text@).is_none(),
        },
{
    match parse(text) {
        Some(document) => classify_request(read_request_fields(&document)),
        None => None,
    }
}

/// Whether the store holds every subtitle that `request` names.
pub open spec fn answerable(request: ClientRequestView, store: Map<u64, SubtitleView>) -> bool {
    match request {
        ClientRequestView::AudioRange { start_id, end_id, .. } => store.contains_key(start_id)
            && store.contains_key(end_id),
        ClientRequestView::Single { id, .. } => store.contains_key(id),
    }
}

/// The start of the name of the file that a clip is written to.
pub open spec fn output_prefix(request: ClientRequestView) -> Seq<char> {
    match request {
        ClientRequestView::Single { kind: MediaType::Thumbnail, .. } => "thumb"@,
        _ => "audio"@,
    }
}

/// The extension of the file that a clip is written to.
pub open spec fn output_extension(request: ClientRequestView) -> Seq<char> {
    match request {
        ClientRequestView::Single {
            kind: MediaType::Thumbnail,
            ..
        } => ImageConfigView::standard().extension(),
        _ => AudioConfigView::standard().extension(),
    }
}

/// The job that answers `request` from `store`, with the clip written to
/// `output`. A range clip runs from the start of the first line to the end
/// of the last and takes file and audio track from the first.
pub open spec fn job_at(
    request: ClientRequestView,
    store: Map<u64, SubtitleView>,
    output: Seq<char>,
) -> ClipJobView {
    match request {
        ClientRequestView::AudioRange {
            start_id,
            end_id,
            offset_start,
            offset_end,
        } => ClipJobView {
            request: audio_range_request(
                store[start_id].sub_start,
                store[end_id].sub_end,
                store[start_id].media_path,
                store[start_id].aid,
                offset_start,
                offset_end,
                AudioConfigView::standard(),
                output,
            ),
            reply_to: ReplyTo::Range { start_id, end_id },
        },
        ClientRequestView::Single { kind, id, offset_start, offset_end } => ClipJobView {
            request: match kind {
                MediaType::Thumbnail => thumbnail_request(
                    store[id],
                    ImageConfigView::standard(),
                    output,
                ),
                MediaType::Audio => audio_range_request(
                    store[id].sub_start,
                    store[id].sub_end,
                    store[id].media_path,
                    store[id].aid,
                    offset_start,
                    offset_end,
                    AudioConfigView::standard(),
                    output,
                ),
            },
            reply_to: ReplyTo::Single { kind, id },
        },
    }
}

/// Whether `job` answers `request` from `store` with a clip written to a
/// temporary file in `temp_dir`.
pub open spec fn job_for(
    request: ClientRequestView,
    store: Map<u64, SubtitleView>,
    temp_dir: Seq<char>,
    job: ClipJobView,
) -> bool {
    exists|token: Seq<char>|
        job == job_at(
            request,
            store,
            temp_file(temp_dir, output_prefix(request), token, output_extension(request)),
        )
}

/// The job that answers `request`, with the clip written to
/// `output_path`; none where the store lacks a subtitle that the request
/// names.
pub fn plan_clip_at(request: &ClientRequest, store: &SubtitleStore, output_path: String) -> (job:
    Option<ClipJob>)
    ensures
        match job {
            Some(j) => answerable(request@, store@) && j@ == job_at(
                request@,
                store@,
                output_path@,
            ),
            None => !answerable(request@, store@),
        },
{
    match request {
        ClientRequest::AudioRange { start_id, end_id, offset_start, offset_end } => {
            let start = match store.get(*start_id) {
                Some(start) => start,
                None => {
                    return None;
                },
            };
            let end = match store.get(*end_id) {
                Some(end) => end,
                None => {
                    return None;
                },
            };
            Some(
                ClipJob {
                    request: FfmpegRequest::audio_range_at(
                        start.sub_start,
                        end.sub_end,
                        start.media_path.as_str(),
                        start.aid,
                        *offset_start,
                        *offset_end,
                        None,
                        output_path,
                    ),
                    reply_to: ReplyTo::Range { start_id: *start_id, end_id: *end_id },
                },
            )
        },
        ClientRequest::Single { kind, id, offset_start, offset_end } => {
            let sub = match store.get(*id) {
                Some(sub) => sub,
                None => {
                    return None;
                },
            };
            let request = match kind {
                MediaType::Thumbnail => FfmpegRequest::thumbnail_at(sub, None, output_path),
                MediaType::Audio => FfmpegRequest::audio_range_at(
                    sub.sub_start,
                    sub.sub_end,
                    sub.media_path.as_str(),
                    sub.aid,
                    *offset_start,
                    *offset_end,
                    None,
                    output_path,
                ),
            };
            Some(ClipJob { request, reply_to: ReplyTo::Single { kind: *kind, id: *id } })
        },
    }
}

/// The job that answers `request`, with the clip written to a new
/// temporary file in `temp_dir`; none where the store lacks a subtitle
/// that the request names.
pub fn plan_clip(request: &ClientRequest, store: &SubtitleStore, temp_dir: &str) -> (job: Option<
    ClipJob,
>)
    ensures
        match job {
            Some(j) => answerable(request@, store@) && job_for(request@, store@, temp_dir@, j@),
            None => !answerable(request@, store@),
        },
{
    let known = match request {
        ClientRequest::AudioRange { start_id, end_id, .. } => store.get(*start_id).is_some()
            && store.get(*end_id).is_some(),
        ClientRequest::Single { id, .. } => store.get(*id).is_some(),
    };
    if !known {
        return None;
    }
    let output = match request {
        ClientRequest::Single { kind: MediaType::Thumbnail, .. } => temp_path(
            "thumb",
            "jpg",
            temp_dir,
        ),
        _ => temp_path("audio", "mp3", temp_dir),
    };
    proof {
        lemma_standard_extensions();
    }
    plan_clip_at(request, store, output)
}

/// The standard configurations write `jpg` and `mp3` files.
pub proof fn lemma_standard_extensions()
    ensures
        ImageConfigView::standard().extension() == "jpg"@,
        AudioConfigView::standard().extension() == "mp3"@,
{
    reveal_strlit("jpeg");
    reveal_strlit("mp3");
    reveal_strlit("jpg");
    let jpeg = "jpeg"@;
    let mp3 = "mp3"@;
    assert(jpeg[0] == 'j');
    assert(mp3[0] == 'm');
    assert(crate::text::strip_leading(jpeg, '.') == jpeg);
    assert(crate::text::strip_leading(mp3, '.') == mp3);
}

/// Answers a client's message: the clip to encode, or none where the
/// message is no request or names a subtitle that the store lacks. A
/// message that gets none gets no reply at all.
pub fn handle_request(text: &str, store: &SubtitleStore, temp_dir: &str) -> (job: Option<ClipJob>)
    ensures
        match job {
            Some(j) => message_request(text@) matches Some(request) && answerable(request, store@)
                && job_for(request, store@, temp_dir@, j@),
            None => !(message_request(text@) matches Some(request) && answerable(
                request,
                store@,
            )),
        },
{
    match decode_request(text) {
        Some(request) => plan_clip(&request, store, temp_dir),
        None => None,
    }
}

/// The `data` member of a reply: the clip as a JSON string, or `null`
/// where there is none.
pub open spec fn data_json(data: Option<Seq<char>>) -> Seq<char> {
    match data {
        Some(clip) => json_quoted(clip),
        None => "null"@,
    }
}

/// The reply to a request, as one JSON object with its members in
/// alphabetical order.
pub open spec fn reply_line(reply_to: ReplyTo, data: Option<Seq<char>>) -> Seq<char> {
    match reply_to {
        ReplyTo::Single { kind, id } => "{\"data\":"@ + data_json(data) + ",\"id\":"@ + decimal(
            id as nat,
        ) + ",\"type\":\""@ + kind.name_of() + "\"}"@,
        ReplyTo::Range { start_id, end_id } => "{\"data\":"@ + data_json(data) + ",\"end_id\":"@
            + decimal(end_id as nat) + ",\"start_id\":"@ + decimal(start_id as nat)
            + ",\"type\":\"audio_range\"}"@,
    }
}

/// The message that tells a client of a subtitle, as one JSON object with
/// its members in alphabetical order.
pub open spec fn subtitle_line(subtitle: SubtitleView) -> Seq<char> {
    "{\"id\":"@ + decimal(subtitle.id as nat) + ",\"sub_end\":"@ + short_decimal(subtitle.sub_end)
        + ",\"sub_start\":"@ + short_decimal(subtitle.sub_start) + ",\"subtitle\":"@ + json_quoted(
        subtitle.text,
    ) + ",\"type\":\"subtitle\"}"@
}

/// The reply to a request: `data` is the clip in base64, or none where
/// encoding failed.
pub fn encode_reply(reply_to: ReplyTo, data: Option<String>) -> (line: String)
    ensures
        line@ == reply_line(reply_to, text_view(data)),
{
    let mut line = String::from_str("{\"data\":");
    match &data {
        Some(clip) => {
            let quoted = quote(clip.as_str());
            line.append(quoted.as_str());
        },
        None => {
            line.append("null");
        },
    }
    match reply_to {
        ReplyTo::Single { kind, id } => {
            line.append(",\"id\":");
            push_decimal(&mut line, id);
            line.append(",\"type\":\"");
            line.append(kind.name());
            line.append("\"}");
        },
        ReplyTo::Range { start_id, end_id } => {
            line.append(",\"end_id\":");
            push_decimal(&mut line, end_id);
            line.append(",\"start_id\":");
            push_decimal(&mut line, start_id);
            line.append(",\"type\":\"audio_range\"}");
        },
    }
    assert(line@ =~= reply_line(reply_to, text_view(data)));
    line
}

/// The message that tells a client of `subtitle`.
pub fn encode_subtitle(subtitle: &Subtitle) -> (line: String)
    ensures
        line@ == subtitle_line(subtitle@),
{
    let mut line = String::from_str("{\"id\":");
    push_decimal(&mut line, subtitle.id);
    line.append(",\"sub_end\":");
    subtitle.sub_end.push_short(&mut line);
    line.append(",\"sub_start\":");
    subtitle.sub_start.push_short(&mut line);
    line.append(",\"subtitle\":");
    let quoted = quote(subtitle.text.as_str());
    line.append(quoted.as_str());
    line.append(",\"type\":\"subtitle\"}");
    assert(line@ =~= subtitle_line(subtitle@));
    line
}

/// What reaches a session.
#[derive(Clone, Debug)]
pub enum ClientEvent {
    /// A subtitle was published.
    Published { subtitle: Subtitle },
    /// The client sent a text message.
    Text { text: String },
    /// The client closed the connection.
    Closed,
    /// The client sent something that is neither text nor a close.
    Other,
}

/// What a session has to do.
#[derive(Clone, Debug)]
pub enum SessionStep {
    /// Nothing.
    Idle,
    /// Send `line` to the client.
    Send { line: String },
    /// Encode the clip away from the connection, then send the reply that
    /// [`encode_reply`] makes of its data.
    Encode { job: ClipJob },
    /// End the session.
    Close,
}

/// What a session does about `event`. A published subtitle is sent on; a
/// request that can be answered is encoded; a message that is no request,
/// or names a subtitle that the store lacks, is passed over without a
/// reply and without ending the session.
pub fn on_client_event(event: ClientEvent, store: &SubtitleStore, temp_dir: &str) -> (step:
    SessionStep)
    ensures
        match event {
            ClientEvent::Published { subtitle } => step matches SessionStep::Send { line } && line@
                == subtitle_line(subtitle@),
            ClientEvent::Text { text } => {
                if message_request(text@) matches Some(request) && answerable(request, store@) {
                    step matches SessionStep::Encode { job } && job_for(
                        message_request(text@)->0,
                        store@,
                        temp_dir@,
                        job@,
                    )
                } else {
                    step is Idle
                }
            },
            ClientEvent::Closed => step is Close,
            ClientEvent::Other => step is Idle,
        },
{
    match event {
        ClientEvent::Published { subtitle } => SessionStep::Send { line: encode_subtitle(&subtitle) },
        ClientEvent::Text { text } => match handle_request(text.as_str(), store, temp_dir) {
            Some(job) => SessionStep::Encode { job },
            None => SessionStep::Idle,
        },
        ClientEvent::Closed => SessionStep::Close,
        ClientEvent::Other => SessionStep::Idle,
    }
}

/// A range clip lasts from the start of the first line to the end of the
/// last, plus the padding before and after; it is cut from the first
/// line's file and audio track.
pub proof fn lemma_range_clip(
    start_id: u64,
    end_id: u64,
    offset_start: Option<int>,
    offset_end: Option<int>,
    store: Map<u64, SubtitleView>,
    output: Seq<char>,
)
    ensures
        ({
            let job = job_at(
                ClientRequestView::AudioRange { start_id, end_id, offset_start, offset_end },
                store,
                output,
            );
            let first = store[start_id];
            let last = store[end_id];
            &&& job.reply_to == ReplyTo::Range { start_id, end_id }
            &&& job.request.args.len() >= 9
            &&& job.request.args[2] == "-i"@
            &&& job.request.args[3] == first.media_path
            &&& job.request.args[4] == "-t"@
            &&& job.request.args[5] == crate::seconds::fixed_decimal(
                last.sub_end - first.sub_start + crate::media::padding_or_default(offset_start)
                    + crate::media::padding_or_default(offset_end),
            )
            &&& job.request.args[6] == "-map"@
            &&& job.request.args[7] == "0:a:"@ + crate::text::signed_decimal(
                crate::media::audio_stream(first.aid),
            )
        }),
{
}

/// A request that names a subtitle which the store lacks gets no job, and
/// so no reply.
pub proof fn lemma_unknown_id_unanswerable(request: ClientRequestView, store: Map<u64, SubtitleView>)
    ensures
        (request matches ClientRequestView::Single { id, .. } && !store.contains_key(id))
            ==> !answerable(request, store),
        (request matches ClientRequestView::AudioRange { start_id, end_id, .. } && !(
        store.contains_key(start_id) && store.contains_key(end_id))) ==> !answerable(
            request,
            store,
        ),
{
}

} // verus!
