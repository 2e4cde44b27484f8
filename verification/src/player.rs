//! The player's line protocol: the commands sent to it and the reading of
//! the lines it sends back.

use crate::json::{
    as_double_bits, as_integer, as_string, as_unsigned, json_document, json_double_bits,
    json_integer, json_member, json_string, json_unsigned, member, parse,
};
use crate::pending::{value_view, PropertyValue, PropertyValueView};
use crate::seconds::{double_millis, Seconds};
use crate::subtitle::text_view;
use crate::text::{decimal, push_decimal, same_text};
use vstd::prelude::*;
use vstd::string::*;

verus! {

/// One line from the player, as far as this library reads it.
#[derive(Clone, Debug)]
pub enum PlayerMessage {
    /// The answer to a query, which carries the query's request id.
    Response { request_id: u64, error: Option<String>, data: Option<PropertyValue> },
    /// The observed subtitle text changed to `text`, which may be empty.
    TextChanged { text: String },
    /// Any other well-formed line.
    Other,
}

/// What a [`PlayerMessage`] holds.
pub enum PlayerMessageView {
    Response { request_id: u64, error: Option<Seq<char>>, data: Option<PropertyValueView> },
    TextChanged { text: Seq<char> },
    Other,
}

impl View for PlayerMessage {
    type V = PlayerMessageView;

    open spec fn view(&self) -> PlayerMessageView {
        match *self {
            PlayerMessage::Response { request_id, error, data } => PlayerMessageView::Response {
                request_id,
                error: text_view(error),
                data: value_view(data),
            },
            PlayerMessage::TextChanged { text } => PlayerMessageView::TextChanged { text: text@ },
            PlayerMessage::Other => PlayerMessageView::Other,
        }
    }
}

/// The command that asks the player to report changes of the subtitle text.
pub open spec fn observe_line() -> Seq<char> {
    "{\"command\":[\"observe_property\",1,\"sub-text\"]}\n"@
}

/// The command that asks for the property `property` under `request_id`.
/// The name is copied as it is, without escapes.
pub open spec fn get_property_line(property: Seq<char>, request_id: u64) -> Seq<char> {
    "{\"command\":[\"get_property\",\""@ + property + "\"],\"request_id\":"@ + decimal(
        request_id as nat,
    ) + "}\n"@
}

/// The four queries of one occurrence: start, end, path and audio track,
/// under `base`, `base + 1`, `base + 2` and `base + 3`.
pub open spec fn occurrence_queries(base: u64) -> Seq<char> {
    get_property_line("sub-start"@, base) + get_property_line("sub-end"@, (base + 1) as u64)
        + get_property_line("path"@, (base + 2) as u64) + get_property_line(
        "aid"@,
        (base + 3) as u64,
    )
}

/// All the ways in which `value` can be read.
pub open spec fn property_value_of(value: serde_json::Value) -> PropertyValueView {
    PropertyValueView {
        unsigned: json_unsigned(value),
        integer: json_integer(value),
        seconds: match json_double_bits(value) {
            Some(bits) => Some(double_millis(bits)),
            None => None,
        },
        text: json_string(value),
    }
}

/// The string under `key` in `document`, if there is one.
pub open spec fn string_member(document: serde_json::Value, key: Seq<char>) -> Option<Seq<char>> {
    match json_member(document, key) {
        Some(inner) => json_string(inner),
        None => None,
    }
}

/// The unsigned integer under `key` in `document`, if there is one.
pub open spec fn unsigned_member(document: serde_json::Value, key: Seq<char>) -> Option<u64> {
    match json_member(document, key) {
        Some(inner) => json_unsigned(inner),
        None => None,
    }
}

/// The members of a line that the protocol looks at.
#[derive(Clone, Debug)]
pub struct LineFields {
    /// `request_id`, where it is an unsigned integer.
    pub request_id: Option<u64>,
    /// `error`, where it is a string.
    pub error: Option<String>,
    /// `event`, where it is a string.
    pub event: Option<String>,
    /// `data`, where the line has one.
    pub data: Option<PropertyValue>,
}

/// What a [`LineFields`] holds.
pub struct LineFieldsView {
    pub request_id: Option<u64>,
    pub error: Option<Seq<char>>,
    pub event: Option<Seq<char>>,
    pub data: Option<PropertyValueView>,
}

impl View for LineFields {
    type V = LineFieldsView;

    open spec fn view(&self) -> LineFieldsView {
        LineFieldsView {
            request_id: self.request_id,
            error: text_view(self.error),
            event: text_view(self.event),
            data: value_view(self.data),
        }
    }
}

/// The members of `document` that the protocol looks at.
pub open spec fn fields_of(document: serde_json::Value) -> LineFieldsView {
    LineFieldsView {
        request_id: unsigned_member(document, "request_id"@),
        error: string_member(document, "error"@),
        event: string_member(document, "event"@),
        data: match json_member(document, "data"@) {
            Some(d) => Some(property_value_of(d)),
            None => None,
        },
    }
}

/// The event that reports a change of an observed property.
pub open spec fn change_event() -> Seq<char> {
    "property-change"@
}

/// What a line with the members `fields` is. A line with a request id is
/// a response, whatever else it holds. Otherwise a line whose event is
/// `property-change` and whose data is a string is a text change.
pub open spec fn classified(fields: LineFieldsView) -> PlayerMessageView {
    match fields.request_id {
        Some(request_id) => PlayerMessageView::Response {
            request_id,
            error: fields.error,
            data: fields.data,
        },
        None => match fields.data {
            Some(data) => if fields.event == Some(change_event()) && data.text is Some {
                PlayerMessageView::TextChanged { text: data.text->0 }
            } else {
                PlayerMessageView::Other
            },
            None => PlayerMessageView::Other,
        },
    }
}

/// How a parsed line is read.
pub open spec fn message_of(document: serde_json::Value) -> PlayerMessageView {
    classified(fields_of(document))
}

/// How a line is read: none where it is not JSON.
pub open spec fn line_message(line: Seq<char>) -> Option<PlayerMessageView> {
    match json_document(line) {
        Some(document) => Some(message_of(document)),
        None => None,
    }
}

/// Reads `value` in every way that the protocol uses.
pub(crate) fn read_property_value(value: &serde_json::Value) -> (read: PropertyValue)
    ensures
        read@ == property_value_of(*value),
{
    let seconds = match as_double_bits(value) {
        Some(bits) => Some(Seconds::from_double_bits(bits)),
        None => None,
    };
    let text = match as_string(value) {
        Some(t) => Some(String::from_str(t)),
        None => None,
    };
    PropertyValue { unsigned: as_unsigned(value), integer: as_integer(value), seconds, text }
}

/// The string under `key`, copied out.
pub(crate) fn read_string_member(document: &serde_json::Value, key: &str) -> (text: Option<String>)
    ensures
        text_view(text) == string_member(*document, key@),
{
    match member(document, key) {
        Some(inner) => match as_string(inner) {
            Some(t) => Some(String::from_str(t)),
            None => None,
        },
        None => None,
    }
}

/// The unsigned integer under `key`.
pub(crate) fn read_unsigned_member(document: &serde_json::Value, key: &str) -> (number: Option<u64>)
    ensures
        number == unsigned_member(*document, key@),
{
    match member(document, key) {
        Some(inner) => as_unsigned(inner),
        None => None,
    }
}

/// Reads the members of `document` that the protocol looks at.
pub(crate) fn read_fields(document: &serde_json::Value) -> (fields: LineFields)
    ensures
        fields@ == fields_of(*document),
{
    LineFields {
        request_id: read_unsigned_member(document, "request_id"),
        error: read_string_member(document, "error"),
        event: read_string_member(document, "event"),
        data: match member(document, "data") {
            Some(d) => Some(read_property_value(d)),
            None => None,
        },
    }
}

/// Tells what a line with the members `fields` is.
pub fn classify(fields: LineFields) -> (message: PlayerMessage)
    ensures
        message@ == classified(fields@),
{
    match fields.request_id {
        Some(request_id) => PlayerMessage::Response {
            request_id,
            error: fields.error,
            data: fields.data,
        },
        None => {
            let is_change = match &fields.event {
                Some(event) => same_text(event.as_str(), "property-change"),
                None => false,
            };
            match fields.data {
                Some(data) => match data.text {
                    Some(text) => if is_change {
                        PlayerMessage::TextChanged { text }
                    } else {
                        PlayerMessage::Other
                    },
                    None => PlayerMessage::Other,
                },
                None => PlayerMessage::Other,
            }
        },
    }
}

/// Reads one line from the player. A line that is not JSON gives none: the
/// caller skips it.
pub fn decode_line(line: &str) -> (message: Option<PlayerMessage>)
    ensures
        match message {
            Some(m) => line_message(line@) == Some(m@),
            None => line_message(line@).is_none(),
        },
{
    match parse(line) {
        Some(document) => Some(classify(read_fields(&document))),
        None => None,
    }
}

/// The line, if it is the response to the query sent under `request_id`.
/// A caller that waits for one answer reads lines until this gives some.
pub fn match_response(line: &str, request_id: u64) -> (answer: Option<PlayerMessage>)
    ensures
        match answer {
            Some(m) => line_message(line@) == Some(m@) && (m@ matches PlayerMessageView::Response {
                request_id: id,
                ..
            } && id == request_id),
            None => !(line_message(line@) matches Some(
                PlayerMessageView::Response { request_id: id, .. },
            ) && id == request_id),
        },
{
    match decode_line(line) {
        Some(PlayerMessage::Response { request_id: id, error, data }) => {
            if id == request_id {
                Some(PlayerMessage::Response { request_id: id, error, data })
            } else {
                None
            }
        },
        _ => None,
    }
}

/// The command that makes the player report subtitle text changes.
pub fn observe_command() -> (command: String)
    ensures
        command@ == observe_line(),
{
    String::from_str("{\"command\":[\"observe_property\",1,\"sub-text\"]}\n")
}

/// Appends the query for `property` under `request_id` to `out`.
pub fn push_get_property(out: &mut String, property: &str, request_id: u64)
    ensures
        final(out)@ == old(out)@ + get_property_line(property@, request_id),
{
    out.append("{\"command\":[\"get_property\",\"");
    out.append(property);
    out.append("\"],\"request_id\":");
    push_decimal(out, request_id);
    out.append("}\n");
    assert(out@ =~= old(out)@ + get_property_line(property@, request_id));
}

/// The query for `property` under `request_id`, as one line.
pub fn get_property_command(property: &str, request_id: u64) -> (command: String)
    ensures
        command@ == get_property_line(property@, request_id),
{
    let mut command = String::new();
    push_get_property(&mut command, property, request_id);
    assert(command@ =~= get_property_line(property@, request_id));
    command
}

/// The four queries of the occurrence whose block of request ids starts
/// at `base`, as four lines in one string.
pub fn occurrence_commands(base: u64) -> (commands: String)
    requires
        base <= u64::MAX - 3,
    ensures
        commands@ == occurrence_queries(base),
{
    let mut commands = String::new();
    push_get_property(&mut commands, "sub-start", base);
    push_get_property(&mut commands, "sub-end", base + 1);
    push_get_property(&mut commands, "path", base + 2);
    push_get_property(&mut commands, "aid", base + 3);
    assert(commands@ =~= occurrence_queries(base));
    commands
}

} // verus!
