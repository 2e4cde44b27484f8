//! A subtitle occurrence that still waits for some of its four properties.

use crate::seconds::Seconds;
use crate::subtitle::{seconds_view, text_view, Subtitle, SubtitleView};
use vstd::prelude::*;

verus! {

/// What one answer from the player can be read as. A JSON number may be
/// readable in more than one way; a string only as text.
#[derive(Clone, Debug)]
pub struct PropertyValue {
    pub unsigned: Option<u64>,
    pub integer: Option<i64>,
    pub seconds: Option<Seconds>,
    pub text: Option<String>,
}

/// What a [`PropertyValue`] holds.
pub struct PropertyValueView {
    pub unsigned: Option<u64>,
    pub integer: Option<i64>,
    pub seconds: Option<int>,
    pub text: Option<Seq<char>>,
}

impl View for PropertyValue {
    type V = PropertyValueView;

    open spec fn view(&self) -> PropertyValueView {
        PropertyValueView {
            unsigned: self.unsigned,
            integer: self.integer,
            seconds: seconds_view(self.seconds),
            text: text_view(self.text),
        }
    }
}

impl PropertyValueView {
    /// Whether the value can stand in the slot `index` of a subtitle: a
    /// time for the start and the end, text for the path, an integer for
    /// the audio track.
    pub open spec fn fits(self, index: int) -> bool {
        ||| (index == 0 || index == 1) && self.seconds is Some
        ||| index == 2 && self.text is Some
        ||| index == 3 && self.integer is Some
    }
}

/// What an optional value holds.
pub open spec fn value_view(data: Option<PropertyValue>) -> Option<PropertyValueView> {
    match data {
        Some(d) => Some(d@),
        None => None,
    }
}

/// An occurrence under assembly: the reserved id, the line, and one slot
/// for the answer to each of the four queries: start, end, path and audio
/// track, in that order.
#[derive(Clone, Debug)]
pub struct PendingSubtitle {
    id: u64,
    text: String,
    sub_start: Option<PropertyValue>,
    sub_end: Option<PropertyValue>,
    media_path: Option<PropertyValue>,
    aid: Option<PropertyValue>,
}

/// What a [`PendingSubtitle`] holds.
pub struct PendingView {
    pub id: u64,
    pub text: Seq<char>,
    pub sub_start: Option<PropertyValueView>,
    pub sub_end: Option<PropertyValueView>,
    pub media_path: Option<PropertyValueView>,
    pub aid: Option<PropertyValueView>,
}

impl PendingView {
    /// An occurrence with all four slots empty.
    pub open spec fn fresh(id: u64, text: Seq<char>) -> PendingView {
        PendingView { id, text, sub_start: None, sub_end: None, media_path: None, aid: None }
    }

    /// The occurrence after an answer for slot `index`, which takes the
    /// place of an earlier one. An index that names no slot changes
    /// nothing.
    pub open spec fn with_response(self, index: int, value: PropertyValueView) -> PendingView {
        if index == 0 {
            PendingView { sub_start: Some(value), ..self }
        } else if index == 1 {
            PendingView { sub_end: Some(value), ..self }
        } else if index == 2 {
            PendingView { media_path: Some(value), ..self }
        } else if index == 3 {
            PendingView { aid: Some(value), ..self }
        } else {
            self
        }
    }

    /// Whether all four slots are filled.
    pub open spec fn complete(self) -> bool {
        &&& self.sub_start is Some
        &&& self.sub_end is Some
        &&& self.media_path is Some
        &&& self.aid is Some
    }

    /// Whether all four slots are filled with values that fit them.
    pub open spec fn convertible(self) -> bool {
        &&& self.complete()
        &&& self.sub_start->0.fits(0)
        &&& self.sub_end->0.fits(1)
        &&& self.media_path->0.fits(2)
        &&& self.aid->0.fits(3)
    }

    /// The subtitle that a convertible occurrence becomes.
    pub open spec fn subtitle(self) -> SubtitleView {
        SubtitleView {
            id: self.id,
            text: self.text,
            sub_start: self.sub_start->0.seconds->0,
            sub_end: self.sub_end->0.seconds->0,
            media_path: self.media_path->0.text->0,
            aid: self.aid->0.integer->0,
        }
    }
}

impl View for PendingSubtitle {
    type V = PendingView;

    closed spec fn view(&self) -> PendingView {
        PendingView {
            id: self.id,
            text: self.text@,
            sub_start: value_view(self.sub_start),
            sub_end: value_view(self.sub_end),
            media_path: value_view(self.media_path),
            aid: value_view(self.aid),
        }
    }
}

impl PendingSubtitle {
    /// A new occurrence that has received nothing yet.
    pub fn new(id: u64, text: String) -> (pending: PendingSubtitle)
        ensures
            pending@ == PendingView::fresh(id, text@),
    {
        PendingSubtitle { id, text, sub_start: None, sub_end: None, media_path: None, aid: None }
    }

    /// Stores an answer in slot `index` (0 start, 1 end, 2 path, 3 audio
    /// track), in place of an earlier one.
    pub fn set_response(&mut self, index: usize, value: PropertyValue)
        ensures
            final(self)@ == old(self)@.with_response(index as int, value@),
    {
        if index == 0 {
            self.sub_start = Some(value);
        } else if index == 1 {
            self.sub_end = Some(value);
        } else if index == 2 {
            self.media_path = Some(value);
        } else if index == 3 {
            self.aid = Some(value);
        }
    }

    /// Whether every slot has its answer.
    pub fn is_complete(&self) -> (complete: bool)
        ensures
            complete == self@.complete(),
    {
        self.sub_start.is_some() && self.sub_end.is_some() && self.media_path.is_some()
            && self.aid.is_some()
    }

    /// Whether every slot has an answer that fits it.
    pub fn is_convertible(&self) -> (convertible: bool)
        ensures
            convertible == self@.convertible(),
    {
        let start = match &self.sub_start {
            Some(value) => value.seconds.is_some(),
            None => false,
        };
        let end = match &self.sub_end {
            Some(value) => value.seconds.is_some(),
            None => false,
        };
        let path = match &self.media_path {
            Some(value) => value.text.is_some(),
            None => false,
        };
        let track = match &self.aid {
            Some(value) => value.integer.is_some(),
            None => false,
        };
        start && end && path && track
    }

    /// Turns a convertible occurrence into its subtitle.
    pub fn into_subtitle(self) -> (subtitle: Subtitle)
        requires
            self@.convertible(),
        ensures
            subtitle@ == self@.subtitle(),
    {
        Subtitle {
            id: self.id,
            text: self.text,
            sub_start: self.sub_start.unwrap().seconds.unwrap(),
            sub_end: self.sub_end.unwrap().seconds.unwrap(),
            media_path: self.media_path.unwrap().text.unwrap(),
            aid: self.aid.unwrap().integer.unwrap(),
        }
    }
}

} // verus!
