//! A displayed subtitle line with its timing and source.

use crate::seconds::Seconds;
use vstd::prelude::*;

verus! {

/// One subtitle occurrence, complete and immutable.
#[derive(Clone, Debug, PartialEq, Eq)]
pub struct Subtitle {
    /// Assigned by the assembler; never reused.
    pub id: u64,
    /// The displayed line; never empty when the assembler made it.
    pub text: String,
    /// When the line appears.
    pub sub_start: Seconds,
    /// When the line disappears.
    pub sub_end: Seconds,
    /// The file that was playing when the line was seen.
    pub media_path: String,
    /// The audio track that was active when the line was seen.
    pub aid: i64,
}

/// What a [`Subtitle`] holds, with times in milliseconds.
pub struct SubtitleView {
    pub id: u64,
    pub text: Seq<char>,
    pub sub_start: int,
    pub sub_end: int,
    pub media_path: Seq<char>,
    pub aid: i64,
}

impl View for Subtitle {
    type V = SubtitleView;

    open spec fn view(&self) -> SubtitleView {
        SubtitleView {
            id: self.id,
            text: self.text@,
            sub_start: self.sub_start@,
            sub_end: self.sub_end@,
            media_path: self.media_path@,
            aid: self.aid,
        }
    }
}

impl Subtitle {
    /// A copy with the same contents.
    pub fn duplicate(&self) -> (copy: Subtitle)
        ensures
            copy@ == self@,
    {
        Subtitle {
            id: self.id,
            text: self.text.clone(),
            sub_start: self.sub_start,
            sub_end: self.sub_end,
            media_path: self.media_path.clone(),
            aid: self.aid,
        }
    }
}

/// The characters of an optional string.
pub open spec fn text_view(text: Option<String>) -> Option<Seq<char>> {
    match text {
        Some(t) => Some(t@),
        None => None,
    }
}

/// The milliseconds of an optional time.
pub open spec fn seconds_view(time: Option<Seconds>) -> Option<int> {
    match time {
        Some(t) => Some(t@),
        None => None,
    }
}

} // verus!
