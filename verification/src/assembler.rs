//! The subtitle assembler: from the player's messages to complete
//! subtitles.
//!
//! Each non-empty text change opens an occurrence, which gets the next
//! subtitle id and the next block of request ids, and asks the player for
//! four properties. The answers may come in any order and mixed with the
//! answers for other occurrences. An occurrence leaves at the moment its
//! fourth slot is filled: as a published subtitle if every answer is of
//! the kind that its slot wants, without a trace if one is not.

use crate::pending::{value_view, PendingSubtitle, PendingView, PropertyValue, PropertyValueView};
use crate::player::{
    decode_line, line_message, occurrence_commands, occurrence_queries, PlayerMessage,
    PlayerMessageView,
};
use crate::subtitle::{Subtitle, SubtitleView};
use std::collections::HashMap;
use vstd::prelude::*;
use vstd::std_specs::hash::*;

verus! {

/// The id of the first subtitle.
pub const FIRST_SUBTITLE_ID: u64 = 1;

/// The request id at which the first block starts. The ids below it are
/// left to queries made before the assembler runs.
pub const FIRST_REQUEST_ID: u64 = 10;

/// The distance between two blocks of request ids.
pub const REQUEST_BLOCK: u64 = 10;

/// The start of the block that `request_id` lies in.
pub open spec fn block_of(request_id: u64) -> u64 {
    (request_id / REQUEST_BLOCK * REQUEST_BLOCK) as u64
}

/// The place of `request_id` in its block: the slot that it answers.
pub open spec fn slot_of(request_id: u64) -> int {
    (request_id % REQUEST_BLOCK) as int
}

/// What the caller has to do after a message.
#[derive(Clone, Debug)]
pub enum Step {
    /// Nothing.
    Idle,
    /// Send `commands` to the player.
    Query { commands: String },
    /// Store `subtitle` and hand it to every subscriber.
    Publish { subtitle: Subtitle },
}

/// What a [`Step`] holds.
pub enum StepView {
    Idle,
    Query { commands: Seq<char> },
    Publish { subtitle: SubtitleView },
}

impl View for Step {
    type V = StepView;

    open spec fn view(&self) -> StepView {
        match *self {
            Step::Idle => StepView::Idle,
            Step::Query { commands } => StepView::Query { commands: commands@ },
            Step::Publish { subtitle } => StepView::Publish { subtitle: subtitle@ },
        }
    }
}

/// The assembler's state: the occurrences under assembly, keyed by the
/// start of their block of request ids, and the two counters.
pub struct AssemblerView {
    pub pending: Map<u64, PendingView>,
    pub next_subtitle_id: u64,
    pub next_request_id: u64,
}

impl AssemblerView {
    /// The state before any message.
    pub open spec fn initial() -> AssemblerView {
        AssemblerView {
            pending: Map::empty(),
            next_subtitle_id: FIRST_SUBTITLE_ID,
            next_request_id: FIRST_REQUEST_ID,
        }
    }

    /// What holds of every state that the assembler reaches: blocks start
    /// at multiples of ten below the next block; no occurrence that waits
    /// is complete or has an empty text; ids are below the next id and
    /// grow with the blocks.
    pub open spec fn well_formed(self) -> bool {
        &&& self.next_subtitle_id >= FIRST_SUBTITLE_ID
        &&& self.next_request_id >= FIRST_REQUEST_ID
        &&& self.next_request_id % REQUEST_BLOCK == 0
        &&& forall|base: u64| #[trigger]
            self.pending.contains_key(base) ==> {
                &&& base % REQUEST_BLOCK == 0
                &&& FIRST_REQUEST_ID <= base < self.next_request_id
                &&& !self.pending[base].complete()
                &&& self.pending[base].text.len() > 0
                &&& FIRST_SUBTITLE_ID <= self.pending[base].id < self.next_subtitle_id
            }
        &&& forall|a: u64, b: u64|
            #![trigger self.pending.contains_key(a), self.pending.contains_key(b)]
            self.pending.contains_key(a) && self.pending.contains_key(b) && a < b
                ==> self.pending[a].id < self.pending[b].id
    }

    /// Whether a text change to `text` opens an occurrence: the text is
    /// not empty and both counters have room.
    pub open spec fn accepts(self, text: Seq<char>) -> bool {
        &&& text.len() > 0
        &&& self.next_subtitle_id < u64::MAX
        &&& self.next_request_id <= u64::MAX - REQUEST_BLOCK
    }

    /// The state after a text change.
    pub open spec fn after_text(self, text: Seq<char>) -> AssemblerView {
        if self.accepts(text) {
            AssemblerView {
                pending: self.pending.insert(
                    self.next_request_id,
                    PendingView::fresh(self.next_subtitle_id, text),
                ),
                next_subtitle_id: (self.next_subtitle_id + 1) as u64,
                next_request_id: (self.next_request_id + REQUEST_BLOCK) as u64,
            }
        } else {
            self
        }
    }

    /// Whether an answer under `request_id` with `data` reaches an
    /// occurrence that waits.
    pub open spec fn reaches(self, request_id: u64, data: Option<PropertyValueView>) -> bool {
        data is Some && self.pending.contains_key(block_of(request_id))
    }

    /// The occurrence that the answer reaches, with the answer stored.
    pub open spec fn filled(self, request_id: u64, data: Option<PropertyValueView>) -> PendingView {
        self.pending[block_of(request_id)].with_response(slot_of(request_id), data->0)
    }

    /// The state after an answer: an occurrence whose last empty slot the
    /// answer fills leaves; any other keeps what it has gathered.
    pub open spec fn after_response(
        self,
        request_id: u64,
        data: Option<PropertyValueView>,
    ) -> AssemblerView {
        if self.reaches(request_id, data) {
            let entry = self.filled(request_id, data);
            if entry.complete() {
                AssemblerView { pending: self.pending.remove(block_of(request_id)), ..self }
            } else {
                AssemblerView { pending: self.pending.insert(block_of(request_id), entry), ..self }
            }
        } else {
            self
        }
    }

    /// The state after `message`.
    pub open spec fn after(self, message: PlayerMessageView) -> AssemblerView {
        match message {
            PlayerMessageView::Response { request_id, data, .. } => self.after_response(
                request_id,
                data,
            ),
            PlayerMessageView::TextChanged { text } => self.after_text(text),
            PlayerMessageView::Other => self,
        }
    }

    /// The subtitle that an answer under `request_id` with `data`
    /// completes, if it completes one. An occurrence whose four answers
    /// do not all fit their slots is complete but gives no subtitle.
    pub open spec fn completed(
        self,
        request_id: u64,
        data: Option<PropertyValueView>,
    ) -> Option<SubtitleView> {
        if self.reaches(request_id, data) && self.filled(request_id, data).convertible() {
            Some(self.filled(request_id, data).subtitle())
        } else {
            None
        }
    }

    /// The subtitle that `message` completes, if it completes one.
    pub open spec fn published(self, message: PlayerMessageView) -> Option<SubtitleView> {
        match message {
            PlayerMessageView::Response { request_id, data, .. } => self.completed(
                request_id,
                data,
            ),
            _ => None,
        }
    }

    /// What the caller has to do after `message`.
    pub open spec fn step(self, message: PlayerMessageView) -> StepView {
        match message {
            PlayerMessageView::TextChanged { text } => {
                if self.accepts(text) {
                    StepView::Query { commands: occurrence_queries(self.next_request_id) }
                } else {
                    StepView::Idle
                }
            },
            _ => match self.published(message) {
                Some(subtitle) => StepView::Publish { subtitle },
                None => StepView::Idle,
            },
        }
    }
}

/// The subtitle assembler.
#[derive(Debug)]
pub struct Assembler {
    pending: HashMap<u64, PendingSubtitle>,
    next_subtitle_id: u64,
    next_request_id: u64,
}

impl View for Assembler {
    type V = AssemblerView;

    closed spec fn view(&self) -> AssemblerView {
        AssemblerView {
            pending: self.pending@.map_values(|p: PendingSubtitle| p@),
            next_subtitle_id: self.next_subtitle_id,
            next_request_id: self.next_request_id,
        }
    }
}

impl Assembler {
    #[verifier::type_invariant]
    spec fn sound(self) -> bool {
        self@.well_formed()
    }

    /// An assembler that has seen nothing: the first subtitle will get id 1
    /// and the first block of request ids starts at 10.
    pub fn new() -> (assembler: Assembler)
        ensures
            assembler@ == AssemblerView::initial(),
            assembler@.well_formed(),
    {
        let pending: HashMap<u64, PendingSubtitle> = HashMap::new();
        assert(pending@.map_values(|p: PendingSubtitle| p@) =~= Map::empty());
        Assembler {
            pending,
            next_subtitle_id: FIRST_SUBTITLE_ID,
            next_request_id: FIRST_REQUEST_ID,
        }
    }

    /// The number of occurrences that wait for answers.
    pub fn pending_count(&self) -> (count: usize)
        ensures
            count == self@.pending.len(),
    {
        broadcast use group_hash_axioms;

        proof {
            let f = |p: PendingSubtitle| p@;
            assert(self.pending@.map_values(f).dom() =~= self.pending@.dom());
        }
        self.pending.len()
    }

    /// The id that the next occurrence will get.
    pub fn next_subtitle_id(&self) -> (id: u64)
        ensures
            id == self@.next_subtitle_id,
    {
        self.next_subtitle_id
    }

    /// Takes the table of waiting occurrences out, to work on it, and
    /// leaves an empty one.
    fn take_pending(&mut self) -> (pending: HashMap<u64, PendingSubtitle>)
        ensures
            pending@.map_values(|p: PendingSubtitle| p@) == old(self)@.pending,
            final(self)@ == (AssemblerView { pending: Map::empty(), ..old(self)@ }),
            old(self)@.well_formed(),
    {
        proof {
            use_type_invariant(&*self);
        }
        let mut pending: HashMap<u64, PendingSubtitle> = HashMap::new();
        assert(pending@.map_values(|p: PendingSubtitle| p@) =~= Map::empty());
        std::mem::swap(&mut pending, &mut self.pending);
        pending
    }

    /// Handles a change of the subtitle text. An empty text opens nothing.
    pub fn on_text_changed(&mut self, text: String) -> (step: Step)
        ensures
            final(self)@.well_formed(),
            final(self)@ == old(self)@.after_text(text@),
            step@ == old(self)@.step(PlayerMessageView::TextChanged { text: text@ }),
    {
        broadcast use group_hash_axioms;

        proof {
            use_type_invariant(&*self);
        }
        if text.as_str().is_empty() || self.next_subtitle_id == u64::MAX || self.next_request_id
            > u64::MAX - REQUEST_BLOCK {
            return Step::Idle;
        }
        let id = self.next_subtitle_id;
        let base = self.next_request_id;
        let commands = occurrence_commands(base);
        let entry = PendingSubtitle::new(id, text);
        let mut pending = self.take_pending();
        proof {
            let f = |p: PendingSubtitle| p@;
            assert(pending@.insert(base, entry).map_values(f) =~= pending@.map_values(f).insert(
                base,
                entry@,
            ));
            assert(old(self)@.after_text(text@).well_formed());
        }
        pending.insert(base, entry);
        self.next_subtitle_id = id + 1;
        self.next_request_id = base + REQUEST_BLOCK;
        self.pending = pending;
        Step::Query { commands }
    }

    /// Handles the answer to a query. An answer without data and one for no
    /// occurrence that waits change nothing. An occurrence leaves when its
    /// fourth slot is filled; it is published if all four answers fit
    /// their slots, and dropped if one does not.
    pub fn on_response(&mut self, request_id: u64, data: Option<PropertyValue>) -> (published:
        Option<Subtitle>)
        ensures
            final(self)@.well_formed(),
            final(self)@ == old(self)@.after_response(request_id, value_view(data)),
            match published {
                Some(subtitle) => old(self)@.completed(request_id, value_view(data)) == Some(
                    subtitle@,
                ),
                None => old(self)@.completed(request_id, value_view(data)).is_none(),
            },
    {
        broadcast use group_hash_axioms;

        proof {
            use_type_invariant(&*self);
        }
        let ghost f = |p: PendingSubtitle| p@;
        let base = request_id / REQUEST_BLOCK * REQUEST_BLOCK;
        let slot = (request_id % REQUEST_BLOCK) as usize;
        let value = match data {
            Some(value) => value,
            None => {
                return None;
            },
        };
        let mut pending = self.take_pending();
        let ghost before = pending@;
        proof {
            assert(before.map_values(f).dom() =~= before.dom());
            assert(before.remove(base).map_values(f) =~= before.map_values(f).remove(base));
            lemma_response_keeps_well_formed(old(self)@, request_id, Some(value@));
        }
        let published = match pending.remove(&base) {
            None => {
                assert(pending@ =~= before);
                None
            },
            Some(entry) => {
                let mut entry = entry;
                entry.set_response(slot, value);
                if entry.is_complete() {
                    if entry.is_convertible() {
                        Some(entry.into_subtitle())
                    } else {
                        None
                    }
                } else {
                    proof {
                        assert(pending@.insert(base, entry).map_values(f) =~= pending@.map_values(
                            f,
                        ).insert(base, entry@));
                        assert(pending@.map_values(f).insert(base, entry@) =~= old(
                            self,
                        )@.pending.insert(base, entry@));
                    }
                    pending.insert(base, entry);
                    None
                }
            },
        };
        self.pending = pending;
        published
    }

    /// Handles one message from the player.
    pub fn on_message(&mut self, message: PlayerMessage) -> (step: Step)
        ensures
            final(self)@.well_formed(),
            final(self)@ == old(self)@.after(message@),
            step@ == old(self)@.step(message@),
    {
        proof {
            use_type_invariant(&*self);
        }
        match message {
            PlayerMessage::Response { request_id, error, data } => {
                match self.on_response(request_id, data) {
                    Some(subtitle) => Step::Publish { subtitle },
                    None => Step::Idle,
                }
            },
            PlayerMessage::TextChanged { text } => self.on_text_changed(text),
            PlayerMessage::Other => Step::Idle,
        }
    }

    /// Handles one line from the player. A line that is not JSON is
    /// skipped.
    pub fn on_line(&mut self, line: &str) -> (step: Step)
        ensures
            final(self)@.well_formed(),
            match line_message(line@) {
                Some(message) => final(self)@ == old(self)@.after(message) && step@ == old(
                    self,
                )@.step(message),
                None => final(self)@ == old(self)@ && step@ == StepView::Idle,
            },
    {
        proof {
            use_type_invariant(&*self);
        }
        match decode_line(line) {
            Some(message) => self.on_message(message),
            None => Step::Idle,
        }
    }
}

/// An answer leaves a well-formed state well formed.
pub proof fn lemma_response_keeps_well_formed(
    state: AssemblerView,
    request_id: u64,
    data: Option<PropertyValueView>,
)
    requires
        state.well_formed(),
    ensures
        state.after_response(request_id, data).well_formed(),
{
}

/// Every message leaves a well-formed state well formed.
pub proof fn lemma_message_keeps_well_formed(state: AssemblerView, message: PlayerMessageView)
    requires
        state.well_formed(),
    ensures
        state.after(message).well_formed(),
{
}

/// A published subtitle has a text that is not empty and an id that was
/// given out before.
pub proof fn lemma_published_is_sound(state: AssemblerView, message: PlayerMessageView)
    requires
        state.well_formed(),
        state.published(message) is Some,
    ensures
        state.published(message)->0.text.len() > 0,
        FIRST_SUBTITLE_ID <= state.published(message)->0.id < state.next_subtitle_id,
{
}

/// A text change to the empty text opens no occurrence, publishes nothing
/// and asks the caller for nothing.
pub proof fn lemma_empty_text_opens_nothing(state: AssemblerView)
    ensures
        state.after(PlayerMessageView::TextChanged { text: Seq::empty() }) == state,
        state.published(PlayerMessageView::TextChanged { text: Seq::empty() }).is_none(),
        state.step(PlayerMessageView::TextChanged { text: Seq::empty() }) == StepView::Idle,
{
}

/// A text change that opens an occurrence gives it the next subtitle id
/// and the next block, and moves the id on by one and the block by ten.
pub proof fn lemma_text_opens_next(state: AssemblerView, text: Seq<char>)
    requires
        state.accepts(text),
    ensures
        state.after_text(text).pending.contains_key(state.next_request_id),
        state.after_text(text).pending[state.next_request_id] == PendingView::fresh(
            state.next_subtitle_id,
            text,
        ),
        state.after_text(text).next_subtitle_id == state.next_subtitle_id + 1,
        state.after_text(text).next_request_id == state.next_request_id + REQUEST_BLOCK,
{
}

} // verus!
