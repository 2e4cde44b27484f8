//! What holds of the assembler over whole sequences of messages.

use crate::assembler::{block_of, slot_of, AssemblerView, REQUEST_BLOCK};
use crate::pending::{PendingView, PropertyValueView};
use crate::player::PlayerMessageView;
use crate::subtitle::SubtitleView;
use vstd::prelude::*;

verus! {

/// The state that `start` has become when all of `messages` are handled,
/// first to last.
pub open spec fn state_after(
    start: AssemblerView,
    messages: Seq<PlayerMessageView>,
) -> AssemblerView
    decreases messages.len(),
{
    if messages.len() == 0 {
        start
    } else {
        state_after(start, messages.drop_last()).after(messages.last())
    }
}

/// The subtitle that the message at `index` completes, if it completes one.
pub open spec fn published_at(
    start: AssemblerView,
    messages: Seq<PlayerMessageView>,
    index: int,
) -> Option<SubtitleView> {
    state_after(start, messages.take(index)).published(messages[index])
}

/// Whether the message at `index` publishes a subtitle with the id `id`.
pub open spec fn publishes_id(
    start: AssemblerView,
    messages: Seq<PlayerMessageView>,
    index: int,
    id: u64,
) -> bool {
    published_at(start, messages, index) matches Some(subtitle) && subtitle.id == id
}

/// Whether `message` is an answer with data for the block at `base`.
pub open spec fn answers_block(message: PlayerMessageView, base: u64) -> bool {
    message matches PlayerMessageView::Response { request_id, data, .. } && data is Some
        && block_of(request_id) == base
}

/// Whether `message` is a text change to a text that is not empty.
pub open spec fn is_new_text(message: PlayerMessageView) -> bool {
    message matches PlayerMessageView::TextChanged { text } && text.len() > 0
}

/// What the occurrence `held` of the block at `base` holds after
/// `message`: an answer with data for that block is stored, any other
/// message leaves it as it is.
pub open spec fn gathered_one(held: PendingView, message: PlayerMessageView, base: u64) -> PendingView {
    match message {
        PlayerMessageView::Response { request_id, data, .. } => {
            if data is Some && block_of(request_id) == base {
                held.with_response(slot_of(request_id), data->0)
            } else {
                held
            }
        },
        _ => held,
    }
}

/// What the occurrence `entry` of the block at `base` has gathered when
/// every answer for that block in `messages` is stored, first to last.
/// Messages for other blocks leave it as it is.
pub open spec fn gathered(
    entry: PendingView,
    messages: Seq<PlayerMessageView>,
    base: u64,
) -> PendingView
    decreases messages.len(),
{
    if messages.len() == 0 {
        entry
    } else {
        gathered_one(gathered(entry, messages.drop_last(), base), messages.last(), base)
    }
}

/// The subtitle made of `id`, `text` and four answers, one for each slot.
pub open spec fn assembled(id: u64, text: Seq<char>, answers: Seq<PropertyValueView>) -> SubtitleView {
    SubtitleView {
        id,
        text,
        sub_start: answers[0].seconds->0,
        sub_end: answers[1].seconds->0,
        media_path: answers[2].text->0,
        aid: answers[3].integer->0,
    }
}

/// The largest of four positions.
pub open spec fn latest(positions: Seq<int>) -> int {
    let a = if positions[0] >= positions[1] {
        positions[0]
    } else {
        positions[1]
    };
    let b = if positions[2] >= positions[3] {
        positions[2]
    } else {
        positions[3]
    };
    if a >= b {
        a
    } else {
        b
    }
}

/// The id of the occurrence that the message at `index` opens, where that
/// message is a text change that opens one.
pub open spec fn id_opened_at(
    start: AssemblerView,
    messages: Seq<PlayerMessageView>,
    index: int,
) -> u64 {
    let before = state_after(start, messages.take(index));
    before.after(messages[index]).pending[before.next_request_id].id
}

/// Any sequence of messages leaves a well-formed state well formed.
pub proof fn lemma_messages_keep_well_formed(
    start: AssemblerView,
    messages: Seq<PlayerMessageView>,
)
    requires
        start.well_formed(),
    ensures
        state_after(start, messages).well_formed(),
    decreases messages.len(),
{
    if messages.len() > 0 {
        lemma_messages_keep_well_formed(start, messages.drop_last());
    }
}

/// Neither counter ever goes back.
pub proof fn lemma_counters_never_decrease(
    start: AssemblerView,
    messages: Seq<PlayerMessageView>,
)
    ensures
        state_after(start, messages).next_subtitle_id >= start.next_subtitle_id,
        state_after(start, messages).next_request_id >= start.next_request_id,
    decreases messages.len(),
{
    if messages.len() > 0 {
        lemma_counters_never_decrease(start, messages.drop_last());
    }
}

/// Subtitle ids go up by one from each text change that opens an
/// occurrence to the next, whatever answers arrive in between and in
/// whatever order occurrences are completed: if the messages at `first`
/// and `second` both open an occurrence and no message between them
/// brings a new text, the second gets the id after the first's.
pub proof fn lemma_ids_go_up_by_one(
    start: AssemblerView,
    messages: Seq<PlayerMessageView>,
    first: int,
    second: int,
)
    requires
        0 <= first < second < messages.len(),
        messages[first] matches PlayerMessageView::TextChanged { text } && state_after(
            start,
            messages.take(first),
        ).accepts(text),
        messages[second] matches PlayerMessageView::TextChanged { text } && state_after(
            start,
            messages.take(second),
        ).accepts(text),
        forall|k: int| first < k < second ==> !is_new_text(#[trigger] messages[k]),
    ensures
        id_opened_at(start, messages, second) == id_opened_at(start, messages, first) + 1,
{
    lemma_id_after_opening(start, messages, first, second);
}

proof fn lemma_id_after_opening(
    start: AssemblerView,
    messages: Seq<PlayerMessageView>,
    first: int,
    upto: int,
)
    requires
        0 <= first < upto <= messages.len(),
        messages[first] matches PlayerMessageView::TextChanged { text } && state_after(
            start,
            messages.take(first),
        ).accepts(text),
        forall|k: int| first < k < upto ==> !is_new_text(#[trigger] messages[k]),
    ensures
        state_after(start, messages.take(upto)).next_subtitle_id == state_after(
            start,
            messages.take(first),
        ).next_subtitle_id + 1,
    decreases upto - first,
{
    assert(messages.take(upto).drop_last() =~= messages.take(upto - 1));
    assert(messages.take(upto).last() == messages[upto - 1]);
    if upto - 1 > first {
        lemma_id_after_opening(start, messages, first, upto - 1);
        assert(!is_new_text(messages[upto - 1]));
    }
}

/// What a complete occurrence gives: its subtitle if the four answers fit
/// their slots, nothing if one does not.
pub open spec fn outcome(entry: PendingView) -> Option<SubtitleView> {
    if entry.convertible() {
        Some(entry.subtitle())
    } else {
        None
    }
}

/// What holds of one occurrence after the first `done` messages, when
/// `turn` is the first message that completes what it has gathered (or
/// `turn` is the number of messages, when none does).
spec fn progress(
    start: AssemblerView,
    messages: Seq<PlayerMessageView>,
    base: u64,
    turn: int,
    done: int,
) -> bool {
    let entry = start.pending[base];
    let now = state_after(start, messages.take(done));
    &&& now.well_formed()
    &&& forall|i: int| 0 <= i < done && i != turn ==> !publishes_id(start, messages, i, entry.id)
    &&& if done <= turn {
        &&& now.pending.contains_key(base)
        &&& now.pending[base] == gathered(entry, messages.take(done), base)
    } else {
        &&& !now.pending.contains_key(base)
        &&& base < now.next_request_id
        &&& entry.id < now.next_subtitle_id
        &&& forall|other: u64| #[trigger]
            now.pending.contains_key(other) ==> now.pending[other].id != entry.id
        &&& published_at(start, messages, turn) == outcome(
            gathered(entry, messages.take(turn + 1), base),
        )
    }
}

proof fn lemma_gathered_keeps_id(entry: PendingView, messages: Seq<PlayerMessageView>, base: u64)
    ensures
        gathered(entry, messages, base).id == entry.id,
        gathered(entry, messages, base).text == entry.text,
    decreases messages.len(),
{
    if messages.len() > 0 {
        lemma_gathered_keeps_id(entry, messages.drop_last(), base);
    }
}

proof fn lemma_progress(
    start: AssemblerView,
    messages: Seq<PlayerMessageView>,
    base: u64,
    turn: int,
    done: int,
)
    requires
        start.well_formed(),
        start.pending.contains_key(base),
        0 <= turn <= messages.len(),
        0 <= done <= messages.len(),
        forall|k: int|
            0 <= k <= turn ==> !(#[trigger] gathered(
                start.pending[base],
                messages.take(k),
                base,
            )).complete(),
        turn < messages.len() ==> gathered(
            start.pending[base],
            messages.take(turn + 1),
            base,
        ).complete(),
    ensures
        progress(start, messages, base, turn, done),
    decreases done,
{
    let entry = start.pending[base];
    if done == 0 {
        assert(messages.take(0) =~= Seq::<PlayerMessageView>::empty());
    } else {
        lemma_progress(start, messages, base, turn, done - 1);
        let before = state_after(start, messages.take(done - 1));
        let message = messages[done - 1];
        let now = state_after(start, messages.take(done));
        assert(messages.take(done).drop_last() =~= messages.take(done - 1));
        assert(messages.take(done).last() == message);
        assert(now == before.after(message));
        lemma_gathered_keeps_id(entry, messages.take(done - 1), base);
        lemma_gathered_keeps_id(entry, messages.take(done), base);
        assert(gathered(entry, messages.take(done), base) == gathered_one(
            gathered(entry, messages.take(done - 1), base),
            message,
            base,
        ));
        assert(published_at(start, messages, done - 1) == before.published(message));
        if done - 1 < turn {
            assert(!gathered(entry, messages.take(done), base).complete());
            assert(!gathered(entry, messages.take(done - 1), base).complete());
            assert(!publishes_id(start, messages, done - 1, entry.id)) by {
                if let PlayerMessageView::Response { request_id, data, .. } = message {
                    if before.reaches(request_id, data) && block_of(request_id) != base {
                        assert(before.pending.contains_key(block_of(request_id)));
                        assert(before.pending.contains_key(base));
                    }
                }
            }
        } else if done - 1 == turn {
            assert(!gathered(entry, messages.take(turn), base).complete());
            assert(gathered(entry, messages.take(turn + 1), base).complete());
            assert(answers_block(message, base));
            assert forall|other: u64| #[trigger]
                now.pending.contains_key(other) implies now.pending[other].id != entry.id by {
                assert(before.pending.contains_key(other));
                assert(before.pending.contains_key(base));
            }
        } else {
            assert(!publishes_id(start, messages, done - 1, entry.id));
            assert forall|other: u64| #[trigger]
                now.pending.contains_key(other) implies now.pending[other].id != entry.id by {
                if before.pending.contains_key(other) {
                } else {
                }
            }
        }
        assert forall|i: int| 0 <= i < done && i != turn implies !publishes_id(
            start,
            messages,
            i,
            entry.id,
        ) by {
            if i < done - 1 {
            }
        }
    }
}

/// While an occurrence has an empty slot, it waits with exactly what its
/// own answers brought, and no subtitle with its id is published,
/// whatever other messages come in between.
pub proof fn lemma_waits_with_its_own_answers(
    start: AssemblerView,
    messages: Seq<PlayerMessageView>,
    base: u64,
)
    requires
        start.well_formed(),
        start.pending.contains_key(base),
        forall|k: int|
            0 <= k <= messages.len() ==> !(#[trigger] gathered(
                start.pending[base],
                messages.take(k),
                base,
            )).complete(),
    ensures
        state_after(start, messages).pending.contains_key(base),
        state_after(start, messages).pending[base] == gathered(start.pending[base], messages, base),
        forall|i: int|
            0 <= i < messages.len() ==> !publishes_id(start, messages, i, start.pending[base].id),
{
    let n = messages.len() as int;
    lemma_progress(start, messages, base, n, n);
    assert(messages.take(n) =~= messages);
}

/// An occurrence leaves exactly once: at the first message that fills its
/// last empty slot. That message publishes it, with what its own answers
/// brought, if the four answers fit their slots; if one does not, it
/// publishes nothing. No other message, before or after, publishes a
/// subtitle with the occurrence's id, and after that message the
/// occurrence waits no more.
pub proof fn lemma_published_exactly_once(
    start: AssemblerView,
    messages: Seq<PlayerMessageView>,
    base: u64,
    turn: int,
)
    requires
        start.well_formed(),
        start.pending.contains_key(base),
        0 <= turn < messages.len(),
        forall|k: int|
            0 <= k <= turn ==> !(#[trigger] gathered(
                start.pending[base],
                messages.take(k),
                base,
            )).complete(),
        gathered(start.pending[base], messages.take(turn + 1), base).complete(),
    ensures
        published_at(start, messages, turn) == outcome(
            gathered(start.pending[base], messages.take(turn + 1), base),
        ),
        forall|i: int|
            0 <= i < messages.len() && i != turn ==> !publishes_id(
                start,
                messages,
                i,
                start.pending[base].id,
            ),
        !state_after(start, messages).pending.contains_key(base),
{
    let n = messages.len() as int;
    lemma_progress(start, messages, base, turn, n);
    assert(messages.take(n) =~= messages);
}

/// What a new occurrence has gathered after the first `done` messages,
/// when the answer for each slot stands at its position in `positions`.
spec fn gathered_so_far(
    entry: PendingView,
    positions: Seq<int>,
    answers: Seq<PropertyValueView>,
    done: int,
) -> PendingView {
    PendingView {
        id: entry.id,
        text: entry.text,
        sub_start: if positions[0] < done {
            Some(answers[0])
        } else {
            None
        },
        sub_end: if positions[1] < done {
            Some(answers[1])
        } else {
            None
        },
        media_path: if positions[2] < done {
            Some(answers[2])
        } else {
            None
        },
        aid: if positions[3] < done {
            Some(answers[3])
        } else {
            None
        },
    }
}

/// Whether `messages` holds, for the new occurrence of the block at
/// `base`, one fitting answer for each of the four slots, at the places
/// that `positions` gives, and no other answer for that block.
pub open spec fn answered_once_each(
    messages: Seq<PlayerMessageView>,
    base: u64,
    positions: Seq<int>,
    answers: Seq<PropertyValueView>,
) -> bool {
    &&& positions.len() == 4
    &&& answers.len() == 4
    &&& forall|slot: int|
        0 <= slot < 4 ==> {
            &&& 0 <= #[trigger] positions[slot] < messages.len()
            &&& messages[positions[slot]] matches PlayerMessageView::Response {
                request_id,
                data,
                ..
            } && request_id == base + slot && data == Some(answers[slot])
            &&& answers[slot].fits(slot)
        }
    &&& forall|i: int|
        0 <= i < messages.len() && i != positions[0] && i != positions[1] && i != positions[2] && i
            != positions[3] ==> !answers_block(#[trigger] messages[i], base)
}

/// The request id `base + slot` lies in the block at `base`, at `slot`.
proof fn lemma_block_and_slot(base: u64, slot: int)
    requires
        base % REQUEST_BLOCK == 0,
        0 <= slot < 4,
        base + slot <= u64::MAX,
    ensures
        block_of((base + slot) as u64) == base,
        slot_of((base + slot) as u64) == slot,
{
}

/// The answer at the place `positions[slot]` fills the slot `slot`.
proof fn lemma_answer_fills(
    held: PendingView,
    messages: Seq<PlayerMessageView>,
    base: u64,
    positions: Seq<int>,
    answers: Seq<PropertyValueView>,
    slot: int,
)
    requires
        base % REQUEST_BLOCK == 0,
        answered_once_each(messages, base, positions, answers),
        0 <= slot < 4,
    ensures
        0 <= positions[slot] < messages.len(),
        answers[slot].fits(slot),
        gathered_one(held, messages[positions[slot]], base) == held.with_response(
            slot,
            answers[slot],
        ),
{
    let message = messages[positions[slot]];
    assert(0 <= positions[slot] < messages.len());
    assert(message matches PlayerMessageView::Response { request_id, data, .. } && request_id
        == base + slot && data == Some(answers[slot]));
    lemma_block_and_slot(base, slot);
}

/// No two slots have their answer at the same place.
proof fn lemma_positions_differ(
    messages: Seq<PlayerMessageView>,
    base: u64,
    positions: Seq<int>,
    answers: Seq<PropertyValueView>,
    one: int,
    other: int,
)
    requires
        answered_once_each(messages, base, positions, answers),
        0 <= one < 4,
        0 <= other < 4,
        one != other,
    ensures
        positions[one] != positions[other],
{
    let a = messages[positions[one]];
    let b = messages[positions[other]];
    assert(a matches PlayerMessageView::Response { request_id, .. } && request_id == base + one);
    assert(b matches PlayerMessageView::Response { request_id, .. } && request_id == base + other);
}

proof fn lemma_gathered_so_far(
    entry: PendingView,
    messages: Seq<PlayerMessageView>,
    base: u64,
    positions: Seq<int>,
    answers: Seq<PropertyValueView>,
    done: int,
)
    requires
        base % REQUEST_BLOCK == 0,
        entry == PendingView::fresh(entry.id, entry.text),
        answered_once_each(messages, base, positions, answers),
        0 <= done <= messages.len(),
    ensures
        gathered(entry, messages.take(done), base) == gathered_so_far(
            entry,
            positions,
            answers,
            done,
        ),
    decreases done,
{
    lemma_answer_fills(entry, messages, base, positions, answers, 0);
    lemma_answer_fills(entry, messages, base, positions, answers, 1);
    lemma_answer_fills(entry, messages, base, positions, answers, 2);
    lemma_answer_fills(entry, messages, base, positions, answers, 3);
    if done == 0 {
        assert(messages.take(0) =~= Seq::<PlayerMessageView>::empty());
    } else {
        let i = done - 1;
        let held = gathered_so_far(entry, positions, answers, i);
        let next = gathered_so_far(entry, positions, answers, done);
        lemma_gathered_so_far(entry, messages, base, positions, answers, i);
        assert(messages.take(done).drop_last() =~= messages.take(i));
        assert(messages.take(done).last() == messages[i]);
        assert(gathered(entry, messages.take(done), base) == gathered_one(held, messages[i], base));
        lemma_positions_differ(messages, base, positions, answers, 0, 1);
        lemma_positions_differ(messages, base, positions, answers, 0, 2);
        lemma_positions_differ(messages, base, positions, answers, 0, 3);
        lemma_positions_differ(messages, base, positions, answers, 1, 2);
        lemma_positions_differ(messages, base, positions, answers, 1, 3);
        lemma_positions_differ(messages, base, positions, answers, 2, 3);
        if i == positions[0] {
            lemma_answer_fills(held, messages, base, positions, answers, 0);
            assert(held.with_response(0, answers[0]) == next);
        } else if i == positions[1] {
            lemma_answer_fills(held, messages, base, positions, answers, 1);
            assert(held.with_response(1, answers[1]) == next);
        } else if i == positions[2] {
            lemma_answer_fills(held, messages, base, positions, answers, 2);
            assert(held.with_response(2, answers[2]) == next);
        } else if i == positions[3] {
            lemma_answer_fills(held, messages, base, positions, answers, 3);
            assert(held.with_response(3, answers[3]) == next);
        } else {
            assert(!answers_block(messages[i], base));
            assert(gathered_one(held, messages[i], base) == held);
            assert(held == next);
        }
    }
}

/// Four fitting answers, one for each slot of a new occurrence, complete
/// it in whatever order they arrive and whatever else arrives between
/// them: the last of the four to arrive publishes the subtitle, which
/// holds the occurrence's own id and text and the four answered values;
/// no other message publishes a subtitle with that id; and the occurrence
/// waits no more.
pub proof fn lemma_four_answers_in_any_order(
    start: AssemblerView,
    messages: Seq<PlayerMessageView>,
    base: u64,
    positions: Seq<int>,
    answers: Seq<PropertyValueView>,
)
    requires
        start.well_formed(),
        start.pending.contains_key(base),
        start.pending[base] == PendingView::fresh(start.pending[base].id, start.pending[base].text),
        answered_once_each(messages, base, positions, answers),
    ensures
        0 <= latest(positions) < messages.len(),
        published_at(start, messages, latest(positions)) == Some(
            assembled(start.pending[base].id, start.pending[base].text, answers),
        ),
        forall|i: int|
            0 <= i < messages.len() && i != latest(positions) ==> !publishes_id(
                start,
                messages,
                i,
                start.pending[base].id,
            ),
        !state_after(start, messages).pending.contains_key(base),
{
    let entry = start.pending[base];
    let turn = latest(positions);
    assert(0 <= positions[0] && 0 <= positions[1] && 0 <= positions[2] && 0 <= positions[3]);
    assert forall|k: int| 0 <= k <= turn implies !(#[trigger] gathered(
        entry,
        messages.take(k),
        base,
    )).complete() by {
        lemma_gathered_so_far(entry, messages, base, positions, answers, k);
    }
    lemma_gathered_so_far(entry, messages, base, positions, answers, turn + 1);
    assert(answers[0].fits(0) && answers[1].fits(1) && answers[2].fits(2) && answers[3].fits(3));
    lemma_published_exactly_once(start, messages, base, turn);
}

} // verus!
