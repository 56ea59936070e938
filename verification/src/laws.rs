//! What holds of every session, stated over the transition of the machine.

use crate::context::{lemma_transcript_push, transcript_of, turn_block, Turn};
use crate::response::{classification_of, ClassificationView, RawResultView};
use crate::session::{
    initial, is_consistent, is_live, next, ActionView, EventView, Phase, SessionView,
};
use vstd::prelude::*;

verus! {

/// One exchange as the outside saw it: the line that was read and what the
/// transport brought back for it.
pub struct Exchange {
    pub line: Seq<char>,
    pub raw: RawResultView,
}

/// Whether the exchange brought an answer.
pub open spec fn succeeded(x: Exchange) -> bool {
    classification_of(x.raw) is Success
}

/// The turn that a successful exchange completes.
pub open spec fn turn_of(x: Exchange) -> Turn {
    Turn { input: x.line, response: classification_of(x.raw)->Success_0 }
}

/// The state after one whole exchange: the line is read, the transport
/// returns, and the answer or the error is shown.
pub open spec fn exchange(s: SessionView, x: Exchange) -> SessionView {
    let sent = next(s, EventView::Line(x.line)).0;
    let answered = next(sent, EventView::Reply(x.raw)).0;
    next(answered, EventView::Rendered).0
}

/// The state after the exchanges `xs`, in their order.
pub open spec fn converse(s: SessionView, xs: Seq<Exchange>) -> SessionView
    decreases xs.len(),
{
    if xs.len() == 0 {
        s
    } else {
        exchange(converse(s, xs.drop_last()), xs.last())
    }
}

/// The turns that the successful ones among `xs` complete, in their order.
pub open spec fn turns_of(xs: Seq<Exchange>) -> Seq<Turn> {
    xs.filter(|x: Exchange| succeeded(x)).map_values(|x: Exchange| turn_of(x))
}

/// The state after the events `events`, in their order.
pub open spec fn run(s: SessionView, events: Seq<EventView>) -> SessionView
    decreases events.len(),
{
    if events.len() == 0 {
        s
    } else {
        run(next(s, events.first()).0, events.drop_first())
    }
}

/// How often the caller is told to save while `events` happen.
pub open spec fn saves(s: SessionView, events: Seq<EventView>) -> nat
    decreases events.len(),
{
    if events.len() == 0 {
        0
    } else {
        let step = next(s, events.first());
        let now: nat = if step.1 is Save { 1 } else { 0 };
        now + saves(step.0, events.drop_first())
    }
}

/// A successful exchange in a waiting session adds its turn's block to the
/// context and leaves the session waiting.
pub proof fn lemma_successful_exchange(s: SessionView, x: Exchange)
    requires
        s.phase == Phase::AwaitingInput,
        succeeded(x),
    ensures
        exchange(s, x) == (SessionView {
            phase: Phase::AwaitingInput,
            history: s.history + turn_block(x.line, classification_of(x.raw)->Success_0),
            pending_input: Seq::empty(),
            pending_reply: Seq::empty(),
        }),
{
}

/// A failed exchange never changes the context: the reply alone leaves it as
/// it was, and so does the whole exchange in a waiting session, which is then
/// waiting again.
pub proof fn lemma_failed_exchange_keeps_history(s: SessionView, x: Exchange)
    requires
        !succeeded(x),
    ensures
        next(s, EventView::Reply(x.raw)).0.history == s.history,
        s.phase == Phase::AwaitingInput ==> exchange(s, x).history == s.history && exchange(
            s,
            x,
        ).phase == Phase::AwaitingInput,
{
}

/// After any exchanges, failed ones among them or not, the context of a
/// session that began empty is the transcript of the turns that succeeded,
/// in the order in which they came.
pub proof fn lemma_history_is_transcript(xs: Seq<Exchange>)
    ensures
        converse(initial(), xs).history == transcript_of(turns_of(xs)),
        converse(initial(), xs).phase == Phase::AwaitingInput,
    decreases xs.len(),
{
    if xs.len() > 0 {
        let before = xs.drop_last();
        let last = xs.last();
        lemma_history_is_transcript(before);
        let s = converse(initial(), before);
        assert(xs =~= before.push(last));
        lemma_turns_of_push(before, last);
        if succeeded(last) {
            lemma_successful_exchange(s, last);
            lemma_transcript_push(turns_of(before), turn_of(last));
        } else {
            lemma_failed_exchange_keeps_history(s, last);
        }
    } else {
        assert(turns_of(xs) =~= Seq::<Turn>::empty());
    }
}

/// Where every exchange succeeded, the context after them is the ordered
/// concatenation of the blocks of all of them.
pub proof fn lemma_history_after_successes(xs: Seq<Exchange>)
    requires
        forall|i: int| 0 <= i < xs.len() ==> succeeded(#[trigger] xs[i]),
    ensures
        converse(initial(), xs).history == transcript_of(
            xs.map_values(|x: Exchange| turn_of(x)),
        ),
{
    lemma_history_is_transcript(xs);
    lemma_turns_of_successes(xs);
}

/// Where every exchange succeeded, each of them completes a turn.
pub proof fn lemma_turns_of_successes(xs: Seq<Exchange>)
    requires
        forall|i: int| 0 <= i < xs.len() ==> succeeded(#[trigger] xs[i]),
    ensures
        turns_of(xs) == xs.map_values(|x: Exchange| turn_of(x)),
    decreases xs.len(),
{
    if xs.len() > 0 {
        let before = xs.drop_last();
        lemma_turns_of_successes(before);
        assert(xs =~= before.push(xs.last()));
        lemma_turns_of_push(before, xs.last());
        assert(turns_of(xs) =~= xs.map_values(|x: Exchange| turn_of(x)));
    } else {
        assert(turns_of(xs) =~= xs.map_values(|x: Exchange| turn_of(x)));
    }
}

/// The turns of a conversation with one more exchange.
pub proof fn lemma_turns_of_push(xs: Seq<Exchange>, x: Exchange)
    ensures
        turns_of(xs.push(x)) == if succeeded(x) {
            turns_of(xs).push(turn_of(x))
        } else {
            turns_of(xs)
        },
{
    let pred = |x: Exchange| succeeded(x);
    let longer = xs.push(x);
    assert(longer.drop_last() =~= xs);
    reveal(Seq::filter);
    assert(longer.filter(pred) == if succeeded(x) {
        xs.filter(pred).push(x)
    } else {
        xs.filter(pred)
    });
    if succeeded(x) {
        assert(turns_of(longer) =~= turns_of(xs).push(turn_of(x)));
    }
}

/// A session holds the halves of a turn only while that turn is under way:
/// so it is at the start, and so it stays whatever happens.
pub proof fn lemma_consistency_is_kept(s: SessionView, events: Seq<EventView>)
    requires
        is_consistent(s),
    ensures
        is_consistent(initial()),
        is_consistent(run(s, events)),
    decreases events.len(),
{
    if events.len() > 0 {
        lemma_consistency_is_kept(next(s, events.first()).0, events.drop_first());
    }
}

/// Only two steps change the context: the one that completes a turn adds that
/// turn's block at its end, and the one that ends the session empties it.
pub proof fn lemma_history_changes(s: SessionView, e: EventView)
    ensures
        ({
            let after = next(s, e).0;
            if s.phase == Phase::Rendering && e is Rendered {
                after.history == s.history + turn_block(s.pending_input, s.pending_reply)
            } else if s.phase == Phase::ShuttingDown && e is SaveFinished {
                after.history == Seq::<char>::empty()
            } else {
                after.history == s.history
            }
        }),
{
}

/// While no turn is completed and no save is over, the context stays what it
/// was, whatever else happens: what is rendered from it then is the same text
/// each time.
pub proof fn lemma_history_kept_between_turns(s: SessionView, events: Seq<EventView>)
    requires
        forall|i: int|
            0 <= i < events.len() ==> !(#[trigger] events[i] is Rendered) && !(events[i]
                is SaveFinished),
    ensures
        run(s, events).history == s.history,
    decreases events.len(),
{
    if events.len() > 0 {
        lemma_history_changes(s, events.first());
        let rest = events.drop_first();
        assert forall|i: int| 0 <= i < rest.len() implies !(#[trigger] rest[i] is Rendered) && !(
        rest[i] is SaveFinished) by {
            assert(rest[i] == events[i + 1]);
        }
        lemma_history_kept_between_turns(next(s, events.first()).0, rest);
    }
}

/// The end of input in a waiting session has the whole context saved and
/// keeps it until the save is over; only then is the context emptied, and
/// the session ends.
pub proof fn lemma_shutdown_saves_then_clears(s: SessionView, ok: bool)
    requires
        s.phase == Phase::AwaitingInput,
    ensures
        ({
            let closing = next(s, EventView::EndOfInput);
            let closed = next(closing.0, EventView::SaveFinished(ok));
            &&& closing.1 == ActionView::Save(s.history)
            &&& closing.0.phase == Phase::ShuttingDown
            &&& closing.0.history == s.history
            &&& closed.1 == (ActionView::Exit { saved: ok })
            &&& closed.0.phase == Phase::Ended
            &&& closed.0.history == Seq::<char>::empty()
        }),
{
}

/// An interruption of a live session, wherever it stands, has the context
/// saved as it is; a turn that was not completed is not part of it.
pub proof fn lemma_interruption_saves(s: SessionView)
    requires
        is_live(s.phase),
    ensures
        next(s, EventView::Interrupted).1 == ActionView::Save(s.history),
        next(s, EventView::Interrupted).0.phase == Phase::ShuttingDown,
        next(s, EventView::Interrupted).0.history == s.history,
{
}

/// Once a session shuts down or has ended, nothing makes it save again.
pub proof fn lemma_no_save_after_shutdown(s: SessionView, events: Seq<EventView>)
    requires
        !is_live(s.phase),
    ensures
        saves(s, events) == 0,
        !is_live(run(s, events).phase),
    decreases events.len(),
{
    if events.len() > 0 {
        lemma_no_save_after_shutdown(next(s, events.first()).0, events.drop_first());
    }
}

/// Whatever happens, in whatever order, the caller is told to save at most
/// once; not at all while the session is live, and exactly once where a live
/// session has shut down or ended.
pub proof fn lemma_saves_once(s: SessionView, events: Seq<EventView>)
    requires
        is_live(s.phase),
    ensures
        saves(s, events) <= 1,
        is_live(run(s, events).phase) <==> saves(s, events) == 0,
    decreases events.len(),
{
    if events.len() > 0 {
        let step = next(s, events.first());
        if is_live(step.0.phase) {
            lemma_saves_once(step.0, events.drop_first());
        } else {
            lemma_no_save_after_shutdown(step.0, events.drop_first());
        }
    }
}

} // verus!
