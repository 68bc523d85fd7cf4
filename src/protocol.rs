use vstd::prelude::*;
use crate::connection::{brings_socket, effects, next_state, EffectView, EventView, State};
use crate::messages::{AppInputView, UIMessageView};

verus! {

/// The state after the events `evs`, in order, from state `s`.
pub open spec fn run(s: State, evs: Seq<EventView>) -> State
    decreases evs.len(),
{
    if evs.len() == 0 {
        s
    } else {
        next_state(run(s, evs.drop_last()), evs.last())
    }
}

/// The number of sockets in the connection slot in state `s`.
pub open spec fn held(s: State) -> int {
    if s is Connected {
        1
    } else {
        0
    }
}

/// `Connected` with the turn on the local side.
pub open spec fn turn_local() -> State {
    State::Connected { ours_to_send: true }
}

/// `Connected` with the turn on the peer's side.
pub open spec fn turn_remote() -> State {
    State::Connected { ours_to_send: false }
}

/// Whether `ev` is a sentence submitted by the presentation actor.
pub open spec fn is_submit(ev: EventView) -> bool {
    ev matches EventView::Command(AppInputView::Input(_))
}

/// Whether handling `ev` in state `s` writes to the peer.
pub open spec fn writes(s: State, ev: EventView) -> bool {
    exists|i: int| 0 <= i < effects(s, ev).len() && (#[trigger] effects(s, ev)[i]) is Write
}

/// Whether `ev` is a read that found the connection closed by the peer.
pub open spec fn peer_closed(ev: EventView) -> bool {
    ev matches EventView::Read(b) && b.len() == 0
}

/// Whether `ev` is one of the two events that may hand the turn to the
/// local side: data from the peer, or an inbound connection.
pub open spec fn gives_turn(ev: EventView) -> bool {
    ||| ev matches EventView::Read(b) && b.len() > 0
    ||| ev is Accepted
}

/// Whether handling `ev` in state `s` puts a new socket into the slot.
pub open spec fn adopts(s: State, ev: EventView) -> bool {
    effects(s, ev).contains(EffectView::Adopt)
}

/// Whether handling `ev` in state `s` closes the socket that just arrived.
pub open spec fn refuses(s: State, ev: EventView) -> bool {
    effects(s, ev).contains(EffectView::Refuse)
}

/// Whether handling `ev` in state `s` closes the socket in the slot.
pub open spec fn releases(s: State, ev: EventView) -> bool {
    effects(s, ev).contains(EffectView::Release)
}

/// The change in the number of held sockets that the effects of `ev` in
/// state `s` make: one more for a socket put into the slot, one less for a
/// socket released from it.
pub open spec fn slot_change(s: State, ev: EventView) -> int {
    (if adopts(s, ev) {
        1int
    } else {
        0
    }) - (if releases(s, ev) {
        1int
    } else {
        0
    })
}

/// The slot never holds two sockets. A socket that arrives is either put
/// into an empty slot or closed at once; a socket that arrives while one is
/// held is closed and changes nothing; the slot is emptied only from
/// `Connected`, which it leaves; and the count of held sockets follows the
/// effects exactly.
pub proof fn lemma_single_occupancy(s: State, ev: EventView)
    ensures
        held(next_state(s, ev)) <= 1,
        held(next_state(s, ev)) == held(s) + slot_change(s, ev),
        adopts(s, ev) ==> (s is Waiting && brings_socket(ev)),
        brings_socket(ev) ==> adopts(s, ev) != refuses(s, ev),
        !brings_socket(ev) ==> !adopts(s, ev) && !refuses(s, ev),
        releases(s, ev) ==> (s is Connected && next_state(s, ev) is Waiting),
        (s is Connected && brings_socket(ev)) ==> next_state(s, ev) == s && refuses(s, ev),
{
    let effs = effects(s, ev);
    if effs.len() > 0 {
        assert(effs.contains(effs[0]));
    }
    if effs.len() > 2 {
        assert(effs.contains(effs[2]));
    }
}

/// The number of sockets held after the events `evs` from state `s`, counted
/// by the effects alone.
pub open spec fn held_by_effects(s: State, evs: Seq<EventView>) -> int
    decreases evs.len(),
{
    if evs.len() == 0 {
        held(s)
    } else {
        held_by_effects(s, evs.drop_last()) + slot_change(run(s, evs.drop_last()), evs.last())
    }
}

/// Along any sequence of events, a loop that carries out the effects holds
/// exactly the sockets that the state says, so never more than one.
pub proof fn lemma_single_occupancy_run(s: State, evs: Seq<EventView>)
    ensures
        held_by_effects(s, evs) == held(run(s, evs)),
        held_by_effects(s, evs) <= 1,
    decreases evs.len(),
{
    if evs.len() > 0 {
        let front = evs.drop_last();
        lemma_single_occupancy_run(s, front);
        lemma_single_occupancy(run(s, front), evs.last());
    }
}

/// A write to the peer happens exactly on a sentence submitted in
/// `Connected` while the turn is local, and it hands the turn away.
pub proof fn lemma_write_needs_turn(s: State, ev: EventView)
    ensures
        writes(s, ev) <==> (s == turn_local() && is_submit(ev)),
        writes(s, ev) ==> next_state(s, ev) == turn_remote(),
{
    let effs = effects(s, ev);
    if s == turn_local() && is_submit(ev) {
        assert(effs[0] is Write);
    }
}

/// The turn becomes local only through data from the peer or an inbound
/// connection taken while waiting.
pub proof fn lemma_turn_source(s: State, ev: EventView)
    ensures
        next_state(s, ev) == turn_local() ==> (s == turn_local() && !writes(s, ev)) || (
        s is Connected && gives_turn(ev) && (ev is Read)) || (s is Waiting && (ev is Accepted)),
{
    lemma_write_needs_turn(s, ev);
}

/// From a state where the turn is not local, no event sequence without data
/// from the peer or an inbound connection leads to a write.
pub proof fn lemma_no_write_without_turn(s: State, evs: Seq<EventView>)
    requires
        s != turn_local(),
        forall|i: int| 0 <= i < evs.len() ==> !gives_turn(#[trigger] evs[i]),
    ensures
        forall|i: int| 0 <= i < evs.len() ==> !writes(#[trigger] run(s, evs.take(i)), evs[i]),
        run(s, evs) != turn_local(),
    decreases evs.len(),
{
    if evs.len() > 0 {
        let front = evs.drop_last();
        assert forall|i: int| 0 <= i < front.len() implies !gives_turn(#[trigger] front[i]) by {
            assert(front[i] == evs[i]);
        }
        lemma_no_write_without_turn(s, front);
        assert(evs.take(evs.len() as int) =~= evs);
        assert forall|i: int| 0 <= i < evs.len() implies !writes(
            #[trigger] run(s, evs.take(i)),
            evs[i],
        ) by {
            if i < front.len() {
                assert(evs.take(i) =~= front.take(i));
                assert(front[i] == evs[i]);
            } else {
                assert(evs.take(i) =~= front);
                assert(front.take(front.len() as int) =~= front);
                lemma_write_needs_turn(run(s, front), evs[i]);
            }
        }
        let last = run(s, front);
        assert(front.take(front.len() as int) =~= front);
        assert(!gives_turn(evs[evs.len() - 1]));
        lemma_turn_source(last, evs.last());
    }
}

/// After a sentence is written, no further sentence is written until the
/// peer sends data or an inbound connection begins a new session.
pub proof fn lemma_no_two_writes_in_a_row(s: State, first: EventView, evs: Seq<EventView>)
    requires
        writes(s, first),
        forall|i: int| 0 <= i < evs.len() ==> !gives_turn(#[trigger] evs[i]),
    ensures
        forall|i: int|
            0 <= i < evs.len() ==> !writes(#[trigger] run(next_state(s, first), evs.take(i)), evs[i]),
{
    lemma_write_needs_turn(s, first);
    lemma_no_write_without_turn(next_state(s, first), evs);
}

/// `Connected` is entered only from `Waiting` through an accepted or dialed
/// socket, and `Waiting` is entered only from `Connected` through the peer
/// closing or a transport error.
pub proof fn lemma_reachability(s: State, ev: EventView)
    ensures
        s is Waiting && next_state(s, ev) is Connected ==> ev is Accepted || ev is Dialed,
        s is Connected && next_state(s, ev) is Waiting ==> (ev is Failed || peer_closed(ev)),
{
}

/// A sentence accepted for sending gives exactly one write and then exactly
/// one local echo of the same text, and nothing else; no other event writes.
pub proof fn lemma_submit_fidelity(s: State, t: Seq<char>)
    ensures
        s == turn_local() ==> effects(s, EventView::Command(AppInputView::Input(t))) == seq![
            EffectView::Write(t),
            EffectView::Notify(UIMessageView::SentenceSent(t)),
        ],
        forall|ev: EventView| #[trigger] writes(s, ev) ==> s == turn_local() && is_submit(ev),
{
    assert forall|ev: EventView| #[trigger] writes(s, ev) implies s == turn_local() && is_submit(
        ev,
    ) by {
        lemma_write_needs_turn(s, ev);
    }
}

/// Closing the command channel stops the loop at once, in any state, and
/// does nothing else; no other event stops it.
pub proof fn lemma_shutdown(s: State, ev: EventView)
    ensures
        effects(s, EventView::CommandsClosed) == seq![EffectView::Stop],
        next_state(s, EventView::CommandsClosed) == s,
        ev !is CommandsClosed ==> !effects(s, ev).contains(EffectView::Stop),
{
    let effs = effects(s, ev);
    if effs.len() > 0 {
        assert(effs.contains(effs[0]));
    }
}

} // verus!
