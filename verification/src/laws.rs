//! Laws of a subscription, stated over the model of its shared record and
//! proved from the definitions that the record's operations are specified by.

use crate::inner::ConsumerState;
use lapin_async::message::Delivery;
use std::task::Poll;
use std::task::Waker;
use vstd::prelude::*;

verus! {

/// Pushing a run of deliveries appends them to the queue in their order and
/// touches nothing else.
pub proof fn law_push_all_appends(s: ConsumerState, deliveries: Seq<Delivery>)
    ensures
        s.push_all(deliveries) == (ConsumerState { pending: s.pending + deliveries, ..s }),
    decreases deliveries.len(),
{
    if deliveries.len() == 0 {
        assert(s.pending + deliveries =~= s.pending);
    } else {
        let next = s.push(deliveries.first());
        law_push_all_appends(next, deliveries.drop_first());
        assert(next.pending + deliveries.drop_first() =~= s.pending + deliveries);
    }
}

/// A run of polls hands out the queue from its head, one delivery for each
/// poll and in the order of the queue; the polls that find the queue used up
/// all report the end of the sequence if the subscription is canceled, and
/// "not ready" if it is not.
pub proof fn law_polls_follow_the_queue(s: ConsumerState, tokens: Seq<Waker>)
    ensures
        s.outcomes(tokens).len() == tokens.len(),
        forall|i: int|
            0 <= i < tokens.len() ==> #[trigger] s.outcomes(tokens)[i] == s.outcome_at(i),
    decreases tokens.len(),
{
    if tokens.len() > 0 {
        let next = s.after_poll(tokens.first());
        let rest = tokens.drop_first();
        law_polls_follow_the_queue(next, rest);
        assert forall|i: int| 0 <= i < tokens.len() implies s.outcomes(tokens)[i] == s.outcome_at(
            i,
        ) by {
            if i > 0 {
                assert(s.outcomes(tokens)[i] == next.outcomes(rest)[i - 1]);
                assert(next.outcome_at(i - 1) == s.outcome_at(i));
            }
        }
    }
}

/// First in, first out: after the deliveries of `deliveries` have been pushed,
/// as many polls as there are deliveries queued return what was queued before
/// and then `deliveries`, each delivery once and in the order of the pushes.
pub proof fn law_fifo(s: ConsumerState, deliveries: Seq<Delivery>, tokens: Seq<Waker>)
    requires
        tokens.len() == s.pending.len() + deliveries.len(),
    ensures
        s.push_all(deliveries).outcomes(tokens) == (s.pending + deliveries).map_values(
            |d: Delivery| Poll::Ready(Some(d)),
        ),
        s.push_all(deliveries).after_polls(tokens).pending.len() == 0,
{
    let pushed = s.push_all(deliveries);
    law_push_all_appends(s, deliveries);
    law_polls_follow_the_queue(pushed, tokens);
    law_polls_shorten_the_queue(pushed, tokens);
    let handed_out = (s.pending + deliveries).map_values(|d: Delivery| Poll::Ready(Some(d)));
    assert forall|i: int| 0 <= i < tokens.len() implies pushed.outcomes(tokens)[i]
        == handed_out[i] by {
        assert(pushed.outcomes(tokens)[i] == pushed.outcome_at(i));
    }
    assert(pushed.outcomes(tokens) =~= handed_out);
}

/// A run of polls takes as many deliveries off the head of the queue as there
/// are polls, or all of them if there are fewer; the canceled flag stays as
/// it is; and a wake token is on record once one poll has run: the one that
/// was on record before, or else the token of the first poll.
pub proof fn law_polls_shorten_the_queue(s: ConsumerState, tokens: Seq<Waker>)
    ensures
        s.after_polls(tokens).pending == if tokens.len() <= s.pending.len() {
            s.pending.skip(tokens.len() as int)
        } else {
            Seq::empty()
        },
        s.after_polls(tokens).canceled == s.canceled,
        s.after_polls(tokens).task == if tokens.len() == 0 {
            s.task
        } else {
            s.after_poll(tokens.first()).task
        },
    decreases tokens.len(),
{
    if tokens.len() == 0 {
        assert(s.pending.skip(0) =~= s.pending);
    } else {
        let next = s.after_poll(tokens.first());
        let rest = tokens.drop_first();
        law_polls_shorten_the_queue(next, rest);
        if tokens.len() <= s.pending.len() {
            assert(next.pending.skip(rest.len() as int) =~= s.pending.skip(tokens.len() as int));
        }
    }
}

/// A delivery that arrives while others are queued goes behind them: the next
/// poll returns what it would have returned, and it makes no difference
/// whether the delivery arrived before that poll or after it.
pub proof fn law_push_keeps_the_order(s: ConsumerState, delivery: Delivery, token: Waker)
    requires
        s.pending.len() > 0,
    ensures
        s.push(delivery).outcome() == s.outcome(),
        s.push(delivery).after_poll(token) == s.after_poll(token).push(delivery),
{
    assert(s.pending.push(delivery).drop_first() =~= s.pending.drop_first().push(delivery));
}

/// Discarding removes everything that is queued and nothing else: the polls
/// after it return the deliveries pushed since, in their order, and none of
/// those queued before.
pub proof fn law_clear_discards(s: ConsumerState, deliveries: Seq<Delivery>, tokens: Seq<Waker>)
    requires
        tokens.len() == deliveries.len(),
    ensures
        s.clear().pending.len() == 0,
        s.clear().task == s.task,
        s.clear().canceled == s.canceled,
        s.clear().push_all(deliveries).outcomes(tokens) == deliveries.map_values(
            |d: Delivery| Poll::Ready(Some(d)),
        ),
{
    law_fifo(s.clear(), deliveries, tokens);
    assert(s.clear().pending + deliveries =~= deliveries);
}

/// After a cancel nothing is queued and no wake token is on record; every
/// poll that follows, however many, reports the end of the sequence, and the
/// subscription is still ended after them.
pub proof fn law_cancel_ends(s: ConsumerState, tokens: Seq<Waker>)
    ensures
        s.cancel().ended(),
        s.cancel().task is None,
        s.cancel().outcomes(tokens).len() == tokens.len(),
        forall|i: int|
            0 <= i < tokens.len() ==> #[trigger] s.cancel().outcomes(tokens)[i] == Poll::<
                Option<Delivery>,
            >::Ready(None),
        s.cancel().after_polls(tokens).ended(),
{
    law_polls_follow_the_queue(s.cancel(), tokens);
    law_polls_shorten_the_queue(s.cancel(), tokens);
    assert forall|i: int| 0 <= i < tokens.len() implies #[trigger] s.cancel().outcomes(tokens)[i]
        == Poll::<Option<Delivery>>::Ready(None) by {
        assert(s.cancel().outcomes(tokens)[i] == s.cancel().outcome_at(i));
    }
}

/// An ended subscription stays ended under polls, discards and cancels.
pub proof fn law_ended_is_terminal(s: ConsumerState, token: Waker)
    requires
        s.ended(),
    ensures
        s.outcome() == Poll::<Option<Delivery>>::Ready(None),
        s.after_poll(token).ended(),
        s.clear().ended(),
        s.cancel().ended(),
{
}

/// The canceled flag never goes back: whatever happens to a canceled
/// subscription, it is canceled afterwards.
pub proof fn law_canceled_stays(s: ConsumerState, delivery: Delivery, token: Waker)
    requires
        s.canceled,
    ensures
        s.push(delivery).canceled,
        s.clear().canceled,
        s.cancel().canceled,
        s.after_poll(token).canceled,
{
}

/// A poll that finds nothing queued on a subscription that is not canceled
/// returns "not ready" and leaves a wake token on record: the one that was
/// there, or else its own. A delivery that arrives next signals a token, that
/// token stays on record, and the poll after it returns the delivery.
pub proof fn law_push_wakes_the_waiting_poll(s: ConsumerState, token: Waker, delivery: Delivery)
    requires
        s.pending.len() == 0,
        !s.canceled,
    ensures
        s.outcome() == Poll::<Option<Delivery>>::Pending,
        s.after_poll(token).task == Some(
            match s.task {
                Some(earlier) => earlier,
                None => token,
            },
        ),
        s.after_poll(token).wakes(),
        s.after_poll(token).push(delivery).task == s.after_poll(token).task,
        s.after_poll(token).push(delivery).outcome() == Poll::Ready(Some(delivery)),
{
}

/// A second cancel changes nothing.
pub proof fn law_cancel_is_idempotent(s: ConsumerState)
    ensures
        s.cancel().cancel() == s.cancel(),
{
}

} // verus!
