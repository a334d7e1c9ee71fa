//! No request is lost, and none is settled twice: an account of every request
//! that a run takes in. The `initialize` that the proxy repeats on a new
//! connection is a request of its own here, under the id that the client gave the
//! first one. If it fails, it is held back or answered like any other, so the
//! client can be told of it under an id that was answered before.

use crate::message::{ClientMessage, RequestId, ServerMessage};
use crate::run::{end_of, is_run, law_every_run_keeps_the_invariant, Moment, Point};
use crate::session::{disconnected_text, request_ids, tells_disconnected};
use crate::step::{Action, AfterSend, AfterWrite, Event, Step};
use crate::DISCONNECTED_ERROR_CODE;
use vstd::multiset::Multiset;
use vstd::prelude::*;

verus! {

/// The ids of the requests among the messages, each as often as it occurs.
pub open spec fn requests_in(messages: Seq<ClientMessage>) -> Multiset<RequestId> {
    request_ids(messages).to_multiset()
}

/// The ids that the messages answer, in their order.
pub open spec fn reply_ids(messages: Seq<ServerMessage>) -> Seq<RequestId>
    decreases messages.len(),
{
    if messages.len() == 0 {
        Seq::empty()
    } else {
        let ids = reply_ids(messages.drop_last());
        match messages.last() {
            ServerMessage::Response { id, .. } => ids.push(id),
            ServerMessage::Error { id, .. } => ids.push(id),
            _ => ids,
        }
    }
}

/// The requests that are on their way to the server, and those that follow them.
pub open spec fn under_way(action: Action) -> Multiset<RequestId> {
    match action {
        Action::Send(outgoing) => match outgoing.after {
            AfterSend::Replay(rest) => requests_in(seq![outgoing.message]).add(requests_in(rest@)),
            _ => requests_in(seq![outgoing.message]),
        },
        Action::SendOnNew(outgoing) => requests_in(seq![outgoing.message]),
        Action::Write { after: AfterWrite::Replay(queue), .. } => requests_in(queue@),
        _ => Multiset::empty(),
    }
}

impl Point {
    /// The requests that the proxy has taken in and not settled yet.
    pub open spec fn owed(self) -> Multiset<RequestId> {
        requests_in(self.state.in_buf@).add(under_way(self.action))
    }

    /// The requests that the event brings: one of the client, or the `initialize`
    /// that the proxy repeats on a new connection.
    pub open spec fn taken_in(self, event: Event) -> Multiset<RequestId> {
        match event {
            Event::Stdin(Some(Ok(message))) => requests_in(seq![message]),
            Event::Connected(Ok(())) => match self.state.init_message {
                Some(message) => requests_in(seq![message]),
                None => Multiset::empty(),
            },
            _ => Multiset::empty(),
        }
    }
}

/// The requests of which the event says that the server has them.
pub open spec fn handed_over(event: Event) -> Multiset<RequestId> {
    match event {
        Event::Sent(outgoing, Ok(())) => requests_in(seq![outgoing.message]),
        _ => Multiset::empty(),
    }
}

/// The requests that the proxy answers itself. (What it forwards from the server
/// is no answer of its own, and neither is the news that a handshake failed:
/// that one stands in for an answer of the server.)
pub open spec fn answered(action: Action) -> Multiset<RequestId> {
    match action {
        Action::Write { messages, after } => match after {
            AfterWrite::Forwarded => Multiset::empty(),
            AfterWrite::RefusedInitialize => Multiset::empty(),
            _ => reply_ids(messages@).to_multiset(),
        },
        _ => Multiset::empty(),
    }
}

proof fn lemma_request_ids_of_both(a: Seq<ClientMessage>, b: Seq<ClientMessage>)
    ensures
        request_ids(a + b) == request_ids(a) + request_ids(b),
    decreases b.len(),
{
    if b.len() == 0 {
        assert(a + b == a);
    } else {
        lemma_request_ids_of_both(a, b.drop_last());
        assert((a + b).drop_last() == a + b.drop_last());
    }
}

proof fn lemma_requests_in_both(a: Seq<ClientMessage>, b: Seq<ClientMessage>)
    ensures
        requests_in(a + b) == requests_in(a).add(requests_in(b)),
{
    lemma_request_ids_of_both(a, b);
    vstd::seq_lib::lemma_multiset_commutative(request_ids(a), request_ids(b));
}

proof fn lemma_requests_in_queue(queue: Seq<ClientMessage>)
    requires
        queue.len() > 0,
    ensures
        requests_in(queue) == requests_in(seq![queue[0]]).add(requests_in(queue.drop_first())),
{
    assert(queue == seq![queue[0]] + queue.drop_first());
    lemma_requests_in_both(seq![queue[0]], queue.drop_first());
}

proof fn lemma_requests_in_nothing()
    ensures
        forall|messages: Seq<ClientMessage>|
            messages.len() == 0 ==> #[trigger] requests_in(messages) == Multiset::<
                RequestId,
            >::empty(),
{
    broadcast use vstd::seq_lib::group_to_multiset_ensures;

    assert forall|messages: Seq<ClientMessage>| messages.len() == 0 implies #[trigger] requests_in(
        messages,
    ) == Multiset::<RequestId>::empty() by {
        assert(request_ids(messages) == Seq::<RequestId>::empty());
        assert(request_ids(messages).to_multiset() =~= Multiset::empty());
    }
}

proof fn lemma_requests_in_one(message: ClientMessage)
    ensures
        requests_in(seq![message]) == match message {
            ClientMessage::Request { id, .. } => Multiset::singleton(id),
            _ => Multiset::empty(),
        },
{
    broadcast use vstd::seq_lib::group_to_multiset_ensures;

    let one = seq![message];
    assert(one.drop_last() == Seq::<ClientMessage>::empty());
    assert(request_ids(one.drop_last()) == Seq::<RequestId>::empty());
    if let ClientMessage::Request { id, .. } = message {
        assert(request_ids(one) == Seq::<RequestId>::empty().push(id));
        assert(request_ids(one).to_multiset() =~= Multiset::singleton(id));
    } else {
        assert(request_ids(one).to_multiset() =~= Multiset::empty());
    }
}

proof fn lemma_reply_ids_of_one(messages: Seq<ServerMessage>, id: RequestId)
    requires
        messages.len() == 1,
        match messages[0] {
            ServerMessage::Response { id: i, .. } => i == id,
            ServerMessage::Error { id: i, .. } => i == id,
            _ => false,
        },
    ensures
        reply_ids(messages).to_multiset() == Multiset::singleton(id),
{
    broadcast use vstd::seq_lib::group_to_multiset_ensures;

    assert(reply_ids(messages.drop_last()) == Seq::<RequestId>::empty());
    assert(reply_ids(messages) == Seq::<RequestId>::empty().push(id));
    assert(reply_ids(messages).to_multiset() =~= Multiset::singleton(id));
}

proof fn lemma_reply_ids_of_flush(replies: Seq<ServerMessage>, ids: Seq<RequestId>)
    requires
        tells_disconnected(replies, ids),
    ensures
        reply_ids(replies) == ids,
    decreases replies.len(),
{
    if replies.len() > 0 {
        assert forall|i: int| 0 <= i < ids.drop_last().len() implies (
        #[trigger] replies.drop_last()[i]).is_error_reply(
            ids.drop_last()[i],
            DISCONNECTED_ERROR_CODE,
            disconnected_text(),
        ) by {
            assert(replies[i].is_error_reply(
                ids[i],
                DISCONNECTED_ERROR_CODE,
                disconnected_text(),
            ));
        }
        lemma_reply_ids_of_flush(replies.drop_last(), ids.drop_last());
        assert(replies[replies.len() - 1].is_error_reply(
            ids[ids.len() - 1],
            DISCONNECTED_ERROR_CODE,
            disconnected_text(),
        ));
        assert(ids == ids.drop_last().push(ids.last()));
    }
}

/// Every request that comes in is accounted for: before and after each event,
/// what was owed and what came in is what is owed now, what the server has got
/// and what the proxy has answered itself. So no request is lost, and none is
/// settled twice, where a repeated `initialize` counts as a request of its own.
pub proof fn law_every_event_keeps_the_account(
    point: Point,
    event: Event,
    now: u128,
    step: Step,
    next: Point,
)
    requires
        point.wf(),
        point.moves(event, now, step, next),
    ensures
        point.owed().add(point.taken_in(event)) == next.owed().add(handed_over(event)).add(
            answered(step.action),
        ),
{
    broadcast use vstd::multiset::group_multiset_axioms;

    lemma_requests_in_nothing();
    if let Event::Stdin(Some(Ok(message))) = event {
        lemma_requests_in_one(message);
        lemma_requests_in_both(point.state.in_buf@, seq![message]);
        assert(point.state.in_buf@ + seq![message] == point.state.in_buf@.push(message));
    }
    if let Event::Sent(outgoing, _) = event {
        let message = outgoing.message;
        lemma_requests_in_one(message);
        lemma_requests_in_both(point.state.in_buf@, seq![message]);
        assert(point.state.in_buf@ + seq![message] == point.state.in_buf@.push(message));
        if let AfterSend::Replay(rest) = outgoing.after {
            if rest@.len() > 0 {
                lemma_requests_in_queue(rest@);
            }
        } else if point.state.in_buf@.len() > 0 {
            lemma_requests_in_queue(point.state.in_buf@);
        }
    }
    if let Event::Written(AfterWrite::Replay(queue), _) = event {
        if queue@.len() > 0 {
            lemma_requests_in_queue(queue@);
        }
    }
    if let Event::Connected(Ok(())) = event {
        if let Some(message) = point.state.init_message {
            lemma_requests_in_one(message);
        }
    }
    if let Action::Send(outgoing) = step.action {
        lemma_requests_in_one(outgoing.message);
    }
    if let Action::Write { messages, .. } = step.action {
        if messages@.len() == 1 {
            match messages@[0] {
                ServerMessage::Response { id, .. } => lemma_reply_ids_of_one(messages@, id),
                ServerMessage::Error { id, .. } => lemma_reply_ids_of_one(messages@, id),
                _ => {},
            }
        }
        if tells_disconnected(messages@, request_ids(point.state.in_buf@)) {
            lemma_reply_ids_of_flush(messages@, request_ids(point.state.in_buf@));
        }
    }
    assert(point.owed().add(point.taken_in(event)) =~= next.owed().add(handed_over(event)).add(
        answered(step.action),
    ));
}

/// A run starts with nothing owed.
pub proof fn law_nothing_is_owed_at_the_start(start: Point)
    requires
        start.state.is_started(),
        start.action is Wait,
    ensures
        start.owed() == Multiset::<RequestId>::empty(),
{
    lemma_requests_in_nothing();
    assert(start.owed() =~= Multiset::<RequestId>::empty());
}

/// The requests that come in during a run.
pub open spec fn taken_in_during(start: Point, run: Seq<Moment>) -> Multiset<RequestId>
    decreases run.len(),
{
    if run.len() == 0 {
        Multiset::empty()
    } else {
        taken_in_during(start, run.drop_last()).add(
            end_of(start, run.drop_last()).taken_in(run.last().event),
        )
    }
}

/// The requests that the server gets during a run.
pub open spec fn handed_over_during(run: Seq<Moment>) -> Multiset<RequestId>
    decreases run.len(),
{
    if run.len() == 0 {
        Multiset::empty()
    } else {
        handed_over_during(run.drop_last()).add(handed_over(run.last().event))
    }
}

/// The requests that the proxy answers itself during a run.
pub open spec fn answered_during(run: Seq<Moment>) -> Multiset<RequestId>
    decreases run.len(),
{
    if run.len() == 0 {
        Multiset::empty()
    } else {
        answered_during(run.drop_last()).add(answered(run.last().step.action))
    }
}

/// In every run, of however many events, each request that was owed at its start
/// or came in was handed to the server or answered by the proxy, once, or it is
/// still owed at the end.
pub proof fn law_every_run_keeps_the_account(start: Point, run: Seq<Moment>)
    requires
        start.wf(),
        is_run(start, run),
    ensures
        start.owed().add(taken_in_during(start, run)) == end_of(start, run).owed().add(
            handed_over_during(run),
        ).add(answered_during(run)),
    decreases run.len(),
{
    broadcast use vstd::multiset::group_multiset_axioms;

    if run.len() == 0 {
        assert(start.owed().add(taken_in_during(start, run)) =~= end_of(start, run).owed().add(
            handed_over_during(run),
        ).add(answered_during(run)));
    } else {
        let before = run.drop_last();
        let last = run.last();
        let point = end_of(start, before);
        law_every_run_keeps_the_account(start, before);
        law_every_run_keeps_the_invariant(start, before);
        law_every_event_keeps_the_account(point, last.event, last.now, last.step, last.point());
        let came = point.taken_in(last.event);
        let got = handed_over(last.event);
        let said = answered(last.step.action);
        assert forall|id: RequestId| #[trigger]
            start.owed().add(taken_in_during(start, run)).count(id) == end_of(
                start,
                run,
            ).owed().count(id) + handed_over_during(run).count(id) + answered_during(run).count(
                id,
            ) by {
            assert(point.owed().add(came).count(id) == last.point().owed().add(got).add(
                said,
            ).count(id));
            assert(start.owed().add(taken_in_during(start, before)).count(
                id,
            ) == point.owed().add(
                handed_over_during(before),
            ).add(answered_during(before)).count(id));
        }
        assert(start.owed().add(taken_in_during(start, run)) =~= end_of(start, run).owed().add(
            handed_over_during(run),
        ).add(answered_during(run)));
    }
}

} // verus!
