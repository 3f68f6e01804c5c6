//! Whole runs of a session: what a sequence of events leads to, and what holds of every run.

use crate::error::MediaPipelineError;
use crate::main_loop::{Action, BusError, BusMessage, Command, Event, Phase, SessionModel};
use crate::main_loop::{SessionState, StopPolicy};
use vstd::prelude::*;

verus! {

/// The kinds of action, without what an action carries.
pub enum ActionKind {
    InjectEos,
    SendStopped,
    Report,
    QuitLoop,
    Teardown,
    StopListening,
}

/// The kind of an action.
pub open spec fn kind_of(action: Action) -> ActionKind {
    match action {
        Action::InjectEos => ActionKind::InjectEos,
        Action::SendStopped => ActionKind::SendStopped,
        Action::Report(_) => ActionKind::Report,
        Action::QuitLoop => ActionKind::QuitLoop,
        Action::Teardown => ActionKind::Teardown,
        Action::StopListening => ActionKind::StopListening,
    }
}

/// How many of the actions are of the kind.
pub open spec fn count(actions: Seq<Action>, kind: ActionKind) -> nat
    decreases actions.len(),
{
    if actions.len() == 0 {
        0
    } else {
        let first: nat = if kind_of(actions[0]) == kind {
            1
        } else {
            0
        };
        first + count(actions.drop_first(), kind)
    }
}

/// How many of the events are a `Stop` command.
pub open spec fn count_stops(events: Seq<Event>) -> nat
    decreases events.len(),
{
    if events.len() == 0 {
        0
    } else {
        let first: nat = if events[0] == Event::Command(Command::Stop) {
            1
        } else {
            0
        };
        first + count_stops(events.drop_first())
    }
}

/// Whether the event is a bus message that ends the run loop.
pub open spec fn is_terminal(event: Event) -> bool {
    event matches Event::Bus(message) && !(message is Other)
}

/// Whether none of the events is a `Stop` command or a bus message that ends the run loop.
pub open spec fn quiet(events: Seq<Event>) -> bool {
    forall|i: int|
        0 <= i < events.len() ==> !is_terminal(#[trigger] events[i]) && events[i]
            != Event::Command(Command::Stop)
}

/// Whether every `SendStopped` among the actions comes after an `InjectEos`, where
/// `injected` says whether one came before the first of the actions.
pub open spec fn stopped_follows_eos(actions: Seq<Action>, injected: bool) -> bool
    decreases actions.len(),
{
    if actions.len() == 0 {
        true
    } else {
        match actions[0] {
            Action::InjectEos => stopped_follows_eos(actions.drop_first(), true),
            Action::SendStopped => injected && stopped_follows_eos(actions.drop_first(), injected),
            _ => stopped_follows_eos(actions.drop_first(), injected),
        }
    }
}

impl SessionModel {
    /// The session after the events, first to last.
    pub open spec fn after(self, events: Seq<Event>) -> SessionModel
        decreases events.len(),
    {
        if events.len() == 0 {
            self
        } else {
            self.next(events[0]).after(events.drop_first())
        }
    }

    /// All the actions that the events call for, in the order in which they are performed.
    pub open spec fn trace(self, events: Seq<Event>) -> Seq<Action>
        decreases events.len(),
    {
        if events.len() == 0 {
            Seq::empty()
        } else {
            self.reaction(events[0]) + self.next(events[0]).trace(events.drop_first())
        }
    }

    /// Whether the teardown has begun or is done: the pipeline is out of reach for good.
    pub open spec fn closed(self) -> bool {
        !self.alive() && self.phase != Phase::Idle
    }
}

/// Counting over two stretches of actions is counting over each and adding up.
pub proof fn lemma_count_concat(front: Seq<Action>, back: Seq<Action>, kind: ActionKind)
    ensures
        count(front + back, kind) == count(front, kind) + count(back, kind),
    decreases front.len(),
{
    if front.len() == 0 {
        assert(front + back =~= back);
    } else {
        assert((front + back).drop_first() =~= front.drop_first() + back);
        lemma_count_concat(front.drop_first(), back, kind);
    }
}

/// A run over two stretches of events is the run over the first, followed by the run over
/// the second from where the first ended.
pub proof fn lemma_run_concat(model: SessionModel, front: Seq<Event>, back: Seq<Event>)
    ensures
        model.after(front + back) == model.after(front).after(back),
        model.trace(front + back) == model.trace(front) + model.after(front).trace(back),
    decreases front.len(),
{
    if front.len() == 0 {
        assert(front + back =~= back);
        assert(model.trace(front) + model.after(front).trace(back) =~= model.trace(back));
    } else {
        let next = model.next(front[0]);
        assert((front + back).drop_first() =~= front.drop_first() + back);
        lemma_run_concat(next, front.drop_first(), back);
        assert(model.trace(front + back) =~= model.trace(front) + model.after(front).trace(back));
    }
}

/// Events keep a session well formed and never change its policy.
pub proof fn lemma_run_keeps_wf(model: SessionModel, events: Seq<Event>)
    requires
        model.wf(),
    ensures
        model.after(events).wf(),
        model.after(events).policy == model.policy,
    decreases events.len(),
{
    if events.len() > 0 {
        lemma_run_keeps_wf(model.next(events[0]), events.drop_first());
    }
}

/// Dropping the first of a quiet stretch of events leaves a quiet stretch.
proof fn lemma_quiet_rest(events: Seq<Event>)
    requires
        quiet(events),
        events.len() > 0,
    ensures
        quiet(events.drop_first()),
        !is_terminal(events[0]),
        events[0] != Event::Command(Command::Stop),
{
    let rest = events.drop_first();
    assert forall|i: int| 0 <= i < rest.len() implies !is_terminal(#[trigger] rest[i]) && rest[i]
        != Event::Command(Command::Stop) by {
        assert(rest[i] == events[i + 1]);
    }
}

/// Once the teardown has begun it stays begun, and nothing is asked of the pipeline, the
/// run loop or the caller any more: end-of-stream is not injected, `Stopped` is not sent,
/// the loop is not quit again and the pipeline is not torn down a second time.
pub proof fn law_closed_stays_closed(model: SessionModel, events: Seq<Event>)
    requires
        model.closed(),
    ensures
        model.after(events).closed(),
        count(model.trace(events), ActionKind::InjectEos) == 0,
        count(model.trace(events), ActionKind::SendStopped) == 0,
        count(model.trace(events), ActionKind::Report) == 0,
        count(model.trace(events), ActionKind::QuitLoop) == 0,
        count(model.trace(events), ActionKind::Teardown) == 0,
    decreases events.len(),
{
    if events.len() > 0 {
        let first = model.reaction(events[0]);
        let next = model.next(events[0]);
        let rest = next.trace(events.drop_first());
        law_closed_stays_closed(next, events.drop_first());
        lemma_count_concat(first, rest, ActionKind::InjectEos);
        lemma_count_concat(first, rest, ActionKind::SendStopped);
        lemma_count_concat(first, rest, ActionKind::Report);
        lemma_count_concat(first, rest, ActionKind::QuitLoop);
        lemma_count_concat(first, rest, ActionKind::Teardown);
        reveal_with_fuel(count, 3);
    }
}

/// While the run loop is active, events other than `Stop` and the terminal bus messages
/// leave it active, keep an outstanding `Stop` outstanding, and neither answer the caller
/// nor tear the pipeline down.
pub proof fn lemma_quiet_run(model: SessionModel, events: Seq<Event>)
    requires
        model.alive(),
        quiet(events),
    ensures
        model.after(events).alive(),
        model.after(events).stop_pending == model.stop_pending,
        model.after(events).policy == model.policy,
        count(model.trace(events), ActionKind::SendStopped) == 0,
        count(model.trace(events), ActionKind::Teardown) == 0,
    decreases events.len(),
{
    if events.len() > 0 {
        lemma_quiet_rest(events);
        let first = model.reaction(events[0]);
        let next = model.next(events[0]);
        let rest = next.trace(events.drop_first());
        lemma_quiet_run(next, events.drop_first());
        lemma_count_concat(first, rest, ActionKind::SendStopped);
        lemma_count_concat(first, rest, ActionKind::Teardown);
        reveal_with_fuel(count, 3);
    }
}

/// `Stopped` is sent at most once for each `Stop`: over any run, the `Stopped` sent are no
/// more than the `Stop` received, counting one that was outstanding when the run began.
pub proof fn lemma_stopped_bounded(model: SessionModel, events: Seq<Event>)
    requires
        model.wf(),
    ensures
        count(model.trace(events), ActionKind::SendStopped) <= count_stops(events) + (
        if model.stop_pending {
            1nat
        } else {
            0nat
        }),
    decreases events.len(),
{
    if events.len() > 0 {
        let first = model.reaction(events[0]);
        let next = model.next(events[0]);
        let rest = next.trace(events.drop_first());
        lemma_stopped_bounded(next, events.drop_first());
        lemma_count_concat(first, rest, ActionKind::SendStopped);
        reveal_with_fuel(count, 4);
    }
}

/// Never more than one `Stopped` for a `Stop`: in every run of a session, from its start,
/// the `Stopped` sent are no more than the `Stop` received.
pub proof fn law_no_more_stopped_than_stops(policy: StopPolicy, events: Seq<Event>)
    ensures
        count(SessionModel::fresh(policy).trace(events), ActionKind::SendStopped) <= count_stops(
            events,
        ),
{
    lemma_stopped_bounded(SessionModel::fresh(policy), events);
}

/// Under the immediate policy a `Stop` that arrives while the run loop is active is answered
/// in the same step, after end-of-stream was injected, by exactly one `Stopped`.
pub proof fn law_immediate_stop_answered(model: SessionModel)
    requires
        model.alive(),
        model.policy == StopPolicy::Immediate,
    ensures
        model.reaction(Event::Command(Command::Stop)) == seq![
            Action::InjectEos,
            Action::SendStopped,
        ],
        model.next(Event::Command(Command::Stop)).state() == SessionState::Stopping,
{
}

/// A run over a single event is one step.
pub proof fn lemma_single_event(model: SessionModel, event: Event)
    ensures
        model.after(seq![event]) == model.next(event),
        model.trace(seq![event]) == model.reaction(event),
{
    let events = seq![event];
    assert(events.drop_first() =~= Seq::<Event>::empty());
    reveal_with_fuel(SessionModel::after, 2);
    reveal_with_fuel(SessionModel::trace, 2);
    assert(model.trace(events) =~= model.reaction(event));
}

/// How many `Stopped` one step sends: one for a `Stop` under the immediate policy, one for
/// an end-of-stream message when a `Stop` is outstanding, each only while the run loop is
/// active, and none otherwise.
pub proof fn lemma_stopped_in_step(model: SessionModel, event: Event)
    ensures
        count(model.reaction(event), ActionKind::SendStopped) == (if model.alive() && ((event
            == Event::Command(Command::Stop) && model.policy == StopPolicy::Immediate) || (event
            == Event::Bus(BusMessage::EndOfStream) && model.stop_pending)) {
            1nat
        } else {
            0nat
        }),
{
    reveal_with_fuel(count, 4);
}

/// From an active run loop, an end-of-stream message answers an outstanding `Stop` once,
/// and whatever follows adds nothing.
proof fn lemma_answered_at_end_of_stream(model: SessionModel, later: Seq<Event>)
    requires
        model.alive(),
    ensures
        count(
            model.trace(seq![Event::Bus(BusMessage::EndOfStream)] + later),
            ActionKind::SendStopped,
        ) == (if model.stop_pending {
            1nat
        } else {
            0nat
        }),
{
    let event = Event::Bus(BusMessage::EndOfStream);
    let next = model.next(event);
    lemma_single_event(model, event);
    lemma_stopped_in_step(model, event);
    lemma_run_concat(model, seq![event], later);
    law_closed_stays_closed(next, later);
    lemma_count_concat(model.reaction(event), next.trace(later), ActionKind::SendStopped);
}

/// From an active run loop, a `Stop` followed, after a quiet stretch, by the end-of-stream
/// message is answered exactly once.
proof fn lemma_stop_then_end_of_stream(
    model: SessionModel,
    between: Seq<Event>,
    later: Seq<Event>,
)
    requires
        model.alive(),
        model.wf(),
        quiet(between),
    ensures
        count(
            model.trace(
                seq![Event::Command(Command::Stop)] + (between + (seq![
                    Event::Bus(BusMessage::EndOfStream),
                ] + later)),
            ),
            ActionKind::SendStopped,
        ) == 1,
{
    let stop = Event::Command(Command::Stop);
    let tail = seq![Event::Bus(BusMessage::EndOfStream)] + later;
    let kind = ActionKind::SendStopped;
    let stopping = model.next(stop);
    let waiting = stopping.after(between);
    lemma_single_event(model, stop);
    lemma_stopped_in_step(model, stop);
    lemma_run_concat(model, seq![stop], between + tail);
    lemma_count_concat(model.reaction(stop), stopping.trace(between + tail), kind);
    lemma_run_concat(stopping, between, tail);
    lemma_quiet_run(stopping, between);
    lemma_count_concat(stopping.trace(between), waiting.trace(tail), kind);
    lemma_answered_at_end_of_stream(waiting, later);
}

/// Exactly one `Stopped` for a single `Stop`: when a started session receives one `Stop`
/// while its run loop is active and end-of-stream is then seen on the bus, exactly one
/// `Stopped` is sent over the whole run, under either policy and whatever happens after
/// the end-of-stream message.
pub proof fn law_single_stop_answered_once(
    policy: StopPolicy,
    before: Seq<Event>,
    between: Seq<Event>,
    later: Seq<Event>,
)
    requires
        quiet(before),
        quiet(between),
    ensures
        count(
            SessionModel::fresh(policy).trace(
                seq![Event::Started] + before + seq![Event::Command(Command::Stop)] + between
                    + seq![Event::Bus(BusMessage::EndOfStream)] + later,
            ),
            ActionKind::SendStopped,
        ) == 1,
{
    let fresh = SessionModel::fresh(policy);
    let kind = ActionKind::SendStopped;
    let tail = seq![Event::Command(Command::Stop)] + (between + (seq![
        Event::Bus(BusMessage::EndOfStream),
    ] + later));
    let events = seq![Event::Started] + before + seq![Event::Command(Command::Stop)] + between
        + seq![Event::Bus(BusMessage::EndOfStream)] + later;
    assert(events =~= seq![Event::Started] + (before + tail));
    let playing = fresh.next(Event::Started);
    let ready = playing.after(before);
    lemma_single_event(fresh, Event::Started);
    lemma_stopped_in_step(fresh, Event::Started);
    lemma_run_concat(fresh, seq![Event::Started], before + tail);
    lemma_count_concat(fresh.reaction(Event::Started), playing.trace(before + tail), kind);
    lemma_run_concat(playing, before, tail);
    lemma_quiet_run(playing, before);
    lemma_run_keeps_wf(playing, before);
    lemma_count_concat(playing.trace(before), ready.trace(tail), kind);
    lemma_stop_then_end_of_stream(ready, between, later);
}

/// Scanning two stretches of actions one after the other is scanning the first and then the
/// second, which starts with an injection behind it if the first held one.
pub proof fn lemma_follows_concat(front: Seq<Action>, back: Seq<Action>, injected: bool)
    ensures
        stopped_follows_eos(front + back, injected) == (stopped_follows_eos(front, injected)
            && stopped_follows_eos(back, injected || count(front, ActionKind::InjectEos) > 0)),
    decreases front.len(),
{
    if front.len() == 0 {
        assert(front + back =~= back);
    } else {
        assert((front + back).drop_first() =~= front.drop_first() + back);
        let seen = injected || front[0] == Action::InjectEos;
        lemma_follows_concat(front.drop_first(), back, seen);
        lemma_follows_concat(front.drop_first(), back, injected);
    }
}

/// What is in order without an injection before it is in order with one.
pub proof fn lemma_follows_weaken(actions: Seq<Action>)
    requires
        stopped_follows_eos(actions, false),
    ensures
        stopped_follows_eos(actions, true),
    decreases actions.len(),
{
    if actions.len() > 0 {
        if actions[0] != Action::InjectEos {
            lemma_follows_weaken(actions.drop_first());
        }
    }
}

/// In actions that are in order, each `SendStopped` has an `InjectEos` at an earlier place,
/// unless one came before the first of the actions.
pub proof fn lemma_follows_means_preceded(actions: Seq<Action>, injected: bool)
    requires
        stopped_follows_eos(actions, injected),
    ensures
        forall|i: int|
            0 <= i < actions.len() && #[trigger] actions[i] == Action::SendStopped ==> injected
                || exists|j: int| 0 <= j < i && #[trigger] actions[j] == Action::InjectEos,
    decreases actions.len(),
{
    if actions.len() > 0 {
        let rest = actions.drop_first();
        let seen = injected || actions[0] == Action::InjectEos;
        lemma_follows_means_preceded(rest, seen);
        assert forall|i: int|
            0 <= i < actions.len() && #[trigger] actions[i] == Action::SendStopped implies injected
            || exists|j: int| 0 <= j < i && #[trigger] actions[j] == Action::InjectEos by {
            if i > 0 && !injected {
                assert(rest[i - 1] == actions[i]);
                if actions[0] == Action::InjectEos {
                    assert(0 <= 0 < i && actions[0] == Action::InjectEos);
                } else {
                    let j = choose|j: int| 0 <= j < i - 1 && #[trigger] rest[j] == Action::InjectEos;
                    assert(actions[j + 1] == rest[j]);
                    assert(0 <= j + 1 < i && actions[j + 1] == Action::InjectEos);
                }
            }
        }
    }
}

/// Over any run of a well-formed session the actions are in order, given that a session in
/// the stopping phase has an injection behind it.
pub proof fn lemma_run_in_order(model: SessionModel, events: Seq<Event>)
    requires
        model.wf(),
    ensures
        stopped_follows_eos(model.trace(events), model.phase == Phase::Stopping),
    decreases events.len(),
{
    if events.len() > 0 {
        let first = model.reaction(events[0]);
        let next = model.next(events[0]);
        let rest = next.trace(events.drop_first());
        let injected = model.phase == Phase::Stopping;
        lemma_run_in_order(next, events.drop_first());
        lemma_follows_concat(first, rest, injected);
        assert(stopped_follows_eos(first, injected)) by {
            reveal_with_fuel(stopped_follows_eos, 4);
        }
        assert(next.phase == Phase::Stopping ==> injected || count(first, ActionKind::InjectEos)
            > 0) by {
            reveal_with_fuel(count, 4);
        }
        if !(next.phase == Phase::Stopping) && (injected || count(first, ActionKind::InjectEos)
            > 0) {
            lemma_follows_weaken(rest);
        }
    }
}

/// No premature completion: in every run of a session, from its start and under either
/// policy, each `Stopped` that is sent comes after an injection of end-of-stream.
pub proof fn law_stopped_follows_injection(policy: StopPolicy, events: Seq<Event>)
    ensures
        ({
            let actions = SessionModel::fresh(policy).trace(events);
            forall|i: int|
                0 <= i < actions.len() && #[trigger] actions[i] == Action::SendStopped
                    ==> exists|j: int| 0 <= j < i && #[trigger] actions[j] == Action::InjectEos
        }),
{
    let fresh = SessionModel::fresh(policy);
    lemma_run_in_order(fresh, events);
    lemma_follows_means_preceded(fresh.trace(events), false);
}

/// Whether none of the events is the end-of-stream message of the bus.
pub open spec fn no_end_of_stream(events: Seq<Event>) -> bool {
    forall|i: int|
        0 <= i < events.len() ==> #[trigger] events[i] != Event::Bus(BusMessage::EndOfStream)
}

/// Under the confirmed policy no run without an end-of-stream message sends `Stopped`.
pub proof fn lemma_confirmed_run_waits(model: SessionModel, events: Seq<Event>)
    requires
        model.policy == StopPolicy::Confirmed,
        no_end_of_stream(events),
    ensures
        count(model.trace(events), ActionKind::SendStopped) == 0,
    decreases events.len(),
{
    if events.len() > 0 {
        let rest = events.drop_first();
        assert forall|i: int| 0 <= i < rest.len() implies #[trigger] rest[i] != Event::Bus(
            BusMessage::EndOfStream,
        ) by {
            assert(rest[i] == events[i + 1]);
        }
        assert(events[0] != Event::Bus(BusMessage::EndOfStream));
        let next = model.next(events[0]);
        lemma_confirmed_run_waits(next, rest);
        lemma_stopped_in_step(model, events[0]);
        lemma_count_concat(model.reaction(events[0]), next.trace(rest), ActionKind::SendStopped);
    }
}

/// No premature completion, strictly: under the confirmed policy `Stopped` is never sent
/// before the bus has delivered the end-of-stream message. As long as the events hold no
/// such message, no `Stopped` is sent.
pub proof fn law_confirmed_waits_for_end_of_stream(events: Seq<Event>)
    requires
        no_end_of_stream(events),
    ensures
        count(SessionModel::fresh(StopPolicy::Confirmed).trace(events), ActionKind::SendStopped)
            == 0,
{
    lemma_confirmed_run_waits(SessionModel::fresh(StopPolicy::Confirmed), events);
}

/// Over any run the pipeline is torn down at most once, and not at all once the teardown
/// has begun.
pub proof fn lemma_teardown_bounded(model: SessionModel, events: Seq<Event>)
    ensures
        count(model.trace(events), ActionKind::Teardown) <= (if model.closed() {
            0nat
        } else {
            1nat
        }),
    decreases events.len(),
{
    if model.closed() {
        law_closed_stays_closed(model, events);
    } else if events.len() > 0 {
        let first = model.reaction(events[0]);
        let next = model.next(events[0]);
        let rest = next.trace(events.drop_first());
        lemma_teardown_bounded(next, events.drop_first());
        lemma_count_concat(first, rest, ActionKind::Teardown);
        reveal_with_fuel(count, 4);
    }
}

/// No double teardown: in every run of a session, from its start, the pipeline is forced
/// to its inactive state at most once.
pub proof fn law_torn_down_at_most_once(policy: StopPolicy, events: Seq<Event>)
    ensures
        count(SessionModel::fresh(policy).trace(events), ActionKind::Teardown) <= 1,
{
    lemma_teardown_bounded(SessionModel::fresh(policy), events);
}

/// A session that failed stays failed, with the failure it failed with.
pub proof fn lemma_failure_sticks(model: SessionModel, events: Seq<Event>)
    requires
        model.phase == Phase::Failing || model.phase == Phase::Failed,
    ensures
        model.after(events).state() == SessionState::Failed,
        model.after(events).failure == model.failure,
    decreases events.len(),
{
    if events.len() > 0 {
        lemma_failure_sticks(model.next(events[0]), events.drop_first());
    }
}

/// An error ends the session cleanly: an error message that the bus delivers while the run
/// loop is active is reported, ends the loop and tears the pipeline down in that one step.
/// Whatever follows, the pipeline is torn down exactly once over the run, the loop is quit
/// exactly once, no `Stopped` is sent, and the session stays failed with the error of the
/// message.
pub proof fn law_error_ends_session(model: SessionModel, error: BusError, later: Seq<Event>)
    requires
        model.alive(),
    ensures
        ({
            let events = seq![Event::Bus(BusMessage::Error(error))] + later;
            let failed = model.next(Event::Bus(BusMessage::Error(error)));
            &&& model.trace(events) == seq![Action::Report(error), Action::QuitLoop, Action::Teardown]
                + failed.trace(later)
            &&& count(model.trace(events), ActionKind::Teardown) == 1
            &&& count(model.trace(events), ActionKind::QuitLoop) == 1
            &&& count(model.trace(events), ActionKind::SendStopped) == 0
            &&& count(model.trace(events), ActionKind::InjectEos) == 0
            &&& model.after(events).state() == SessionState::Failed
            &&& model.after(events).failure == Some(MediaPipelineError::GlibError(error.message))
        }),
{
    let event = Event::Bus(BusMessage::Error(error));
    let failed = model.next(event);
    let first = model.reaction(event);
    lemma_single_event(model, event);
    lemma_run_concat(model, seq![event], later);
    law_closed_stays_closed(failed, later);
    lemma_failure_sticks(failed, later);
    lemma_count_concat(first, failed.trace(later), ActionKind::Teardown);
    lemma_count_concat(first, failed.trace(later), ActionKind::QuitLoop);
    lemma_count_concat(first, failed.trace(later), ActionKind::SendStopped);
    lemma_count_concat(first, failed.trace(later), ActionKind::InjectEos);
    reveal_with_fuel(count, 4);
}

/// How a session ends once the teardown is confirmed: with `Ok` after an end-of-stream
/// message, with the error of the message after an error message.
pub proof fn law_result_after_teardown(model: SessionModel, error: BusError)
    requires
        model.alive(),
        model.wf(),
    ensures
        model.next(Event::Bus(BusMessage::EndOfStream)).next(Event::TornDown).result() == Some(
            Ok::<(), MediaPipelineError>(()),
        ),
        model.next(Event::Bus(BusMessage::Error(error))).next(Event::TornDown).result() == Some(
            Err::<(), MediaPipelineError>(MediaPipelineError::GlibError(error.message)),
        ),
{
}

} // verus!
