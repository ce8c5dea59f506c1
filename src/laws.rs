//! What holds of every run of a session, over any sequence of events.
use vstd::prelude::*;
use crate::config::{example_token, parse_error_text};
use crate::session::{reply_text, transition, ActionView, EventView, Phase};

verus! {

/// The phase reached and the actions asked for when a session in `phase`
/// takes in `events` in order, one action per event.
pub open spec fn run(phase: Phase, events: Seq<EventView>) -> (Phase, Seq<ActionView>)
    decreases events.len(),
{
    if events.len() == 0 {
        (phase, Seq::empty())
    } else {
        let (next, action) = transition(phase, events[0]);
        let (last, rest) = run(next, events.drop_first());
        (last, seq![action] + rest)
    }
}

/// Whether an action reaches the messaging service.
pub open spec fn uses_network(action: ActionView) -> bool {
    action is LogIn || action is Serve || action is Reply
}

/// How many logins a sequence of actions asks for.
pub open spec fn login_count(actions: Seq<ActionView>) -> nat
    decreases actions.len(),
{
    if actions.len() == 0 {
        0
    } else {
        (if actions[0] is LogIn { 1nat } else { 0nat }) + login_count(actions.drop_first())
    }
}

/// The reply that answers a message event.
pub open spec fn reply_to(event: EventView) -> ActionView {
    ActionView::Reply { chat_id: event->MessageReceived_chat_id, text: reply_text() }
}

proof fn lemma_run_len(phase: Phase, events: Seq<EventView>)
    ensures
        run(phase, events).1.len() == events.len(),
    decreases events.len(),
{
    if events.len() > 0 {
        lemma_run_len(transition(phase, events[0]).0, events.drop_first());
    }
}

proof fn lemma_login_count_prefix(a: ActionView, rest: Seq<ActionView>, i: int)
    requires
        1 <= i <= rest.len() + 1,
    ensures
        login_count((seq![a] + rest).take(i)) == (if a is LogIn { 1nat } else { 0nat })
            + login_count(rest.take(i - 1)),
{
    let s = (seq![a] + rest).take(i);
    assert(s[0] == a);
    assert(s.drop_first() =~= rest.take(i - 1));
}

proof fn lemma_login_count_cons(a: ActionView, rest: Seq<ActionView>)
    ensures
        login_count(seq![a] + rest) == (if a is LogIn { 1nat } else { 0nat }) + login_count(
            rest,
        ),
{
    let s = seq![a] + rest;
    assert(s[0] == a);
    assert(s.drop_first() =~= rest);
}

/// Once stopped, a session asks for nothing more.
pub proof fn lemma_stopped_stays_quiet(events: Seq<EventView>)
    ensures
        run(Phase::Stopped, events).0 == Phase::Stopped,
        run(Phase::Stopped, events).1.len() == events.len(),
        forall|i: int|
            0 <= i < events.len() ==> #[trigger] run(Phase::Stopped, events).1[i]
                == ActionView::Ignore,
    decreases events.len(),
{
    lemma_run_len(Phase::Stopped, events);
    if events.len() > 0 {
        lemma_stopped_stays_quiet(events.drop_first());
        let rest = run(Phase::Stopped, events.drop_first()).1;
        assert forall|i: int| 0 <= i < events.len() implies #[trigger] run(
            Phase::Stopped,
            events,
        ).1[i] == ActionView::Ignore by {
            if i > 0 {
                assert(run(Phase::Stopped, events).1[i] == rest[i - 1]);
            }
        }
    }
}

/// Without a configuration file, the session shows the example
/// configuration, stops, and never reaches the messaging service, whatever
/// is reported afterwards.
pub proof fn lemma_missing_config_stays_offline(events: Seq<EventView>)
    requires
        events.len() > 0,
        events[0] == EventView::ConfigMissing,
    ensures
        run(Phase::AwaitingConfig, events).1[0] == (ActionView::ShowExample {
            token: example_token(),
        }),
        run(Phase::AwaitingConfig, events).0 == Phase::Stopped,
        forall|i: int|
            0 <= i < events.len() ==> !uses_network(
                #[trigger] run(Phase::AwaitingConfig, events).1[i],
            ),
{
    lemma_stopped_stays_quiet(events.drop_first());
    let rest = run(Phase::Stopped, events.drop_first()).1;
    assert forall|i: int| 0 <= i < events.len() implies !uses_network(
        #[trigger] run(Phase::AwaitingConfig, events).1[i],
    ) by {
        if i > 0 {
            assert(run(Phase::AwaitingConfig, events).1[i] == rest[i - 1]);
        }
    }
}

/// With a configuration file that does not parse, the session shows the
/// parser's fault, stops, and never reaches the messaging service, whatever
/// is reported afterwards.
pub proof fn lemma_invalid_config_stays_offline(events: Seq<EventView>, error: Seq<char>)
    requires
        events.len() > 0,
        events[0] == (EventView::ConfigInvalid { error }),
    ensures
        run(Phase::AwaitingConfig, events).1[0] == (ActionView::Stop {
            notice: parse_error_text(error),
        }),
        run(Phase::AwaitingConfig, events).0 == Phase::Stopped,
        forall|i: int|
            0 <= i < events.len() ==> !uses_network(
                #[trigger] run(Phase::AwaitingConfig, events).1[i],
            ),
{
    lemma_stopped_stays_quiet(events.drop_first());
    let rest = run(Phase::Stopped, events.drop_first()).1;
    assert forall|i: int| 0 <= i < events.len() implies !uses_network(
        #[trigger] run(Phase::AwaitingConfig, events).1[i],
    ) by {
        if i > 0 {
            assert(run(Phase::AwaitingConfig, events).1[i] == rest[i - 1]);
        }
    }
}

/// How many logins a session in `phase` may still ask for: one while it
/// waits for its configuration, none once the login has been asked for.
spec fn logins_left(phase: Phase) -> nat {
    if phase == Phase::AwaitingConfig { 1 } else { 0 }
}

proof fn lemma_logins_on_run(phase: Phase, events: Seq<EventView>)
    ensures
        login_count(run(phase, events).1) <= logins_left(phase),
        forall|i: int|
            0 <= i < events.len() && (#[trigger] run(phase, events).1[i] is Serve || run(
                phase,
                events,
            ).1[i] is Reply) ==> phase != Phase::Stopped && login_count(
                run(phase, events).1.take(i),
            ) == logins_left(phase),
    decreases events.len(),
{
    if events.len() > 0 {
        let (next, a) = transition(phase, events[0]);
        let rest = run(next, events.drop_first()).1;
        let actions = run(phase, events).1;
        lemma_run_len(next, events.drop_first());
        lemma_logins_on_run(next, events.drop_first());
        lemma_login_count_cons(a, rest);
        assert forall|i: int|
            0 <= i < events.len() && (#[trigger] actions[i] is Serve || actions[i] is Reply)
                implies phase != Phase::Stopped && login_count(actions.take(i)) == logins_left(
            phase,
        ) by {
            if i == 0 {
                assert(actions.take(0) =~= Seq::<ActionView>::empty());
            } else {
                assert(actions[i] == rest[i - 1]);
                lemma_login_count_prefix(a, rest, i);
            }
        }
    }
}

/// A session asks to log in at most once, and only after that login does it
/// start serving or send any reply. A configuration that parsed is answered
/// at once with a login under its token.
pub proof fn lemma_single_login_before_serving(events: Seq<EventView>)
    ensures
        login_count(run(Phase::AwaitingConfig, events).1) <= 1,
        forall|i: int|
            0 <= i < events.len() && (#[trigger] run(Phase::AwaitingConfig, events).1[i] is Serve
                || run(Phase::AwaitingConfig, events).1[i] is Reply) ==> login_count(
                run(Phase::AwaitingConfig, events).1.take(i),
            ) == 1,
        events.len() > 0 && events[0] is ConfigLoaded ==> run(Phase::AwaitingConfig, events).1[0]
            == (ActionView::LogIn { token: events[0]->ConfigLoaded_token }),
{
    lemma_logins_on_run(Phase::AwaitingConfig, events);
}

/// While serving, every message is answered by exactly one reply, sent to
/// the chat it came from and carrying the fixed reply text, and the session
/// goes on serving.
pub proof fn lemma_serving_answers_every_message(events: Seq<EventView>)
    requires
        forall|i: int| 0 <= i < events.len() ==> #[trigger] events[i] is MessageReceived,
    ensures
        run(Phase::Serving, events).0 == Phase::Serving,
        run(Phase::Serving, events).1 == events.map_values(|e: EventView| reply_to(e)),
    decreases events.len(),
{
    if events.len() > 0 {
        let tail = events.drop_first();
        assert forall|i: int| 0 <= i < tail.len() implies #[trigger] tail[i] is MessageReceived by {
            assert(tail[i] == events[i + 1]);
        }
        lemma_serving_answers_every_message(tail);
        assert(run(Phase::Serving, events).1 =~= events.map_values(|e: EventView| reply_to(e)));
    }
}

} // verus!
