//! What holds of whole runs of the orchestrator: hosts are tried in the
//! order of the configuration, the first host that is accepted ends the run,
//! and a run in which every host is given up ends with the last host's error.

use vstd::prelude::*;
use crate::config::Config;
use crate::connect::{
    accepted, attempt_step, begin_attempt, connect_spec, give_up, step_spec, ActionView, Event,
    ProgressView, Stage, State, VerdictView,
};
use crate::error::ConnectError;

verus! {

/// The progress after `events` have been reported one after the other,
/// starting from `progress`. Once connecting is over, events change nothing.
pub open spec fn run<E>(config: Config, progress: ProgressView<E>, events: Seq<Event<E>>) -> ProgressView<E>
    decreases events.len(),
{
    if events.len() == 0 {
        progress
    } else {
        match progress {
            ProgressView::Pending { state, .. } => run(
                config,
                step_spec(config, state, events.first()),
                events.drop_first(),
            ),
            _ => progress,
        }
    }
}

/// How the attempt in `state` ends, where `events` are the events of that
/// attempt and of no other: `Ok` where the host is accepted, the error where
/// it is given up. `None` where the attempt is not over with the last event,
/// or was over before it.
pub open spec fn attempt_outcome<E>(config: Config, state: State, events: Seq<Event<E>>) -> Option<
    Result<(), ConnectError<E>>,
>
    decreases events.len(),
{
    if events.len() == 0 {
        None
    } else {
        match attempt_step(config, state, events.first()) {
            VerdictView::Continue { state: next, .. } => attempt_outcome(
                config,
                next,
                events.drop_first(),
            ),
            VerdictView::Accepted => if events.len() == 1 {
                Some(Ok(()))
            } else {
                None
            },
            VerdictView::Rejected(error) => if events.len() == 1 {
                Some(Err(error))
            } else {
                None
            },
        }
    }
}

/// How the attempt at the host with index `host` ends, where `events` are
/// all its events from its start.
pub open spec fn outcome_at<E>(config: Config, host: int, events: Seq<Event<E>>) -> Option<
    Result<(), ConnectError<E>>,
> {
    attempt_outcome(config, State { host: host as usize, stage: Stage::Factory }, events)
}

/// Whether the attempt at `host` is given up at the end of `events`.
pub open spec fn fails_at<E>(config: Config, host: int, events: Seq<Event<E>>) -> bool {
    outcome_at(config, host, events) matches Some(Err(_))
}

/// Whether the attempt at `host` ends at the end of `events` with the host
/// accepted.
pub open spec fn succeeds_at<E>(config: Config, host: int, events: Seq<Event<E>>) -> bool {
    outcome_at(config, host, events) == Some(Ok::<(), ConnectError<E>>(()))
}

/// The error with which the attempt at `host` is given up.
pub open spec fn failure_at<E>(config: Config, host: int, events: Seq<Event<E>>) -> ConnectError<E>
    recommends
        fails_at(config, host, events),
{
    outcome_at(config, host, events)->Some_0->Err_0
}

/// The rank of a stage in the order in which an attempt goes through them.
pub open spec fn rank(stage: Stage) -> nat {
    match stage {
        Stage::Factory => 0,
        Stage::Socket => 1,
        Stage::Security => 2,
        Stage::Protocol => 3,
        Stage::Session => 4,
    }
}

/// Whether `action` is what is asked for when an attempt enters `stage`, or,
/// in the session check, goes on in it.
pub open spec fn asks_for(stage: Stage, action: ActionView) -> bool {
    match stage {
        Stage::Factory => action is MakeConnector,
        Stage::Socket => action is ConnectSocket,
        Stage::Security => action is SecureStream,
        Stage::Protocol => action is Handshake,
        Stage::Session => action is CheckSession || action is NextMessage,
    }
}

/// The host that `action` is to be performed for.
pub open spec fn action_host(action: ActionView) -> usize {
    match action {
        ActionView::MakeConnector { host, .. } => host,
        ActionView::ConnectSocket { host } => host,
        ActionView::SecureStream { host } => host,
        ActionView::Handshake { host, .. } => host,
        ActionView::CheckSession { host } => host,
        ActionView::NextMessage { host } => host,
    }
}

/// Reporting `first` and then `rest` is reporting the two in a row.
pub proof fn lemma_run_concat<E>(
    config: Config,
    progress: ProgressView<E>,
    first: Seq<Event<E>>,
    rest: Seq<Event<E>>,
)
    ensures
        run(config, progress, first + rest) == run(config, run(config, progress, first), rest),
    decreases first.len(),
{
    if first.len() == 0 {
        assert(first + rest =~= rest);
    } else {
        assert((first + rest).first() == first.first());
        assert((first + rest).drop_first() =~= first.drop_first() + rest);
        match progress {
            ProgressView::Pending { state, .. } => {
                lemma_run_concat(
                    config,
                    step_spec(config, state, first.first()),
                    first.drop_first(),
                    rest,
                );
            },
            _ => {
                lemma_run_over(config, progress, rest);
                lemma_run_over(config, progress, first + rest);
            },
        }
    }
}

/// Once connecting is over, events change nothing.
pub proof fn lemma_run_over<E>(config: Config, progress: ProgressView<E>, events: Seq<Event<E>>)
    requires
        !(progress is Pending),
    ensures
        run(config, progress, events) == progress,
{
}

/// The events of one attempt take the orchestrator from that attempt to the
/// acceptance of its host, or to what follows when the host is given up.
pub proof fn lemma_run_attempt<E>(
    config: Config,
    state: State,
    action: ActionView,
    events: Seq<Event<E>>,
)
    requires
        attempt_outcome(config, state, events) is Some,
    ensures
        run(config, ProgressView::Pending { state, action }, events) == (match attempt_outcome(
            config,
            state,
            events,
        )->Some_0 {
            Ok(_) => accepted(state.host),
            Err(error) => give_up(config, state.host, error),
        }),
    decreases events.len(),
{
    let after = step_spec(config, state, events.first());
    match attempt_step(config, state, events.first()) {
        VerdictView::Continue { state: next, action: next_action } => {
            lemma_run_attempt(config, next, next_action, events.drop_first());
        },
        _ => {
            assert(events.drop_first().len() == 0);
            assert(run(config, after, events.drop_first()) == after);
        },
    }
}

/// Attempts at the hosts from `first` on, each but the last given up, take
/// the orchestrator from the start of the attempt at `first` to what the
/// last of them ends in.
proof fn lemma_run_attempts<E>(config: Config, first: int, attempts: Seq<Seq<Event<E>>>)
    requires
        0 <= first,
        attempts.len() >= 1,
        first + attempts.len() <= config.host.len(),
        forall|j: int| 0 <= j < attempts.len() - 1 ==> fails_at(config, first + j, #[trigger] attempts[j]),
        outcome_at(config, first + attempts.len() - 1, attempts.last()) is Some,
    ensures
        run(config, begin_attempt(config, first as usize), attempts.flatten()) == (match outcome_at(
            config,
            first + attempts.len() - 1,
            attempts.last(),
        )->Some_0 {
            Ok(_) => accepted((first + attempts.len() - 1) as usize),
            Err(error) => give_up(config, (first + attempts.len() - 1) as usize, error),
        }),
    decreases attempts.len(),
{
    let start = begin_attempt::<E>(config, first as usize);
    let state = State { host: first as usize, stage: Stage::Factory };
    let head = attempts.first();
    let tail = attempts.drop_first();
    assert(attempts.flatten() == head + tail.flatten());
    lemma_run_concat(config, start, head, tail.flatten());
    if attempts.len() == 1 {
        assert(tail.flatten() =~= Seq::<Event<E>>::empty());
        lemma_run_attempt(config, state, start->action, head);
    } else {
        assert(fails_at(config, first + 0, attempts[0]));
        lemma_run_attempt(config, state, start->action, head);
        assert(tail.last() == attempts.last());
        assert forall|j: int| 0 <= j < tail.len() - 1 implies fails_at(
            config,
            first + 1 + j,
            #[trigger] tail[j],
        ) by {
            assert(tail[j] == attempts[j + 1]);
        }
        lemma_run_attempts(config, first + 1, tail);
    }
}

/// Hosts are tried in order, and the first one that is accepted ends the
/// run: where the attempts at the first hosts are given up and the one after
/// them is accepted, the run ends connected to that host, and whatever is
/// reported after that changes nothing.
pub proof fn law_first_accepted_host_ends_the_run<E>(
    config: Config,
    attempts: Seq<Seq<Event<E>>>,
    more: Seq<Event<E>>,
)
    requires
        config.spec_validate() is Ok,
        1 <= attempts.len() <= config.host.len(),
        forall|j: int| 0 <= j < attempts.len() - 1 ==> fails_at(config, j, #[trigger] attempts[j]),
        succeeds_at(config, attempts.len() - 1, attempts.last()),
    ensures
        run(config, connect_spec(config), attempts.flatten()) == accepted::<E>(
            (attempts.len() - 1) as usize,
        ),
        run(config, connect_spec(config), attempts.flatten() + more) == accepted::<E>(
            (attempts.len() - 1) as usize,
        ),
{
    lemma_run_attempts(config, 0, attempts);
    lemma_run_concat(config, connect_spec(config), attempts.flatten(), more);
}

/// Where the attempt at every host is given up, the run ends with the error
/// of the attempt at the last host, whatever the errors before it were.
pub proof fn law_last_error_is_reported<E>(config: Config, attempts: Seq<Seq<Event<E>>>)
    requires
        config.spec_validate() is Ok,
        attempts.len() == config.host.len(),
        forall|j: int| 0 <= j < attempts.len() ==> fails_at(config, j, #[trigger] attempts[j]),
    ensures
        run(config, connect_spec(config), attempts.flatten()) == (ProgressView::Failed {
            error: failure_at(config, attempts.len() - 1, attempts.last()),
        }),
{
    assert(fails_at(config, attempts.len() - 1, attempts[attempts.len() - 1]));
    lemma_run_attempts(config, 0, attempts);
}

/// An attempt never goes back, and a host is never tried again: a step
/// leads to the next stage of the same attempt, stays in the session check,
/// or starts the attempt at the next host. What is asked for is what the
/// stage reached waits for, for the host reached; so each attempt asks for
/// one connector, at its start, and hands it at most one stream.
pub proof fn law_attempts_never_go_back<E>(config: Config, state: State, event: Event<E>)
    ensures
        step_spec(config, state, event) matches ProgressView::Pending { state: next, action } ==> {
            &&& asks_for(next.stage, action)
            &&& action_host(action) == next.host
            &&& {
                ||| next.host == state.host && rank(next.stage) == rank(state.stage) + 1
                ||| next == state && state.stage == Stage::Session && action is NextMessage
                ||| next.host == state.host + 1 && next.stage == Stage::Factory
            }
        },
{
}

} // verus!
