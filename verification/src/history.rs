//! Sequences of operations on one controller, and what holds of them.
//!
//! Callers that share a controller take turns: each operation has the
//! controller to itself from its request to its reply. Whatever the order
//! in which they get their turn, what happens is one of the sequences
//! described here.

use crate::controller::{started_message, stopped_message};
use crate::error::ControlError;
use crate::launch::Platform;
use crate::lifecycle::{
    lemma_start_run, lemma_stop_run, start_run, stop_run, StartEnvironment, StartRun, StopRun,
};
use crate::paths::managed_directory_of;
use vstd::prelude::*;

verus! {

/// One operation on the controller, with what the host finds while it
/// carries the operation out.
pub enum Request<H> {
    /// A start on `platform`, during which the host finds `environment`.
    Start { platform: Platform, environment: StartEnvironment<H> },
    /// A stop, during which the operating system answers `termination`
    /// when asked to terminate a process.
    Stop { termination: Result<(), String> },
    /// A status query.
    Status,
}

/// The slot after `request` was served on a controller whose slot was
/// `slot`.
pub open spec fn slot_after_request<H>(slot: Option<H>, request: Request<H>) -> Option<H> {
    match request {
        Request::Start { platform, environment } => start_run(slot, platform, environment).slot,
        Request::Stop { termination } => stop_run(slot, termination).slot,
        Request::Status => slot,
    }
}

/// The slot after all of `requests` were served, one after the other, on a
/// controller that was idle at first.
pub open spec fn slot_after_requests<H>(requests: Seq<Request<H>>) -> Option<H>
    decreases requests.len(),
{
    if requests.len() == 0 {
        None
    } else {
        slot_after_request(slot_after_requests(requests.drop_last()), requests.last())
    }
}

/// Whether the request at `index` is a start that was answered with the
/// confirmation.
pub open spec fn successful_start_at<H>(requests: Seq<Request<H>>, index: int) -> bool {
    &&& 0 <= index < requests.len()
    &&& requests[index] matches Request::Start { platform, environment }
    &&& start_run(slot_after_requests(requests.take(index)), platform, environment).reply is Ok
}

/// The handle that the host got when it launched the managed process for a
/// start at `index`; `None` when the request there is no start or its
/// launch did not work.
pub open spec fn launched_at<H>(requests: Seq<Request<H>>, index: int) -> Option<H> {
    match requests[index] {
        Request::Start { environment, .. } => match environment.launched {
            Ok(handle) => Some(handle),
            Err(_) => None,
        },
        _ => None,
    }
}

/// Whether the request at `index` is the last start that was answered with
/// the confirmation.
pub open spec fn most_recent_successful_start<H>(requests: Seq<Request<H>>, index: int) -> bool {
    &&& successful_start_at(requests, index)
    &&& forall|later: int| index < later < requests.len() ==> !successful_start_at(requests, later)
}

/// Whether no stop was requested after the request at `index`.
pub open spec fn no_stop_after<H>(requests: Seq<Request<H>>, index: int) -> bool {
    forall|later: int| index < later < requests.len() ==> !(#[trigger] requests[later] is Stop)
}

/// An environment in which a start on an idle controller goes through: the
/// executable is located, its location has a parent, the managed directory
/// exists and the launch works.
pub open spec fn start_can_succeed<H>(environment: StartEnvironment<H>) -> bool {
    &&& environment.located matches Ok(executable)
    &&& managed_directory_of(executable) is Some
    &&& environment.directory_exists
    &&& environment.launched is Ok
}

/// The number of launches that the host was told to make while it served
/// `requests`, one after the other, on a controller that was idle at first.
pub open spec fn launches_during<H>(requests: Seq<Request<H>>) -> nat
    decreases requests.len(),
{
    if requests.len() == 0 {
        0
    } else {
        launches_during(requests.drop_last()) + match requests.last() {
            Request::Start { platform, environment } => start_run(
                slot_after_requests(requests.drop_last()),
                platform,
                environment,
            ).launches,
            _ => 0,
        }
    }
}

/// Serving the requests before `index` of a sequence that is cut off after
/// `index` is serving those before `index` of the whole sequence.
proof fn lemma_prefix_of_prefix<H>(requests: Seq<Request<H>>, index: int)
    requires
        0 <= index < requests.len(),
    ensures
        requests.drop_last().take(index) == requests.take(index),
        requests.take(requests.len() - 1) == requests.drop_last(),
{
    assert(requests.drop_last().take(index) =~= requests.take(index));
    assert(requests.take(requests.len() - 1) =~= requests.drop_last());
}

/// Whether a start at `index` was answered with the confirmation does not
/// depend on what was requested later.
proof fn lemma_successful_start_in_prefix<H>(requests: Seq<Request<H>>, index: int)
    requires
        0 <= index < requests.len() - 1,
    ensures
        successful_start_at(requests.drop_last(), index) == successful_start_at(requests, index),
{
    lemma_prefix_of_prefix(requests, index);
}

/// Whether the request at `index` is the most recent start that was
/// answered with the confirmation and no stop was requested after it.
pub open spec fn started_and_not_stopped<H>(requests: Seq<Request<H>>, index: int) -> bool {
    most_recent_successful_start(requests, index) && no_stop_after(requests, index)
}

/// A last request that is neither a stop nor a start answered with the
/// confirmation changes nothing about which earlier start is the most
/// recent one and whether a stop followed it.
proof fn lemma_last_request_without_effect<H>(requests: Seq<Request<H>>, index: int)
    requires
        0 <= index < requests.len() - 1,
        !(requests.last() is Stop),
        !successful_start_at(requests, requests.len() - 1),
    ensures
        started_and_not_stopped(requests.drop_last(), index) == started_and_not_stopped(
            requests,
            index,
        ),
{
    let earlier = requests.drop_last();
    lemma_successful_start_in_prefix(requests, index);
    assert forall|later: int| index < later < earlier.len() implies successful_start_at(
        earlier,
        later,
    ) == successful_start_at(requests, later) by {
        lemma_successful_start_in_prefix(requests, later);
    }
    if started_and_not_stopped(earlier, index) {
        assert forall|later: int| index < later < requests.len() implies !(
        #[trigger] requests[later] is Stop) by {
            if later < earlier.len() {
                assert(!(earlier[later] is Stop));
            }
        }
    }
    if started_and_not_stopped(requests, index) {
        assert forall|later: int| index < later < earlier.len() implies !(
        #[trigger] earlier[later] is Stop) by {
            assert(!(requests[later] is Stop));
        }
    }
}

/// After any sequence of operations on a controller that was idle at
/// first, the slot is occupied if and only if the most recent start that
/// was answered with the confirmation has not been followed by a stop
/// request, whether that stop was answered with its confirmation or not.
/// The slot then holds the handle that this start launched.
pub proof fn lemma_occupied_iff_started_and_not_stopped<H>(requests: Seq<Request<H>>)
    ensures
        slot_after_requests(requests) is Some <==> exists|index: int|
            started_and_not_stopped(requests, index),
        forall|index: int|
            started_and_not_stopped(requests, index) ==> launched_at(requests, index) is Some
                && slot_after_requests(requests) == launched_at(requests, index),
    decreases requests.len(),
{
    if requests.len() > 0 {
        let earlier = requests.drop_last();
        let last_index = requests.len() - 1;
        let before = slot_after_requests(earlier);
        lemma_occupied_iff_started_and_not_stopped(earlier);
        lemma_prefix_of_prefix(requests, last_index);
        if let Request::Start { platform, environment } = requests.last() {
            lemma_start_run(before, platform, environment);
        }
        if let Request::Stop { termination } = requests.last() {
            lemma_stop_run(before, termination);
            assert forall|index: int| !started_and_not_stopped(requests, index) by {
                if 0 <= index < last_index && no_stop_after(requests, index) {
                    assert(!(requests[last_index] is Stop));
                }
            }
        } else if successful_start_at(requests, last_index) {
            assert(started_and_not_stopped(requests, last_index));
            assert forall|index: int| started_and_not_stopped(requests, index) implies index
                == last_index by {}
        } else {
            assert(slot_after_requests(requests) == before);
            assert forall|index: int| 0 <= index < last_index implies started_and_not_stopped(
                earlier,
                index,
            ) == started_and_not_stopped(requests, index) by {
                lemma_last_request_without_effect(requests, index);
            }
            if before is Some {
                let index = choose|index: int| started_and_not_stopped(earlier, index);
                assert(started_and_not_stopped(requests, index));
            }
        }
    }
}

/// A start that follows a start answered with the confirmation is refused
/// with `AlreadyRunning`, whatever the host would find: the slot keeps its
/// handle and the host is not told to launch again, so the two starts
/// launch one process between them.
pub proof fn lemma_second_start_is_refused<H>(
    slot: Option<H>,
    first_platform: Platform,
    first: StartEnvironment<H>,
    second_platform: Platform,
    second: StartEnvironment<H>,
)
    requires
        start_run(slot, first_platform, first).reply is Ok,
    ensures
        ({
            let first_run = start_run(slot, first_platform, first);
            let second_run = start_run(first_run.slot, second_platform, second);
            &&& first_run.launches == 1
            &&& second_run.reply == Err::<Seq<char>, ControlError>(ControlError::AlreadyRunning)
            &&& second_run.slot == first_run.slot
            &&& second_run.launches == 0
        }),
{
    lemma_start_run(slot, first_platform, first);
    lemma_start_run(start_run(slot, first_platform, first).slot, second_platform, second);
}

/// A stop on an idle controller is refused with `NotRunning`; the slot
/// stays empty and the host is not told to terminate anything.
pub proof fn lemma_stop_when_idle<H>(termination: Result<(), String>)
    ensures
        stop_run(None::<H>, termination) == (StopRun {
            slot: None::<H>,
            reply: Err(ControlError::NotRunning),
            terminated: Seq::<H>::empty(),
        }),
{
    lemma_stop_run(None::<H>, termination);
}

/// After a start answered with the confirmation the controller is running:
/// the slot holds the handle that the host launched, and it held none
/// before.
pub proof fn lemma_running_after_start<H>(
    slot: Option<H>,
    platform: Platform,
    environment: StartEnvironment<H>,
)
    requires
        start_run(slot, platform, environment).reply is Ok,
    ensures
        slot is None,
        environment.launched is Ok,
        start_run(slot, platform, environment).slot == Some(environment.launched->Ok_0),
        start_run(slot, platform, environment).reply == Ok::<Seq<char>, ControlError>(
            started_message(),
        ),
{
    lemma_start_run(slot, platform, environment);
}

/// A start on an idle controller whose managed directory is missing fails
/// with `DirectoryNotFound` and the path that was looked for; the slot
/// stays empty and the host is not told to launch.
pub proof fn lemma_start_without_directory<H>(
    platform: Platform,
    environment: StartEnvironment<H>,
)
    requires
        environment.located is Ok,
        managed_directory_of(environment.located->Ok_0) is Some,
        !environment.directory_exists,
    ensures
        start_run(None::<H>, platform, environment) == (StartRun {
            slot: None::<H>,
            reply: Err(
                ControlError::DirectoryNotFound(
                    managed_directory_of(environment.located->Ok_0)->Some_0,
                ),
            ),
            launches: 0,
        }),
{
    lemma_start_run(None::<H>, platform, environment);
}

/// A start that fails leaves the slot as it was, whatever the reason.
pub proof fn lemma_failed_start_keeps_slot<H>(
    slot: Option<H>,
    platform: Platform,
    environment: StartEnvironment<H>,
)
    requires
        start_run(slot, platform, environment).reply is Err,
    ensures
        start_run(slot, platform, environment).slot == slot,
{
    lemma_start_run(slot, platform, environment);
}

/// A stop that follows a start answered with the confirmation is never
/// refused: the host is told to terminate the process that the start
/// launched, the stop is answered with its confirmation if the termination
/// worked and with `TerminationError` if not, and either way the controller
/// is idle afterwards.
pub proof fn lemma_stop_after_start<H>(
    slot: Option<H>,
    platform: Platform,
    environment: StartEnvironment<H>,
    termination: Result<(), String>,
)
    requires
        start_run(slot, platform, environment).reply is Ok,
    ensures
        ({
            let stop = stop_run(start_run(slot, platform, environment).slot, termination);
            &&& stop.slot is None
            &&& stop.terminated == seq![environment.launched->Ok_0]
            &&& termination is Ok ==> stop.reply == Ok::<Seq<char>, ControlError>(
                stopped_message(),
            )
            &&& termination is Err ==> stop.reply == Err::<Seq<char>, ControlError>(
                ControlError::TerminationError(termination->Err_0),
            )
        }),
{
    lemma_start_run(slot, platform, environment);
    lemma_stop_run(start_run(slot, platform, environment).slot, termination);
}

/// Whether every request in `requests` is a start in an environment in
/// which a start on an idle controller goes through.
pub open spec fn all_starts_that_can_succeed<H>(requests: Seq<Request<H>>) -> bool {
    forall|index: int|
        0 <= index < requests.len() ==> (#[trigger] requests[index] matches Request::Start {
            environment,
            ..
        } && start_can_succeed(environment))
}

/// The reply to the start at `index`.
pub open spec fn start_reply_at<H>(requests: Seq<Request<H>>, index: int) -> Result<
    Seq<char>,
    ControlError,
> {
    match requests[index] {
        Request::Start { platform, environment } => start_run(
            slot_after_requests(requests.take(index)),
            platform,
            environment,
        ).reply,
        _ => Err(ControlError::NotRunning),
    }
}

/// When several starts, each of which could go through on its own, are
/// served on an idle controller, then in whatever order they get their
/// turn the first is answered with the confirmation and every other one
/// is refused with `AlreadyRunning`. The host launches one process, and the
/// slot holds its handle.
pub proof fn lemma_one_start_wins<H>(requests: Seq<Request<H>>)
    requires
        requests.len() > 0,
        all_starts_that_can_succeed(requests),
    ensures
        start_reply_at(requests, 0) == Ok::<Seq<char>, ControlError>(started_message()),
        forall|index: int|
            0 < index < requests.len() ==> #[trigger] start_reply_at(requests, index) == Err::<
                Seq<char>,
                ControlError,
            >(ControlError::AlreadyRunning),
        launches_during(requests) == 1,
        slot_after_requests(requests) == launched_at(requests, 0),
        slot_after_requests(requests) is Some,
    decreases requests.len(),
{
    let last_index = requests.len() - 1;
    let earlier = requests.drop_last();
    lemma_prefix_of_prefix(requests, last_index);
    assert(requests[last_index] is Start);
    let platform = requests[last_index]->Start_platform;
    let environment = requests[last_index]->Start_environment;
    if requests.len() == 1 {
        assert(earlier.len() == 0);
        assert(requests.take(0) =~= earlier);
        assert(slot_after_requests(earlier) == None::<H>);
        assert(launches_during(earlier) == 0);
        lemma_start_run(None::<H>, platform, environment);
    } else {
        assert forall|index: int| 0 <= index < earlier.len() implies (
        #[trigger] earlier[index] matches Request::Start { environment, .. } && start_can_succeed(
            environment,
        )) by {
            assert(earlier[index] == requests[index]);
        }
        lemma_one_start_wins(earlier);
        lemma_start_run(slot_after_requests(earlier), platform, environment);
        assert forall|index: int| 0 <= index < last_index implies start_reply_at(earlier, index)
            == start_reply_at(requests, index) by {
            lemma_prefix_of_prefix(requests, index);
        }
        assert(launched_at(earlier, 0) == launched_at(requests, 0));
        assert forall|index: int| 0 < index < requests.len() implies #[trigger] start_reply_at(
            requests,
            index,
        ) == Err::<Seq<char>, ControlError>(ControlError::AlreadyRunning) by {
            if index < last_index {
                assert(start_reply_at(earlier, index) == start_reply_at(requests, index));
            }
        }
    }
}

} // verus!
