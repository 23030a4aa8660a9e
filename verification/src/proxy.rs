use vstd::prelude::*;

use crate::cluster::{next_cursor, Cluster, Endpoint, Outcome};

verus! {

/// The status code of the answer to a request that could not be forwarded.
pub const BAD_GATEWAY_STATUS: u16 = 502;

/// How far the forwarding of one request has got.
#[derive(Debug, Clone, Copy, PartialEq, Eq, Structural)]
pub enum Exchange {
    /// No endpoint chosen yet.
    Idle,
    /// Opening a connection to `endpoint`.
    Connecting { endpoint: Endpoint },
    /// The request is on its way to `endpoint`.
    Sending { endpoint: Endpoint },
    /// The request has been answered.
    Done,
}

/// What the outside world reports back to the exchange.
#[derive(Debug, Clone, Copy, PartialEq, Eq, Structural)]
pub enum ProxyEvent {
    /// A request arrived and is to be forwarded.
    RequestReceived,
    /// The connection to the chosen endpoint is open.
    Connected,
    /// The connection to the chosen endpoint could not be opened.
    ConnectFailed,
    /// The endpoint answered the request.
    ResponseReceived,
    /// Sending the request or receiving the answer failed.
    SendFailed,
}

/// What the exchange asks the outside world to do next.
#[derive(Debug, Clone, Copy, PartialEq, Eq, Structural)]
pub enum ProxyAction {
    /// Open a connection to `endpoint`.
    Connect { endpoint: Endpoint },
    /// Send the request over the open connection.
    SendRequest,
    /// Answer the client with the endpoint's response.
    ForwardResponse,
    /// Answer the client with an empty 502 Bad Gateway response.
    RespondBadGateway,
    /// Nothing: the event does not fit the exchange's state.
    Ignore,
}

/// An outcome reported to the cluster for an endpoint.
#[derive(Debug, Clone, Copy, PartialEq, Eq, Structural)]
pub struct Report {
    pub endpoint: Endpoint,
    pub outcome: Outcome,
}

/// The result of one step: the next state, the action to perform, and the
/// outcome reported to the cluster in this step, if any.
#[derive(Debug, Clone, Copy, PartialEq, Eq, Structural)]
pub struct ProxyStep {
    pub next: Exchange,
    pub action: ProxyAction,
    pub reported: Option<Report>,
}

/// One step of forwarding a request, over a cluster with `endpoints` whose
/// cursor is at `cursor`: the step, and the cursor afterwards. A request picks
/// the endpoint under the cursor and connects to it; a failed connection or a
/// failed exchange is answered with 502 and reported as a failure; a response
/// is forwarded and reported as a success.
pub open spec fn step_spec(endpoints: Seq<Endpoint>, cursor: usize, state: Exchange, event: ProxyEvent) -> (
    ProxyStep,
    usize,
) {
    match (state, event) {
        (Exchange::Idle, ProxyEvent::RequestReceived) => {
            let e = endpoints[cursor as int % endpoints.len() as int];
            (
                ProxyStep {
                    next: Exchange::Connecting { endpoint: e },
                    action: ProxyAction::Connect { endpoint: e },
                    reported: None,
                },
                next_cursor(cursor),
            )
        },
        (Exchange::Connecting { endpoint }, ProxyEvent::Connected) => (
            ProxyStep { next: Exchange::Sending { endpoint }, action: ProxyAction::SendRequest, reported: None },
            cursor,
        ),
        (Exchange::Connecting { endpoint }, ProxyEvent::ConnectFailed) => (
            ProxyStep {
                next: Exchange::Done,
                action: ProxyAction::RespondBadGateway,
                reported: Some(Report { endpoint, outcome: Outcome::Failure }),
            },
            cursor,
        ),
        (Exchange::Sending { endpoint }, ProxyEvent::ResponseReceived) => (
            ProxyStep {
                next: Exchange::Done,
                action: ProxyAction::ForwardResponse,
                reported: Some(Report { endpoint, outcome: Outcome::Success }),
            },
            cursor,
        ),
        (Exchange::Sending { endpoint }, ProxyEvent::SendFailed) => (
            ProxyStep {
                next: Exchange::Done,
                action: ProxyAction::RespondBadGateway,
                reported: Some(Report { endpoint, outcome: Outcome::Failure }),
            },
            cursor,
        ),
        _ => (ProxyStep { next: state, action: ProxyAction::Ignore, reported: None }, cursor),
    }
}

/// Advances the forwarding of one request by one event, picking endpoints
/// from `cluster` and reporting outcomes to it.
pub fn step(cluster: &mut Cluster, state: Exchange, event: ProxyEvent) -> (res: ProxyStep)
    requires
        old(cluster).wf(),
    ensures
        final(cluster).wf(),
        final(cluster).endpoints() == old(cluster).endpoints(),
        (res, final(cluster).cursor()) == step_spec(
            old(cluster).endpoints(),
            old(cluster).cursor(),
            state,
            event,
        ),
{
    match (state, event) {
        (Exchange::Idle, ProxyEvent::RequestReceived) => {
            let endpoint = cluster.pick_endpoint();
            ProxyStep {
                next: Exchange::Connecting { endpoint },
                action: ProxyAction::Connect { endpoint },
                reported: None,
            }
        },
        (Exchange::Connecting { endpoint }, ProxyEvent::Connected) => {
            ProxyStep { next: Exchange::Sending { endpoint }, action: ProxyAction::SendRequest, reported: None }
        },
        (Exchange::Connecting { endpoint }, ProxyEvent::ConnectFailed) => {
            cluster.report_outcome(endpoint, Outcome::Failure);
            ProxyStep {
                next: Exchange::Done,
                action: ProxyAction::RespondBadGateway,
                reported: Some(Report { endpoint, outcome: Outcome::Failure }),
            }
        },
        (Exchange::Sending { endpoint }, ProxyEvent::ResponseReceived) => {
            cluster.report_outcome(endpoint, Outcome::Success);
            ProxyStep {
                next: Exchange::Done,
                action: ProxyAction::ForwardResponse,
                reported: Some(Report { endpoint, outcome: Outcome::Success }),
            }
        },
        (Exchange::Sending { endpoint }, ProxyEvent::SendFailed) => {
            cluster.report_outcome(endpoint, Outcome::Failure);
            ProxyStep {
                next: Exchange::Done,
                action: ProxyAction::RespondBadGateway,
                reported: Some(Report { endpoint, outcome: Outcome::Failure }),
            }
        },
        _ => ProxyStep { next: state, action: ProxyAction::Ignore, reported: None },
    }
}


/// The steps that successive events produce, starting in `state` over a
/// cluster with `endpoints` whose cursor is at `cursor`.
pub open spec fn run_spec(
    endpoints: Seq<Endpoint>,
    cursor: usize,
    state: Exchange,
    events: Seq<ProxyEvent>,
) -> Seq<ProxyStep>
    decreases events.len(),
{
    if events.len() == 0 {
        Seq::empty()
    } else {
        let (first, after) = step_spec(endpoints, cursor, state, events[0]);
        seq![first] + run_spec(endpoints, after, first.next, events.drop_first())
    }
}

/// Whether a step answers the client.
pub open spec fn answers(step: ProxyStep) -> bool {
    step.action == ProxyAction::ForwardResponse || step.action == ProxyAction::RespondBadGateway
}

/// The answer matches the report: a forwarded response goes with a success
/// report, a 502 with a failure report, and a step without an answer reports
/// nothing.
pub open spec fn answer_matches_report(step: ProxyStep) -> bool {
    &&& (step.action == ProxyAction::ForwardResponse) == (step.reported matches Some(r) && r.outcome
        == Outcome::Success)
    &&& (step.action == ProxyAction::RespondBadGateway) == (step.reported matches Some(r)
        && r.outcome == Outcome::Failure)
}

/// Whether `state` is consistent with `picked` being the endpoint the
/// exchange uses.
pub open spec fn uses_endpoint(endpoints: Seq<Endpoint>, cursor: usize, state: Exchange, picked: Endpoint) -> bool {
    match state {
        Exchange::Idle => picked == endpoints[cursor as int % endpoints.len() as int],
        Exchange::Connecting { endpoint } => endpoint == picked,
        Exchange::Sending { endpoint } => endpoint == picked,
        Exchange::Done => true,
    }
}

proof fn lemma_run_from(
    endpoints: Seq<Endpoint>,
    cursor: usize,
    state: Exchange,
    picked: Endpoint,
    events: Seq<ProxyEvent>,
)
    requires
        endpoints.len() > 0,
        uses_endpoint(endpoints, cursor, state, picked),
    ensures
        run_spec(endpoints, cursor, state, events).len() == events.len(),
        forall|i: int|
            0 <= i < events.len() ==> answer_matches_report(
                #[trigger] run_spec(endpoints, cursor, state, events)[i],
            ),
        forall|i: int|
            0 <= i < events.len() ==> (#[trigger] run_spec(endpoints, cursor, state, events)[i].reported
                matches Some(r) ==> r.endpoint == picked),
        state == Exchange::Done ==> forall|i: int|
            0 <= i < events.len() ==> (#[trigger] run_spec(endpoints, cursor, state, events)[i].reported
                is None),
        forall|i: int, j: int|
            0 <= i < j < events.len() && (#[trigger] run_spec(endpoints, cursor, state, events)[i]).reported
                is Some ==> (#[trigger] run_spec(endpoints, cursor, state, events)[j]).reported is None,
    decreases events.len(),
{
    if events.len() > 0 {
        let steps = run_spec(endpoints, cursor, state, events);
        let (first, after) = step_spec(endpoints, cursor, state, events[0]);
        let rest = events.drop_first();
        lemma_run_from(endpoints, after, first.next, picked, rest);
        let later = run_spec(endpoints, after, first.next, rest);
        assert(steps == seq![first] + later);
        assert forall|i: int| 0 < i < events.len() implies #[trigger] steps[i] == later[i - 1] by {}
        assert forall|i: int, j: int|
            0 <= i < j < events.len() && (#[trigger] steps[i]).reported is Some implies (
            #[trigger] steps[j]).reported is None by {
            assert(steps[j] == later[j - 1]);
            if i > 0 {
                assert(steps[i] == later[i - 1]);
            }
        }
    }
}

/// One request, one answer: whatever events arrive, the exchange for a
/// request answers the client at most once, reports at most one outcome, and
/// only in the step that answers; a forwarded response is reported as a
/// success and a 502 as a failure; and every report is for the endpoint under
/// the cluster's cursor when the request arrived.
pub proof fn lemma_one_answer_per_request(endpoints: Seq<Endpoint>, cursor: usize, events: Seq<ProxyEvent>)
    requires
        endpoints.len() > 0,
    ensures
        ({
            let steps = run_spec(endpoints, cursor, Exchange::Idle, events);
            &&& steps.len() == events.len()
            &&& forall|i: int| 0 <= i < steps.len() ==> answer_matches_report(#[trigger] steps[i])
            &&& forall|i: int|
                0 <= i < steps.len() ==> (#[trigger] steps[i].reported matches Some(r) ==> r.endpoint
                    == endpoints[cursor as int % endpoints.len() as int])
            &&& forall|i: int, j: int|
                0 <= i < j < steps.len() && answers(#[trigger] steps[i]) ==> !answers(
                    #[trigger] steps[j],
                )
        }),
{
    let picked = endpoints[cursor as int % endpoints.len() as int];
    lemma_run_from(endpoints, cursor, Exchange::Idle, picked, events);
    let steps = run_spec(endpoints, cursor, Exchange::Idle, events);
    assert forall|i: int, j: int| 0 <= i < j < steps.len() && answers(#[trigger] steps[i]) implies !answers(
        #[trigger] steps[j],
    ) by {
        assert(answer_matches_report(steps[i]));
        assert(answer_matches_report(steps[j]));
    }
}


/// The connections that `k` successive requests ask for, each starting a
/// fresh exchange, over a cluster with `endpoints` whose cursor starts at
/// `cursor`.
pub open spec fn request_connections(endpoints: Seq<Endpoint>, cursor: usize, k: nat) -> Seq<ProxyAction>
    decreases k,
{
    if k == 0 {
        Seq::empty()
    } else {
        let (first, after) = step_spec(endpoints, cursor, Exchange::Idle, ProxyEvent::RequestReceived);
        seq![first.action] + request_connections(endpoints, after, (k - 1) as nat)
    }
}

/// A request picks exactly one endpoint: a request arriving on an idle
/// exchange connects to the endpoint under the cursor and moves the cursor on
/// by one (wrapping past `usize::MAX`); no other event moves it.
pub proof fn lemma_request_picks_once(
    endpoints: Seq<Endpoint>,
    cursor: usize,
    state: Exchange,
    event: ProxyEvent,
)
    requires
        endpoints.len() > 0,
    ensures
        ({
            let (st, after) = step_spec(endpoints, cursor, state, event);
            if state == Exchange::Idle && event == ProxyEvent::RequestReceived {
                &&& after == (if cursor == usize::MAX { 0 } else { cursor + 1 })
                &&& st.action == (ProxyAction::Connect {
                    endpoint: endpoints[cursor as int % endpoints.len() as int],
                })
            } else {
                &&& after == cursor
                &&& !(st.action is Connect)
            }
        }),
{
}

/// Round robin over requests: on a fresh cluster of `n` endpoints, request
/// `i` of `k` successive requests connects to endpoint `i mod n`.
pub proof fn lemma_requests_round_robin(endpoints: Seq<Endpoint>, k: nat)
    requires
        endpoints.len() > 0,
        k <= usize::MAX + 1,
    ensures
        request_connections(endpoints, 0, k).len() == k,
        forall|i: int|
            0 <= i < k ==> #[trigger] request_connections(endpoints, 0, k)[i] == (ProxyAction::Connect {
                endpoint: endpoints[i % endpoints.len() as int],
            }),
{
    lemma_requests_from(endpoints, 0, k);
}

proof fn lemma_requests_from(endpoints: Seq<Endpoint>, cursor: usize, k: nat)
    requires
        endpoints.len() > 0,
        cursor + k <= usize::MAX + 1,
    ensures
        request_connections(endpoints, cursor, k).len() == k,
        forall|i: int|
            0 <= i < k ==> #[trigger] request_connections(endpoints, cursor, k)[i] == (
            ProxyAction::Connect { endpoint: endpoints[(cursor + i) % endpoints.len() as int] }),
    decreases k,
{
    if k > 0 {
        let (first, after) = step_spec(endpoints, cursor, Exchange::Idle, ProxyEvent::RequestReceived);
        lemma_request_picks_once(endpoints, cursor, Exchange::Idle, ProxyEvent::RequestReceived);
        lemma_requests_from(endpoints, after, (k - 1) as nat);
        let rest = request_connections(endpoints, after, (k - 1) as nat);
        assert(request_connections(endpoints, cursor, k) == seq![first.action] + rest);
        assert forall|i: int| 0 <= i < k implies #[trigger] request_connections(endpoints, cursor, k)[i]
            == (ProxyAction::Connect { endpoint: endpoints[(cursor + i) % endpoints.len() as int] }) by {
            if i > 0 {
                assert(request_connections(endpoints, cursor, k)[i] == rest[i - 1]);
                assert(after == cursor + 1);
            }
        }
    }
}

} // verus!
