//! The connectivity check: one request/response exchange through the local
//! broker, run as a state machine over the events of a short MQTT session.
//!
//! The session subscribes to the cloud's response topic first. When the
//! subscription is acknowledged the prober asks for exactly one request to
//! be published, then waits for a response. An outgoing keep-alive ping
//! means nothing arrived within the keep-alive interval and ends the check.

use vstd::prelude::*;
use crate::cloud::{Cloud, DeviceStatus};
use crate::error::ConnectError;
use crate::text::{bytes_contain, occurs_in, str_contains};

verus! {

/// One event of the check's MQTT session, as the session reports it.
#[derive(Debug, Clone)]
pub enum ProbeEvent {
    /// The subscription to the response topic was acknowledged.
    SubAck,
    /// The request publish was acknowledged.
    PubAck,
    /// A message arrived on a subscribed topic.
    Publish { topic: String, payload: Vec<u8> },
    /// The client sent a keep-alive ping: nothing arrived for a whole interval.
    PingReq,
    /// The broker closed the session.
    Disconnect,
    /// The transport failed.
    TransportError,
    /// Any other protocol traffic.
    Other,
}

/// What the session has to do after an event.
#[derive(Debug)]
pub enum ProbeAction {
    /// Keep reading events.
    Wait,
    /// Publish the (empty) request to the cloud's request topic, then keep reading.
    SendRequest,
    /// Stop: the check is over with this outcome.
    Finish(Result<DeviceStatus, ConnectError>),
}

pub open spec fn success_code() -> Seq<char> {
    "200"@
}

pub open spec fn token_code() -> Seq<u8> {
    seq![55u8, 49u8]
}

/// The outcome of a check that ended without a confirming response.
pub open spec fn unconfirmed(subscribed: bool) -> Result<DeviceStatus, ConnectError> {
    if subscribed {
        Ok(DeviceStatus::Unknown)
    } else {
        Err(ConnectError::ProbeUnreachable)
    }
}

/// Whether a message on `topic` with `payload` confirms the connection.
pub open spec fn confirms(cloud: Cloud, topic: Seq<char>, payload: Seq<u8>) -> bool {
    match cloud {
        Cloud::C8y => occurs_in(payload, token_code()),
        Cloud::Azure => occurs_in(topic, success_code()),
    }
}

/// The transition of the check: from whether the subscription was
/// acknowledged and an event, to the new flag and the action.
pub open spec fn probe_step(cloud: Cloud, subscribed: bool, e: ProbeEvent) -> (bool, ProbeAction) {
    match e {
        ProbeEvent::SubAck => {
            if subscribed {
                (true, ProbeAction::Wait)
            } else {
                (true, ProbeAction::SendRequest)
            }
        },
        ProbeEvent::Publish { topic, payload } => {
            if !subscribed {
                (subscribed, ProbeAction::Wait)
            } else if confirms(cloud, topic@, payload@) {
                (subscribed, ProbeAction::Finish(Ok(DeviceStatus::AlreadyExists)))
            } else if cloud == Cloud::Azure {
                (subscribed, ProbeAction::Finish(unconfirmed(subscribed)))
            } else {
                (subscribed, ProbeAction::Wait)
            }
        },
        ProbeEvent::PingReq | ProbeEvent::Disconnect | ProbeEvent::TransportError => {
            (subscribed, ProbeAction::Finish(unconfirmed(subscribed)))
        },
        ProbeEvent::PubAck | ProbeEvent::Other => (subscribed, ProbeAction::Wait),
    }
}

/// The outcome of a session whose events are `events`, with the number of
/// requests published; a session whose events run out ends unconfirmed.
pub open spec fn probe_run(cloud: Cloud, subscribed: bool, events: Seq<ProbeEvent>) -> (Result<
    DeviceStatus,
    ConnectError,
>, nat)
    decreases events.len(),
{
    if events.len() == 0 {
        (unconfirmed(subscribed), 0)
    } else {
        let (s, a) = probe_step(cloud, subscribed, events[0]);
        match a {
            ProbeAction::Finish(r) => (r, 0),
            ProbeAction::SendRequest => {
                let rest = probe_run(cloud, s, events.drop_first());
                (rest.0, rest.1 + 1)
            },
            ProbeAction::Wait => probe_run(cloud, s, events.drop_first()),
        }
    }
}

/// The state of one connectivity check.
pub struct Prober {
    pub cloud: Cloud,
    /// Whether the subscription to the response topic was acknowledged.
    pub subscribed: bool,
}

impl Prober {
    /// A check that has sent its subscription and waits for the acknowledgment.
    pub fn new(cloud: Cloud) -> (r: Prober)
        ensures
            r.cloud == cloud,
            !r.subscribed,
    {
        Prober { cloud, subscribed: false }
    }

    /// Takes one event of the session and says what to do next.
    pub fn on_event(&mut self, event: &ProbeEvent) -> (r: ProbeAction)
        ensures
            final(self).cloud == old(self).cloud,
            (final(self).subscribed, r) == probe_step(old(self).cloud, old(self).subscribed, *event),
    {
        match event {
            ProbeEvent::SubAck => {
                if self.subscribed {
                    ProbeAction::Wait
                } else {
                    self.subscribed = true;
                    ProbeAction::SendRequest
                }
            },
            ProbeEvent::Publish { topic, payload } => {
                if !self.subscribed {
                    return ProbeAction::Wait;
                }
                let ok = match self.cloud {
                    Cloud::C8y => {
                        let code: Vec<u8> = vec![55u8, 49u8];
                        assert(code@ =~= token_code());
                        bytes_contain(payload.as_slice(), code.as_slice())
                    },
                    Cloud::Azure => str_contains(topic.as_str(), "200"),
                };
                if ok {
                    ProbeAction::Finish(Ok(DeviceStatus::AlreadyExists))
                } else {
                    match self.cloud {
                        Cloud::Azure => ProbeAction::Finish(self.end_of_session()),
                        Cloud::C8y => ProbeAction::Wait,
                    }
                }
            },
            ProbeEvent::PingReq | ProbeEvent::Disconnect | ProbeEvent::TransportError => {
                ProbeAction::Finish(self.end_of_session())
            },
            ProbeEvent::PubAck | ProbeEvent::Other => ProbeAction::Wait,
        }
    }

    /// The outcome of a session that ended without a confirming response.
    pub fn end_of_session(&self) -> (r: Result<DeviceStatus, ConnectError>)
        ensures
            r == unconfirmed(self.subscribed),
    {
        if self.subscribed {
            Ok(DeviceStatus::Unknown)
        } else {
            Err(ConnectError::ProbeUnreachable)
        }
    }
}

/// The result of running the check over a recorded session.
pub struct ProbeReport {
    pub outcome: Result<DeviceStatus, ConnectError>,
    pub requests_sent: usize,
}

/// Runs the check over the events of a session, in order, until it finishes
/// or the events run out.
pub fn check_events(cloud: Cloud, events: &Vec<ProbeEvent>) -> (r: ProbeReport)
    ensures
        r.outcome == probe_run(cloud, false, events@).0,
        r.requests_sent == probe_run(cloud, false, events@).1,
{
    let mut prober = Prober::new(cloud);
    let mut i: usize = 0;
    let mut sent: usize = 0;
    proof {
        lemma_at_most_one_request(cloud, false, events@);
    }
    assert(events@.subrange(0, events@.len() as int) =~= events@);
    while i < events.len()
        invariant
            i <= events@.len(),
            prober.cloud == cloud,
            sent <= 1,
            !prober.subscribed ==> sent == 0,
            probe_run(cloud, false, events@).0 == probe_run(
                cloud,
                prober.subscribed,
                events@.subrange(i as int, events@.len() as int),
            ).0,
            probe_run(cloud, false, events@).1 == probe_run(
                cloud,
                prober.subscribed,
                events@.subrange(i as int, events@.len() as int),
            ).1 + sent,
        decreases events@.len() - i,
    {
        let ghost rest = events@.subrange(i as int, events@.len() as int);
        assert(rest.drop_first() =~= events@.subrange(i + 1, events@.len() as int));
        assert(rest[0] == events@[i as int]);
        proof {
            lemma_at_most_one_request(cloud, prober.subscribed, rest);
        }
        let action = prober.on_event(&events[i]);
        match action {
            ProbeAction::Finish(outcome) => {
                return ProbeReport { outcome, requests_sent: sent };
            },
            ProbeAction::SendRequest => {
                sent = sent + 1;
            },
            ProbeAction::Wait => {},
        }
        i = i + 1;
    }
    assert(events@.subrange(i as int, events@.len() as int) =~= Seq::<ProbeEvent>::empty());
    ProbeReport { outcome: prober.end_of_session(), requests_sent: sent }
}

/// A check publishes its request at most once, and not at all once the
/// subscription was acknowledged before the session starts.
pub proof fn lemma_at_most_one_request(cloud: Cloud, subscribed: bool, events: Seq<ProbeEvent>)
    ensures
        probe_run(cloud, subscribed, events).1 <= 1,
        subscribed ==> probe_run(cloud, subscribed, events).1 == 0,
    decreases events.len(),
{
    if events.len() > 0 {
        let (s, a) = probe_step(cloud, subscribed, events[0]);
        lemma_at_most_one_request(cloud, s, events.drop_first());
    }
}

/// A session in which the subscription is never acknowledged ends with the
/// check unreachable, never with a status.
pub proof fn lemma_no_suback_unreachable(cloud: Cloud, events: Seq<ProbeEvent>)
    requires
        forall|i: int| 0 <= i < events.len() ==> !(#[trigger] events[i] is SubAck),
    ensures
        probe_run(cloud, false, events).0 == Err::<DeviceStatus, ConnectError>(
            ConnectError::ProbeUnreachable,
        ),
    decreases events.len(),
{
    if events.len() > 0 {
        let rest = events.drop_first();
        assert forall|i: int| 0 <= i < rest.len() implies !(#[trigger] rest[i] is SubAck) by {
            assert(rest[i] == events[i + 1]);
        }
        assert(!(events[0] is SubAck));
        lemma_no_suback_unreachable(cloud, rest);
    }
}

/// Once subscribed, the status-topic cloud ends the check at the first
/// response: connected when its topic carries the success code, and
/// unknown, at once, for any other status.
pub proof fn lemma_status_topic_response(topic: String, payload: Vec<u8>, rest: Seq<ProbeEvent>)
    ensures
        ({
            let events = seq![ProbeEvent::Publish { topic, payload }] + rest;
            probe_run(Cloud::Azure, true, events).0 == if occurs_in(topic@, success_code()) {
                Ok::<DeviceStatus, ConnectError>(DeviceStatus::AlreadyExists)
            } else {
                Ok::<DeviceStatus, ConnectError>(DeviceStatus::Unknown)
            }
        }),
{
    let events = seq![ProbeEvent::Publish { topic, payload }] + rest;
    assert(events[0] == ProbeEvent::Publish { topic, payload });
}

/// Once subscribed, the token cloud is connected at the first response whose
/// payload carries the token code, whatever follows it.
pub proof fn lemma_token_response(topic: String, payload: Vec<u8>, rest: Seq<ProbeEvent>)
    requires
        occurs_in(payload@, token_code()),
    ensures
        probe_run(Cloud::C8y, true, seq![ProbeEvent::Publish { topic, payload }] + rest).0
            == Ok::<DeviceStatus, ConnectError>(DeviceStatus::AlreadyExists),
{
    let events = seq![ProbeEvent::Publish { topic, payload }] + rest;
    assert(events[0] == ProbeEvent::Publish { topic, payload });
}

} // verus!
