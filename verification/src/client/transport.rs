//! The two operations of the client, over whatever carries the packets.

use crate::client::decode::{
    read_outcome, read_result, values_view, write_outcome, write_result,
};
use crate::client::endpoint::{Endpoint, EndpointView};
use crate::client::error::ClientError;
use crate::client::message::{
    assignments_view, read_request, write_request, Reply, ReplyView, Request, RequestView,
};
use crate::client::value::{Scalar, Value};
use crate::client::vars::Variable;
use vstd::prelude::*;

verus! {

/// What carries one request to a device and brings back what came of it.
/// It makes one attempt, waits no longer than its bound, and keeps nothing
/// from one call to the next that a later reply could be confused with.
pub trait Transport: Sized {
    /// What a round trip can bring: in the state `self`, a request to
    /// `endpoint` can be answered with `reply` and leave the transport as
    /// `then`. A transport of which nothing is known can answer anything; a
    /// transport that is known says more.
    open spec fn answers(
        &self,
        endpoint: EndpointView,
        request: RequestView,
        reply: ReplyView,
        then: &Self,
    ) -> bool {
        true
    }

    /// Sends `request` to the device at `endpoint` and waits for its reply.
    fn round_trip(&mut self, endpoint: &Endpoint, request: &Request) -> (reply: Reply)
        ensures
            old(self).answers(endpoint@, request@, reply@, final(self)),
    ;
}

/// One round trip as the contracts see it: where it went, what was sent,
/// and what came back.
pub ghost struct Exchange {
    pub endpoint: EndpointView,
    pub request: RequestView,
    pub reply: ReplyView,
}

/// A client: a transport, and the record of the round trips that were made
/// over it. The record is kept for the contracts alone; it says which
/// requests a call has sent, and of which replies its result was made. What
/// the transport could answer to them, the transport says.
pub struct Client<T: Transport> {
    transport: T,
    history: Ghost<Seq<Exchange>>,
}

/// Between `before` and `after` one round trip was made, and nothing else:
/// it went to `endpoint` and carried `request`.
pub open spec fn one_more(
    before: Seq<Exchange>,
    after: Seq<Exchange>,
    endpoint: EndpointView,
    request: RequestView,
) -> bool {
    &&& after.len() == before.len() + 1
    &&& after.drop_last() == before
    &&& after.last().endpoint == endpoint
    &&& after.last().request == request
}

/// The request that reads `variables` from the device at `endpoint`.
pub open spec fn read_of(endpoint: EndpointView, variables: Seq<Variable>) -> RequestView {
    RequestView::Read { device: endpoint.id, variables }
}

/// The request that writes `assignments` to the device at `endpoint`.
pub open spec fn write_of(
    endpoint: EndpointView,
    assignments: Seq<(Variable, Scalar)>,
) -> RequestView {
    RequestView::Write { device: endpoint.id, assignments }
}

/// The result of a read as the contracts see it.
pub open spec fn read_view(r: Result<Vec<Value>, ClientError>) -> Result<Seq<Scalar>, ClientError> {
    match r {
        Ok(values) => Ok(values_view(values@)),
        Err(e) => Err(e),
    }
}

impl<T: Transport> Client<T> {
    /// The transport of the client, in the state it is in.
    pub closed spec fn device(&self) -> T {
        self.transport
    }

    /// The round trips that were made over the client, the first one first.
    pub closed spec fn history(&self) -> Seq<Exchange> {
        self.history@
    }

    /// A client over `transport`, with no round trip made yet.
    pub fn new(transport: T) -> (client: Client<T>)
        ensures
            client.device() == transport,
            client.history() == Seq::<Exchange>::empty(),
    {
        Client { transport, history: Ghost(Seq::empty()) }
    }

    /// The transport of the client.
    pub fn transport(&self) -> (transport: &T)
        ensures
            *transport == self.device(),
    {
        &self.transport
    }

    /// The transport, given back.
    pub fn into_transport(self) -> (transport: T)
        ensures
            transport == self.device(),
    {
        self.transport
    }

    /// One round trip over the transport, put on record.
    pub fn round_trip(&mut self, endpoint: &Endpoint, request: &Request) -> (reply: Reply)
        ensures
            old(self).device().answers(endpoint@, request@, reply@, &final(self).device()),
            one_more(old(self).history(), final(self).history(), endpoint@, request@),
            final(self).history().last().reply == reply@,
    {
        let reply = self.transport.round_trip(endpoint, request);
        let ghost exchange = Exchange { endpoint: endpoint@, request: request@, reply: reply@ };
        proof {
            assert(self.history@.push(exchange).drop_last() =~= self.history@);
        }
        self.history = Ghost(self.history@.push(exchange));
        reply
    }
}

/// Reads `variables` from the device at `endpoint`: one request, one reply.
/// One round trip is made over the transport, with the request that reads
/// `variables`, and the result is what `read_result` makes of its reply: on
/// success the values come in the order of `variables`, one for each.
pub fn get<T: Transport>(client: &mut Client<T>, endpoint: &Endpoint, variables: &[Variable]) -> (r:
    Result<Vec<Value>, ClientError>)
    requires
        variables@.len() > 0,
    ensures
        old(client).device().answers(
            endpoint@,
            read_of(endpoint@, variables@),
            final(client).history().last().reply,
            &final(client).device(),
        ),
        one_more(
            old(client).history(),
            final(client).history(),
            endpoint@,
            read_of(endpoint@, variables@),
        ),
        read_view(r) == read_result(variables@.len(), final(client).history().last().reply),
        r matches Ok(values) ==> values@.len() == variables@.len(),
        r matches Err(ClientError::Shape { requested, received }) ==> requested == variables@.len()
            && received != requested,
{
    let request = read_request(endpoint, variables);
    let reply = client.round_trip(endpoint, &request);
    read_outcome(variables.len(), reply)
}

/// Writes `assignments` to the device at `endpoint`: one request, one reply.
/// One round trip is made over the transport, with the request that writes
/// `assignments`, and the result is what `write_result` makes of its reply:
/// success means that the device acknowledged the request.
pub fn set<T: Transport>(
    client: &mut Client<T>,
    endpoint: &Endpoint,
    assignments: &[(Variable, Value)],
) -> (r: Result<(), ClientError>)
    requires
        assignments@.len() > 0,
    ensures
        old(client).device().answers(
            endpoint@,
            write_of(endpoint@, assignments_view(assignments@)),
            final(client).history().last().reply,
            &final(client).device(),
        ),
        one_more(
            old(client).history(),
            final(client).history(),
            endpoint@,
            write_of(endpoint@, assignments_view(assignments@)),
        ),
        r == write_result(final(client).history().last().reply),
        r matches Err(e) ==> !(e is Shape),
{
    let request = write_request(endpoint, assignments);
    let reply = client.round_trip(endpoint, &request);
    write_outcome(reply)
}

} // verus!
