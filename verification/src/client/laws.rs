//! What holds of the client for every request and every reply, and what
//! holds of it in front of a simulated device.

use crate::client::decode::{decodable, decoded, read_result, write_result};
use crate::client::endpoint::EndpointView;
use crate::client::error::ClientError;
use crate::client::message::{Fault, ReplyView, RequestView};
use crate::client::simulator::{written, SimulatorView};
use crate::client::value::Scalar;
use crate::client::vars::Variable;
use vstd::prelude::*;

verus! {

/// The other of the two states of a switch: 0 for 1, and 1 for anything
/// else.
pub open spec fn complement(state: int) -> int {
    if state == 1 {
        0
    } else {
        1
    }
}

/// A read succeeds only on data, and then keeps its order: there are as
/// many values as were requested, and the value at each position is what
/// the reply holds at that position.
pub proof fn lemma_read_keeps_order(requested: nat, reply: ReplyView)
    requires
        read_result(requested, reply) is Ok,
    ensures
        reply is Status,
        reply->Status_0.len() == requested,
        read_result(requested, reply)->Ok_0.len() == requested,
        forall|i: int|
            0 <= i < requested ==> reply->Status_0[i] == Some(
                #[trigger] read_result(requested, reply)->Ok_0[i],
            ),
{
    let data = reply->Status_0;
    assert forall|i: int| 0 <= i < requested implies data[i] == Some(
        #[trigger] read_result(requested, reply)->Ok_0[i],
    ) by {
        assert(data[i] is Some);
    }
}

/// Data that decodes but does not have the length of the request is a
/// mismatch of shape: it is never cut or filled up to fit.
pub proof fn lemma_wrong_count_is_shape(requested: nat, data: Seq<Option<Scalar>>)
    requires
        decodable(data),
        data.len() != requested,
    ensures
        read_result(requested, ReplyView::Status(data)) == Err::<Seq<Scalar>, ClientError>(
            ClientError::Shape { requested: requested as usize, received: data.len() as usize },
        ),
{
}

/// Where no reply comes within the bound, a read and a write fail with a
/// transport error.
pub proof fn lemma_timeout_is_transport(requested: nat, fault: Fault)
    requires
        fault == Fault::RecvTimeout || fault == Fault::ResponseTimeout,
    ensures
        read_result(requested, ReplyView::Lost(fault)) == Err::<Seq<Scalar>, ClientError>(
            ClientError::Transport,
        ),
        write_result(ReplyView::Lost(fault)) == Err::<(), ClientError>(ClientError::Transport),
{
}

/// A reply that cannot be decrypted or parsed fails a read and a write with
/// a protocol error, and so does data with a position that holds neither an
/// integer nor a text: no value is made up for it.
pub proof fn lemma_corrupt_is_protocol(requested: nat, reply: ReplyView)
    requires
        match reply {
            ReplyView::Lost(fault) => fault == Fault::SerDe || fault == Fault::Base64Decode,
            ReplyView::Status(data) => !decodable(data),
            ReplyView::Done => false,
        },
    ensures
        read_result(requested, reply) == Err::<Seq<Scalar>, ClientError>(ClientError::Protocol),
        write_result(reply) == Err::<(), ClientError>(ClientError::Protocol),
{
}

/// A simulated device that hears a read answers it in full: the read
/// succeeds, and its value at each position is the one that the device
/// holds for the variable requested at that position.
pub proof fn lemma_simulator_read(
    sim: SimulatorView,
    endpoint: EndpointView,
    variables: Seq<Variable>,
)
    requires
        sim.hears(endpoint, endpoint.id),
    ensures
        read_result(
            variables.len(),
            sim.answer(endpoint, RequestView::Read { device: endpoint.id, variables }),
        ) == Ok::<Seq<Scalar>, ClientError>(variables.map_values(|v: Variable| sim.value(v))),
{
    let data = variables.map_values(|v: Variable| Some(sim.value(v)));
    assert(decodable(data));
    assert(decoded(data) =~= variables.map_values(|v: Variable| sim.value(v)));
}

/// A simulated device that does not answer gives a transport error; one
/// that answers under another key gives a protocol error.
pub proof fn lemma_simulator_silent(
    sim: SimulatorView,
    endpoint: EndpointView,
    variables: Seq<Variable>,
)
    requires
        !sim.hears(endpoint, endpoint.id),
    ensures
        read_result(
            variables.len(),
            sim.answer(endpoint, RequestView::Read { device: endpoint.id, variables }),
        ) == Err::<Seq<Scalar>, ClientError>(
            if sim.online && endpoint.id == sim.id {
                ClientError::Protocol
            } else {
                ClientError::Transport
            },
        ),
{
}

/// The toggle law. Read a variable of a simulated device that holds the
/// integer `state` for it, write the complement, and read again: the first
/// read shows `state`, the write is acknowledged, and the second read shows
/// the complement, which is another value.
pub proof fn lemma_toggle_round_trip(
    sim: SimulatorView,
    endpoint: EndpointView,
    variable: Variable,
    state: int,
)
    requires
        sim.complete(),
        sim.hears(endpoint, endpoint.id),
        sim.value(variable) == Scalar::Int(state),
    ensures
        ({
            let read = RequestView::Read { device: endpoint.id, variables: seq![variable] };
            let write = RequestView::Write {
                device: endpoint.id,
                assignments: seq![(variable, Scalar::Int(complement(state)))],
            };
            let then = sim.after(endpoint, read).after(endpoint, write);
            &&& read_result(1, sim.answer(endpoint, read)) == Ok::<Seq<Scalar>, ClientError>(
                seq![Scalar::Int(state)],
            )
            &&& write_result(sim.after(endpoint, read).answer(endpoint, write)) == Ok::<
                (),
                ClientError,
            >(())
            &&& read_result(1, then.answer(endpoint, read)) == Ok::<Seq<Scalar>, ClientError>(
                seq![Scalar::Int(complement(state))],
            )
            &&& complement(state) != state
        }),
{
    let variables = seq![variable];
    let assignments = seq![(variable, Scalar::Int(complement(state)))];
    let read = RequestView::Read { device: endpoint.id, variables };
    let write = RequestView::Write { device: endpoint.id, assignments };
    let then = sim.after(endpoint, read).after(endpoint, write);
    lemma_simulator_read(sim, endpoint, variables);
    assert(variables.map_values(|v: Variable| sim.value(v)) =~= seq![Scalar::Int(state)]);
    assert(assignments.drop_last() =~= Seq::<(Variable, Scalar)>::empty());
    assert(written(sim.state, assignments) == sim.state.update(
        variable.index(),
        Scalar::Int(complement(state)),
    )) by {
        reveal_with_fuel(written, 2);
    }
    assert(then.value(variable) == Scalar::Int(complement(state)));
    lemma_simulator_read(then, endpoint, variables);
    assert(variables.map_values(|v: Variable| then.value(v)) =~= seq![
        Scalar::Int(complement(state)),
    ]);
}

} // verus!
