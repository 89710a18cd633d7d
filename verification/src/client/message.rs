//! What goes to the device and what comes back, as plain values: the layer
//! that encrypts and sends turns a request into a packet, and a packet, or
//! the lack of one, into a reply.

use crate::client::endpoint::Endpoint;
use crate::client::value::{Scalar, Value};
use crate::client::vars::Variable;
use vstd::prelude::*;
use vstd::slice::slice_to_vec;

verus! {

/// One request: a read of some variables, or a write of some. Each names the
/// device it is meant for.
#[derive(Debug, PartialEq, Eq)]
pub enum Request {
    Read { device: String, variables: Vec<Variable> },
    Write { device: String, assignments: Vec<(Variable, Value)> },
}

/// A request as the contracts see it.
pub ghost enum RequestView {
    Read { device: Seq<char>, variables: Seq<Variable> },
    Write { device: Seq<char>, assignments: Seq<(Variable, Scalar)> },
}

/// The assignments of a write as the contracts see them.
pub open spec fn assignments_view(assignments: Seq<(Variable, Value)>) -> Seq<(Variable, Scalar)> {
    assignments.map_values(|a: (Variable, Value)| (a.0, a.1@))
}

impl View for Request {
    type V = RequestView;

    open spec fn view(&self) -> RequestView {
        match self {
            Request::Read { device, variables } => RequestView::Read {
                device: device@,
                variables: variables@,
            },
            Request::Write { device, assignments } => RequestView::Write {
                device: device@,
                assignments: assignments_view(assignments@),
            },
        }
    }
}

/// What stands at one position of a reply's data: an integer, a text, or
/// something that is neither.
#[derive(Debug, PartialEq, Eq)]
pub enum Datum {
    Number(i64),
    Text(String),
    Other,
}

impl View for Datum {
    type V = Option<Scalar>;

    open spec fn view(&self) -> Option<Scalar> {
        match self {
            Datum::Number(n) => Some(Scalar::Int(*n as int)),
            Datum::Text(s) => Some(Scalar::Str(s@)),
            Datum::Other => None,
        }
    }
}

/// Why a round trip brought no usable packet.
#[derive(Debug, Clone, Copy, PartialEq, Eq, Structural)]
pub enum Fault {
    /// The socket failed.
    Io,
    /// A packet could not be handed on inside the client.
    Send,
    /// No reply came within the bound.
    RecvTimeout,
    /// The receiving side of the client has stopped.
    RecvDisconnected,
    /// No response came within the bound.
    ResponseTimeout,
    /// The device is not known on the network.
    NotFound,
    /// No key is bound to the device.
    MacNotBound,
    /// A packet or its payload is not the JSON that was expected.
    SerDe,
    /// The payload is not base64.
    Base64Decode,
    /// A number in the payload does not parse.
    ParseInt,
    /// The payload names a variable that does not exist.
    InvalidVar,
    /// The payload holds a value that its variable cannot take.
    InvalidValue,
}

/// The data of a reply as the contracts see it.
pub open spec fn data_view(data: Seq<Datum>) -> Seq<Option<Scalar>> {
    data.map_values(|d: Datum| d@)
}

/// What a round trip brought: nothing usable, the data of a read, or the
/// acknowledgement of a write.
#[derive(Debug, PartialEq, Eq)]
pub enum Reply {
    Lost(Fault),
    Status(Vec<Datum>),
    Done,
}

/// A reply as the contracts see it.
pub ghost enum ReplyView {
    Lost(Fault),
    Status(Seq<Option<Scalar>>),
    Done,
}

impl View for Reply {
    type V = ReplyView;

    open spec fn view(&self) -> ReplyView {
        match self {
            Reply::Lost(fault) => ReplyView::Lost(*fault),
            Reply::Status(data) => ReplyView::Status(data_view(data@)),
            Reply::Done => ReplyView::Done,
        }
    }
}

/// The request that reads `variables` from the device at `endpoint`.
pub fn read_request(endpoint: &Endpoint, variables: &[Variable]) -> (request: Request)
    ensures
        request@ == (RequestView::Read { device: endpoint@.id, variables: variables@ }),
{
    Request::Read { device: endpoint.id().to_owned(), variables: slice_to_vec(variables) }
}

/// The request that writes `assignments` to the device at `endpoint`.
pub fn write_request(endpoint: &Endpoint, assignments: &[(Variable, Value)]) -> (request: Request)
    ensures
        request@ == (RequestView::Write {
            device: endpoint@.id,
            assignments: assignments_view(assignments@),
        }),
{
    let mut copy: Vec<(Variable, Value)> = Vec::new();
    for i in 0..assignments.len()
        invariant
            copy@.len() == i,
            forall|j: int|
                0 <= j < i ==> (#[trigger] copy@[j]).0 == assignments@[j].0 && copy@[j].1@
                    == assignments@[j].1@,
    {
        copy.push((assignments[i].0, assignments[i].1.clone()));
    }
    assert(assignments_view(copy@) =~= assignments_view(assignments@));
    Request::Write { device: endpoint.id().to_owned(), assignments: copy }
}

} // verus!
