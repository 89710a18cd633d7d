//! From a reply to the result of the call: the values of a read in the
//! order of the request, the acknowledgement of a write, or the error.

use crate::client::error::ClientError;
use crate::client::message::{data_view, Datum, Reply, ReplyView};
use crate::client::value::{Scalar, Value};
use vstd::prelude::*;

verus! {

/// Every position holds an integer or a text.
pub open spec fn decodable(data: Seq<Option<Scalar>>) -> bool {
    forall|i: int| 0 <= i < data.len() ==> (#[trigger] data[i]) is Some
}

/// The values that decodable data holds, position by position.
pub open spec fn decoded(data: Seq<Option<Scalar>>) -> Seq<Scalar> {
    data.map_values(|d: Option<Scalar>| d->0)
}

/// Some values as the contracts see them.
pub open spec fn values_view(values: Seq<Value>) -> Seq<Scalar> {
    values.map_values(|v: Value| v@)
}

/// What a read of `requested` variables comes to when `reply` is what came
/// back. A reply that is lost fails as its fault is classed. Data with a
/// position that holds neither an integer nor a text is no payload of the
/// expected form, and neither is the acknowledgement of a write. Data that
/// decodes but has another length than the request is a mismatch of shape.
/// Otherwise the result is the decoded data, position by position.
pub open spec fn read_result(requested: nat, reply: ReplyView) -> Result<Seq<Scalar>, ClientError> {
    match reply {
        ReplyView::Lost(fault) => Err(fault.class()),
        ReplyView::Done => Err(ClientError::Protocol),
        ReplyView::Status(data) => if !decodable(data) {
            Err(ClientError::Protocol)
        } else if data.len() != requested {
            Err(ClientError::Shape { requested: requested as usize, received: data.len() as usize })
        } else {
            Ok(decoded(data))
        },
    }
}

/// What a write comes to when `reply` is what came back: success on an
/// acknowledgement, and on nothing else.
pub open spec fn write_result(reply: ReplyView) -> Result<(), ClientError> {
    match reply {
        ReplyView::Lost(fault) => Err(fault.class()),
        ReplyView::Done => Ok(()),
        ReplyView::Status(_) => Err(ClientError::Protocol),
    }
}

/// The result of a read of `requested` variables, given the reply.
pub fn read_outcome(requested: usize, reply: Reply) -> (r: Result<Vec<Value>, ClientError>)
    ensures
        match r {
            Ok(values) => read_result(requested as nat, reply@) == Ok::<Seq<Scalar>, ClientError>(
                values_view(values@),
            ),
            Err(e) => read_result(requested as nat, reply@) == Err::<Seq<Scalar>, ClientError>(e),
        },
        r matches Ok(values) ==> values@.len() == requested,
        r matches Err(ClientError::Shape { requested: asked, received }) ==> asked == requested
            && received != requested,
{
    match reply {
        Reply::Lost(fault) => Err(fault.classify()),
        Reply::Done => Err(ClientError::Protocol),
        Reply::Status(data) => {
            let ghost view = data_view(data@);
            let mut values: Vec<Value> = Vec::new();
            for i in 0..data.len()
                invariant
                    reply@ == ReplyView::Status(view),
                    view == data_view(data@),
                    values@.len() == i,
                    forall|j: int| 0 <= j < i ==> (#[trigger] view[j]) is Some,
                    forall|j: int| 0 <= j < i ==> (#[trigger] values@[j])@ == view[j]->0,
            {
                match &data[i] {
                    Datum::Number(n) => {
                        values.push(Value::Int(*n));
                    },
                    Datum::Text(s) => {
                        values.push(Value::Str(s.clone()));
                    },
                    Datum::Other => {
                        assert(view[i as int] is None);
                        return Err(ClientError::Protocol);
                    },
                }
            }
            if values.len() != requested {
                Err(ClientError::Shape { requested, received: values.len() })
            } else {
                assert(values_view(values@) =~= decoded(view));
                Ok(values)
            }
        },
    }
}

/// The result of a write, given the reply.
pub fn write_outcome(reply: Reply) -> (r: Result<(), ClientError>)
    ensures
        r == write_result(reply@),
{
    match reply {
        Reply::Lost(fault) => Err(fault.classify()),
        Reply::Done => Ok(()),
        Reply::Status(_) => Err(ClientError::Protocol),
    }
}

} // verus!
