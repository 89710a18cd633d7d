//! The air conditioner in the status bar: whether it runs, and the switch
//! that turns it on and off.

use crate::client::decode::{read_result, values_view, write_result};
use crate::client::endpoint::{Endpoint, EndpointView};
use crate::client::error::ClientError;
use crate::client::laws::complement;
use crate::client::message::{assignments_view, RequestView};
use crate::client::transport::{
    get, one_more, read_of, write_of, Client, Exchange, Transport,
};
use crate::client::value::{Scalar, Value};
use crate::client::vars::Variable;
use crate::types::{Block, Response};
use vstd::prelude::*;

verus! {

/// What the helper was called for.
#[derive(Debug, Clone, Copy, PartialEq, Eq, Structural)]
pub enum Mode {
    /// Toggle the unit once.
    Toggle,
    /// Show the state of the unit, again and again.
    Listen,
    /// Nothing was asked for.
    Idle,
}

/// The mode that the switches of the command line ask for: toggling comes
/// before listening.
pub open spec fn mode_of(toggle: bool, listen: bool) -> Mode {
    if toggle {
        Mode::Toggle
    } else if listen {
        Mode::Listen
    } else {
        Mode::Idle
    }
}

/// The block for a unit that runs, or does not.
pub open spec fn shown(running: bool) -> Block {
    Block {
        class: if running {
            "ac-on"@
        } else {
            "ac-off"@
        },
        text: ""@,
    }
}

/// A read of the power state says that the unit runs: it succeeded, and its
/// first value is the integer 1.
pub open spec fn runs(read: Result<Seq<Scalar>, ClientError>) -> bool {
    read matches Ok(values) && values.len() > 0 && values[0] == Scalar::Int(1)
}

/// The value to write in order to toggle, given what a read of the power
/// state brought: the complement of its first value, where that is an
/// integer and not negative, and nothing otherwise.
pub open spec fn toggled(values: Seq<Scalar>) -> Option<Scalar> {
    if values.len() > 0 && values[0] is Int && values[0]->Int_0 >= 0 {
        Some(Scalar::Int(complement(values[0]->Int_0)))
    } else {
        None
    }
}

/// The request that reads the power state of the unit at `endpoint`.
pub open spec fn power_read(endpoint: EndpointView) -> RequestView {
    read_of(endpoint, seq![Variable::Power])
}

/// The request that writes `value` as the power state of the unit at
/// `endpoint`.
pub open spec fn power_write(endpoint: EndpointView, value: Scalar) -> RequestView {
    write_of(endpoint, seq![(Variable::Power, value)])
}

/// The result of a toggle as the contracts see it.
pub open spec fn toggle_view(r: Result<Option<Value>, ClientError>) -> Result<
    Option<Scalar>,
    ClientError,
> {
    match r {
        Ok(Some(value)) => Ok(Some(value@)),
        Ok(None) => Ok(None),
        Err(e) => Err(e),
    }
}

/// What a toggle is, told by the record of its round trips: `before` is the
/// record when it began, `after` the record when it ended, `r` its result.
/// First the power state is read. A read that fails fails the toggle, and
/// nothing more is sent. Where what was read has no complement, nothing
/// more is sent either, and nothing is the result. Else one write follows,
/// of the complement, which is the result if the write is acknowledged; a
/// write that fails fails the toggle.
pub open spec fn toggle_made(
    before: Seq<Exchange>,
    after: Seq<Exchange>,
    endpoint: EndpointView,
    r: Result<Option<Scalar>, ClientError>,
) -> bool {
    let n = before.len() as int;
    &&& after.len() > n
    &&& after.take(n) == before
    &&& after[n].endpoint == endpoint
    &&& after[n].request == power_read(endpoint)
    &&& match read_result(1, after[n].reply) {
        Err(e) => after.len() == n + 1 && r == Err::<Option<Scalar>, ClientError>(e),
        Ok(values) => match toggled(values) {
            None => after.len() == n + 1 && r == Ok::<Option<Scalar>, ClientError>(None),
            Some(value) => {
                &&& after.len() == n + 2
                &&& after[n + 1].endpoint == endpoint
                &&& after[n + 1].request == power_write(endpoint, value)
                &&& r == match write_result(after[n + 1].reply) {
                    Ok(_) => Ok::<Option<Scalar>, ClientError>(Some(value)),
                    Err(e) => Err(e),
                }
            },
        },
    }
}

/// What the transport had to do with a toggle: `first` is the transport
/// when the toggle began, `last` the transport when it ended, and `before`
/// and `after` are the records as in `toggle_made`. Each round trip on
/// record is one that the transport could answer so, in the state in which
/// the round trip before it left it.
pub open spec fn toggle_answered<T: Transport>(
    first: T,
    last: T,
    endpoint: EndpointView,
    before: Seq<Exchange>,
    after: Seq<Exchange>,
) -> bool {
    let n = before.len() as int;
    if after.len() == n + 2 {
        exists|middle: T|
            {
                &&& #[trigger] first.answers(endpoint, after[n].request, after[n].reply, &middle)
                &&& middle.answers(endpoint, after[n + 1].request, after[n + 1].reply, &last)
            }
    } else {
        first.answers(endpoint, after[n].request, after[n].reply, &last)
    }
}

/// The mode that the switches of the command line ask for.
pub fn mode(toggle: bool, listen: bool) -> (r: Mode)
    ensures
        r == mode_of(toggle, listen),
{
    if toggle {
        Mode::Toggle
    } else if listen {
        Mode::Listen
    } else {
        Mode::Idle
    }
}

/// The block for a unit that runs, or does not.
pub fn output(running: bool) -> (r: Response<'static>)
    ensures
        r@ == shown(running),
{
    let text = "";
    let mut class = "ac-off";
    if running {
        class = "ac-on";
    }
    Response { class, text }
}

/// Whether a read of the power state says that the unit runs. A read that
/// failed says that it does not.
pub fn is_running(read: &Result<Vec<Value>, ClientError>) -> (r: bool)
    ensures
        r == runs(
            match read {
                Ok(values) => Ok(values_view(values@)),
                Err(e) => Err(*e),
            },
        ),
{
    match read {
        Ok(values) => {
            if values.len() == 0 {
                return false;
            }
            match values[0].as_u64() {
                Some(on) => on == 1,
                None => false,
            }
        },
        Err(_) => false,
    }
}

/// The value to write in order to toggle, given what a read of the power
/// state brought.
pub fn toggle_value(values: &Vec<Value>) -> (r: Option<Value>)
    ensures
        match r {
            Some(value) => toggled(values_view(values@)) == Some(value@),
            None => toggled(values_view(values@)) is None,
        },
{
    if values.len() == 0 {
        return None;
    }
    match values[0].as_u64() {
        Some(on) => {
            let alt: i64 = if on == 1 {
                0
            } else {
                1
            };
            Some(Value::Int(alt))
        },
        None => None,
    }
}

/// One tick of the display: reads the power state, in one round trip, and
/// gives the block to show. Whatever goes wrong, the block is the one for a
/// unit that is off.
pub fn poll<T: Transport>(client: &mut Client<T>, endpoint: &Endpoint) -> (r: Response<'static>)
    ensures
        old(client).device().answers(
            endpoint@,
            power_read(endpoint@),
            final(client).history().last().reply,
            &final(client).device(),
        ),
        one_more(old(client).history(), final(client).history(), endpoint@, power_read(endpoint@)),
        r@ == shown(runs(read_result(1, final(client).history().last().reply))),
{
    let variables = [Variable::Power];
    assert(variables@ =~= seq![Variable::Power]);
    let read = get(client, endpoint, variables.as_slice());
    output(is_running(&read))
}

/// Toggles the unit: reads the power state and writes its complement. The
/// result is the value written, or `None` where the power state that came
/// back was no integer to take the complement of, and nothing was written.
pub fn toggle<T: Transport>(client: &mut Client<T>, endpoint: &Endpoint) -> (r: Result<
    Option<Value>,
    ClientError,
>)
    ensures
        toggle_made(old(client).history(), final(client).history(), endpoint@, toggle_view(r)),
        toggle_answered(
            old(client).device(),
            final(client).device(),
            endpoint@,
            old(client).history(),
            final(client).history(),
        ),
        r matches Ok(Some(value)) ==> value@ == Scalar::Int(0) || value@ == Scalar::Int(1),
        r matches Err(ClientError::Shape { requested, received }) ==> requested == 1 && received
            != 1,
{
    let ghost before = client.history();
    let ghost first = client.device();
    let variables = [Variable::Power];
    assert(variables@ =~= seq![Variable::Power]);
    let read = get(client, endpoint, variables.as_slice());
    let ghost middle = client.history();
    let ghost halfway = client.device();
    proof {
        assert(middle.take(before.len() as int) == before);
        assert(middle[before.len() as int] == middle.last());
    }
    let values = match read {
        Ok(values) => values,
        Err(e) => {
            return Err(e);
        },
    };
    match toggle_value(&values) {
        Some(value) => {
            let assignments = [(Variable::Power, value.clone())];
            assert(assignments_view(assignments@) =~= seq![(Variable::Power, value@)]);
            let written = crate::client::transport::set(client, endpoint, assignments.as_slice());
            proof {
                let after = client.history();
                assert(after.take(before.len() as int) == middle.take(before.len() as int));
                assert(after[before.len() as int] == middle[before.len() as int]);
                assert(after[before.len() as int + 1] == after.last());
                let n = before.len() as int;
                assert(first.answers(endpoint@, after[n].request, after[n].reply, &halfway));
                assert(halfway.answers(
                    endpoint@,
                    after[n + 1].request,
                    after[n + 1].reply,
                    &client.device(),
                ));
            }
            match written {
                Ok(()) => Ok(Some(value)),
                Err(e) => Err(e),
            }
        },
        None => Ok(None),
    }
}

} // verus!
