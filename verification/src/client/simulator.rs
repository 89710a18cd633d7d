//! A device that lives in memory: it holds a value for every variable and
//! answers requests as an appliance would. It stands in for the appliance
//! where there is none, and gives the laws of the client something to be
//! stated of.

use crate::client::endpoint::{Endpoint, EndpointView};
use crate::client::message::{
    assignments_view, data_view, Datum, Fault, Reply, ReplyView, Request, RequestView,
};
use crate::client::transport::Transport;
use crate::client::value::{Scalar, Value};
use crate::client::vars::{Variable, VARIABLES};
use crate::text::same_text;
use vstd::prelude::*;

verus! {

/// A simulated device.
pub struct Simulator {
    id: String,
    key: String,
    state: Vec<Value>,
    online: bool,
}

/// A simulated device as the contracts see it: `state` holds the value of
/// each variable at the variable's place in the registry.
pub ghost struct SimulatorView {
    pub id: Seq<char>,
    pub key: Seq<char>,
    pub state: Seq<Scalar>,
    pub online: bool,
}

/// The values of the variables as the contracts see them.
pub open spec fn state_view(state: Seq<Value>) -> Seq<Scalar> {
    state.map_values(|v: Value| v@)
}

impl SimulatorView {
    /// There is a value for every variable.
    pub open spec fn complete(self) -> bool {
        self.state.len() == VARIABLES
    }

    /// The value of `variable`.
    pub open spec fn value(self, variable: Variable) -> Scalar {
        self.state[variable.index()]
    }

    /// The device receives what is sent to `device`, and can read it: it is
    /// switched on, the request names it, and the key is its own.
    pub open spec fn hears(self, endpoint: EndpointView, device: Seq<char>) -> bool {
        self.online && device == self.id && endpoint.key == self.key
    }

    /// What the device has to say to a request.
    pub open spec fn answer(self, endpoint: EndpointView, request: RequestView) -> ReplyView {
        match request {
            RequestView::Read { device, variables } => if !self.online || device != self.id {
                ReplyView::Lost(Fault::RecvTimeout)
            } else if endpoint.key != self.key {
                ReplyView::Lost(Fault::SerDe)
            } else {
                ReplyView::Status(variables.map_values(|v: Variable| Some(self.value(v))))
            },
            RequestView::Write { device, assignments } => if !self.online || device != self.id {
                ReplyView::Lost(Fault::RecvTimeout)
            } else if endpoint.key != self.key {
                ReplyView::Lost(Fault::SerDe)
            } else {
                ReplyView::Done
            },
        }
    }

    /// The device after a request: a write that it hears changes the
    /// variables it assigns, and nothing else changes anything.
    pub open spec fn after(self, endpoint: EndpointView, request: RequestView) -> SimulatorView {
        match request {
            RequestView::Write { device, assignments } => if self.hears(endpoint, device) {
                SimulatorView { state: written(self.state, assignments), ..self }
            } else {
                self
            },
            RequestView::Read { .. } => self,
        }
    }
}

/// The values after `assignments` were made in order, a later one winning
/// over an earlier one of the same variable.
pub open spec fn written(state: Seq<Scalar>, assignments: Seq<(Variable, Scalar)>) -> Seq<Scalar>
    decreases assignments.len(),
{
    if assignments.len() == 0 {
        state
    } else {
        written(state, assignments.drop_last()).update(
            assignments.last().0.index(),
            assignments.last().1,
        )
    }
}

/// A copy of `values`.
fn copy_values(values: &Vec<Value>) -> (copy: Vec<Value>)
    ensures
        copy@.len() == values@.len(),
        state_view(copy@) == state_view(values@),
{
    let mut copy: Vec<Value> = Vec::new();
    for i in 0..values.len()
        invariant
            copy@.len() == i,
            forall|j: int| 0 <= j < i ==> (#[trigger] copy@[j])@ == values@[j]@,
    {
        copy.push(values[i].clone());
    }
    assert(state_view(copy@) =~= state_view(values@));
    copy
}

impl View for Simulator {
    type V = SimulatorView;

    closed spec fn view(&self) -> SimulatorView {
        SimulatorView {
            id: self.id@,
            key: self.key@,
            state: state_view(self.state@),
            online: self.online,
        }
    }
}

impl Simulator {
    #[verifier::type_invariant]
    spec fn well_formed(self) -> bool {
        self.state@.len() == VARIABLES
    }

    /// A device that is switched on and holds the integer 0 for every
    /// variable.
    pub fn new(id: &str, key: &str) -> (sim: Simulator)
        ensures
            sim@.id == id@,
            sim@.key == key@,
            sim@.online,
            sim@.complete(),
            forall|v: Variable| sim@.value(v) == Scalar::Int(0),
    {
        let mut state: Vec<Value> = Vec::new();
        for i in 0..VARIABLES
            invariant
                state@.len() == i,
                forall|j: int| 0 <= j < i ==> (#[trigger] state@[j])@ == Scalar::Int(0),
        {
            state.push(Value::Int(0));
        }
        Simulator { id: id.to_owned(), key: key.to_owned(), state, online: true }
    }

    /// Switches the device on or off. One that is off answers nothing.
    pub fn switch(&mut self, online: bool)
        ensures
            final(self)@ == (SimulatorView { online, ..old(self)@ }),
    {
        proof {
            use_type_invariant(&*self);
        }
        self.online = online;
    }

    /// Gives `variable` the value `value`, as the remote control in the room
    /// would.
    pub fn store(&mut self, variable: Variable, value: Value)
        ensures
            final(self)@ == (SimulatorView {
                state: old(self)@.state.update(variable.index(), value@),
                ..old(self)@
            }),
            final(self)@.complete(),
    {
        proof {
            use_type_invariant(&*self);
        }
        let mut state = copy_values(&self.state);
        state.set(variable.position(), value);
        assert(state_view(state@) =~= state_view(self.state@).update(variable.index(), value@));
        self.state = state;
    }

    /// The value that the device holds for `variable`.
    pub fn load(&self, variable: Variable) -> (value: Value)
        ensures
            value@ == self@.value(variable),
            self@.complete(),
    {
        proof {
            use_type_invariant(self);
        }
        self.state[variable.position()].clone()
    }
}

impl Transport for Simulator {
    /// A simulated device answers as its state says, and is left in the
    /// state after the request.
    open spec fn answers(
        &self,
        endpoint: EndpointView,
        request: RequestView,
        reply: ReplyView,
        then: &Self,
    ) -> bool {
        &&& reply == self@.answer(endpoint, request)
        &&& then@ == self@.after(endpoint, request)
    }

    fn round_trip(&mut self, endpoint: &Endpoint, request: &Request) -> (reply: Reply)
        ensures
            reply@ == old(self)@.answer(endpoint@, request@),
            final(self)@ == old(self)@.after(endpoint@, request@),
            final(self)@.complete(),
    {
        proof {
            use_type_invariant(&*self);
        }
        match request {
            Request::Read { device, variables } => {
                if !self.online || !same_text(device.as_str(), self.id.as_str()) {
                    return Reply::Lost(Fault::RecvTimeout);
                }
                if !same_text(endpoint.key(), self.key.as_str()) {
                    return Reply::Lost(Fault::SerDe);
                }
                let mut data: Vec<Datum> = Vec::new();
                for i in 0..variables.len()
                    invariant
                        self.state@.len() == VARIABLES,
                        data@.len() == i,
                        forall|j: int|
                            0 <= j < i ==> (#[trigger] data@[j])@ == Some(
                                self@.value(variables@[j]),
                            ),
                {
                    let datum = match &self.state[variables[i].position()] {
                        Value::Int(n) => Datum::Number(*n),
                        Value::Str(s) => Datum::Text(s.clone()),
                    };
                    data.push(datum);
                }
                assert(data_view(data@) =~= variables@.map_values(
                    |v: Variable| Some(self@.value(v)),
                ));
                Reply::Status(data)
            },
            Request::Write { device, assignments } => {
                if !self.online || !same_text(device.as_str(), self.id.as_str()) {
                    return Reply::Lost(Fault::RecvTimeout);
                }
                if !same_text(endpoint.key(), self.key.as_str()) {
                    return Reply::Lost(Fault::SerDe);
                }
                let mut state = copy_values(&self.state);
                let ghost made = assignments_view(assignments@);
                assert(made.take(0) == Seq::<(Variable, Scalar)>::empty());
                for i in 0..assignments.len()
                    invariant
                        made == assignments_view(assignments@),
                        state@.len() == VARIABLES,
                        state_view(state@) == written(state_view(self.state@), made.take(i as int)),
                {
                    let ghost before = state@;
                    state.set(assignments[i].0.position(), assignments[i].1.clone());
                    proof {
                        assert(made.take(i + 1).drop_last() == made.take(i as int));
                        assert(made.take(i + 1).last() == made[i as int]);
                        assert(state_view(state@) =~= state_view(before).update(
                            assignments@[i as int].0.index(),
                            assignments@[i as int].1@,
                        ));
                    }
                }
                assert(made.take(assignments@.len() as int) == made);
                self.state = state;
                Reply::Done
            },
        }
    }
}

} // verus!
