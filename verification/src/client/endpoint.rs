//! The device that a client talks to.

use vstd::prelude::*;

verus! {

/// One appliance: where it is, what it calls itself, and the key that it
/// shares with the client. None of the three is empty.
pub struct Endpoint {
    address: String,
    id: String,
    key: String,
}

/// An endpoint as the contracts see it.
pub ghost struct EndpointView {
    pub address: Seq<char>,
    pub id: Seq<char>,
    pub key: Seq<char>,
}

impl EndpointView {
    /// No field is empty.
    pub open spec fn complete(self) -> bool {
        &&& self.address.len() > 0
        &&& self.id.len() > 0
        &&& self.key.len() > 0
    }
}

impl View for Endpoint {
    type V = EndpointView;

    closed spec fn view(&self) -> EndpointView {
        EndpointView { address: self.address@, id: self.id@, key: self.key@ }
    }
}

impl Endpoint {
    #[verifier::type_invariant]
    spec fn well_formed(self) -> bool {
        self@.complete()
    }

    /// The endpoint with this address, identifier and key; `None` where one
    /// of them is empty.
    pub fn new(address: &str, id: &str, key: &str) -> (r: Option<Endpoint>)
        ensures
            match r {
                Some(endpoint) => {
                    &&& endpoint@ == (EndpointView { address: address@, id: id@, key: key@ })
                    &&& endpoint@.complete()
                },
                None => address@.len() == 0 || id@.len() == 0 || key@.len() == 0,
            },
    {
        if address.is_empty() || id.is_empty() || key.is_empty() {
            None
        } else {
            Some(Endpoint { address: address.to_owned(), id: id.to_owned(), key: key.to_owned() })
        }
    }

    /// The address of the device.
    pub fn address(&self) -> (r: &str)
        ensures
            r@ == self@.address,
            r@.len() > 0,
    {
        proof {
            use_type_invariant(self);
        }
        self.address.as_str()
    }

    /// The identifier of the device.
    pub fn id(&self) -> (r: &str)
        ensures
            r@ == self@.id,
            r@.len() > 0,
    {
        proof {
            use_type_invariant(self);
        }
        self.id.as_str()
    }

    /// The key that the device shares with the client.
    pub fn key(&self) -> (r: &str)
        ensures
            r@ == self@.key,
            r@.len() > 0,
    {
        proof {
            use_type_invariant(self);
        }
        self.key.as_str()
    }
}

} // verus!
