//! The event forwarder: a best-effort adapter that sends one named,
//! tagged event to the external statsd collector per qualifying record.

use vstd::prelude::*;
use crate::errors::InitError;
use crate::errors::SendError;

verus! {

#[verifier::external_type_specification]
#[verifier::external_body]
pub struct ExClient(dogstatsd::Client);

#[verifier::external_type_specification]
#[verifier::external_body]
pub struct ExDogstatsdError(dogstatsd::DogstatsdError);

/// Relies on dogstatsd::Client::new, with options built by
/// dogstatsd::Options::new: binds the client's sending socket for the
/// given addresses and namespace, with no unix socket, no batching, and
/// no default tags beyond those dogstatsd itself merges from the DD_ENV,
/// DD_SERVICE and DD_VERSION environment variables; an error is
/// returned when the socket cannot be bound.
#[verifier::external_body]
fn dog_client_new(from_addr: &str, to_addr: &str, namespace: &str) -> Result<
    dogstatsd::Client,
    dogstatsd::DogstatsdError,
> {
    let opts = dogstatsd::Options::new(from_addr, to_addr, namespace, Vec::new(), None, None);
    dogstatsd::Client::new(opts)
}

/// Relies on dogstatsd::Client::new and Result::unwrap: constructs the
/// client for the default configuration (as `dog_client_new` does) and
/// panics when that fails. This is the fail-fast startup path: the
/// construction failure spec'd as fatal is reported by the panic, never
/// silently dropped.
#[verifier::external_body]
fn dog_client_new_fail_fast() -> dogstatsd::Client {
    let opts = dogstatsd::Options::new("0.0.0.0:0", "127.0.0.1:8125", "", Vec::new(), None, None);
    dogstatsd::Client::new(opts).unwrap()
}

/// Relies on dogstatsd::Client::event: sends one event datagram with the
/// given title, text and tags to the collector. The outcome depends on
/// the network alone, so nothing is promised of it.
#[verifier::external_body]
fn dog_event(client: &dogstatsd::Client, title: &str, text: &str, tags: &Vec<String>) -> Result<
    (),
    dogstatsd::DogstatsdError,
> {
    client.event(title, text, tags)
}

/// Turns records into named events and sends them to the external
/// collector, best effort: delivery is never guaranteed and never
/// retried.
pub struct EventForwarder {
    client: dogstatsd::Client,
}

impl EventForwarder {
    /// A forwarder sending from `from_addr` to the collector at
    /// `to_addr`, prefixing metrics with `namespace`; fails with
    /// `CollectorConstruction` exactly when the client cannot be built.
    pub fn with_config(from_addr: &str, to_addr: &str, namespace: &str) -> (r: Result<
        EventForwarder,
        InitError,
    >)
        ensures
            r matches Err(e) ==> e == InitError::CollectorConstruction,
    {
        match dog_client_new(from_addr, to_addr, namespace) {
            Ok(c) => Ok(EventForwarder { client: c }),
            Err(_) => Err(InitError::CollectorConstruction),
        }
    }

    /// A forwarder with the default configuration: any local port, the
    /// local collector endpoint, an empty namespace.
    pub fn with_default_config() -> (r: Result<EventForwarder, InitError>)
        ensures
            r matches Err(e) ==> e == InitError::CollectorConstruction,
    {
        EventForwarder::with_config("0.0.0.0:0", "127.0.0.1:8125", "")
    }

    /// As `with_default_config`, panicking instead of returning the
    /// construction error — for the fail-fast initializers.
    pub fn with_default_config_fail_fast() -> EventForwarder {
        EventForwarder { client: dog_client_new_fail_fast() }
    }

    /// Sends one event, best effort. A failed attempt comes back as
    /// `SendError`, is never retried, and never panics; whether the
    /// attempt succeeds depends on the network, so success is not owed
    /// on any input.
    pub fn forward(&self, name: &str, text: &str, tags: &Vec<String>) -> Result<(), SendError> {
        match dog_event(&self.client, name, text, tags) {
            Ok(()) => Ok(()),
            Err(_) => Err(SendError),
        }
    }
}

} // verus!
