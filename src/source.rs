//! Where a publisher connects, described as plain data.
use vstd::prelude::*;

verus! {

/// Address of a broker running on this machine.
pub const LOCAL_BROKER_URL: &'static str = "pulsar://127.0.0.1:6650";

/// Entry point for connecting to a Pulsar broker.
pub struct Pulsar;

impl Pulsar {
    /// Address used by a local connection.
    pub fn local_url() -> (r: &'static str)
        ensures
            r == LOCAL_BROKER_URL,
    {
        LOCAL_BROKER_URL
    }
}

/// Which broker to reach.
#[derive(Clone, Copy, Debug, PartialEq, Eq, Structural)]
pub enum Source {
    /// A broker on this machine.
    Local,
}

/// Which publish/subscribe system to speak.
#[derive(Clone, Copy, Debug, PartialEq, Eq, Structural)]
pub enum PubSubType {
    Pulsar,
}

/// A broker together with the system used to talk to it.
#[derive(Clone, Copy, Debug, PartialEq, Eq, Structural)]
pub struct ClientSpec {
    pub source: Source,
    pub pubsub_type: PubSubType,
}

impl Source {
    /// Speaks Pulsar to this broker.
    pub fn pulsar(self) -> (r: ClientSpec)
        ensures
            r.source == self,
            r.pubsub_type == PubSubType::Pulsar,
    {
        ClientSpec { source: self, pubsub_type: PubSubType::Pulsar }
    }

    /// The broker's address.
    pub fn url(&self) -> (r: &'static str)
        ensures
            *self == Source::Local ==> r == LOCAL_BROKER_URL,
    {
        match self {
            Source::Local => LOCAL_BROKER_URL,
        }
    }
}

} // verus!
