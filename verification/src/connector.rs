use vstd::prelude::*;

verus! {

/// Stub connector toward a downstream message broker.
///
/// A message is accepted only after an explicit `connect`. Actual delivery
/// (the wire I/O) is outside the library; `publish` here is the accept/reject
/// decision the stub makes.
pub struct RabbitConnector {
    url: String,
    connected: bool,
}

impl RabbitConnector {
    /// The broker URL this connector was created with.
    pub closed spec fn url(self) -> Seq<char> {
        self.url@
    }

    /// Whether `connect` has been called on this connector.
    pub closed spec fn connected(self) -> bool {
        self.connected
    }

    pub fn new(url: String) -> (c: Self)
        ensures
            c.url() == url@,
            !c.connected(),
    {
        RabbitConnector { url, connected: false }
    }

    pub fn connect(&mut self) -> (r: bool)
        ensures
            final(self).connected(),
            final(self).url() == old(self).url(),
            r,
    {
        self.connected = true;
        true
    }

    /// Whether a publish to `queue` with payload `msg` is accepted: exactly
    /// when the connector is connected. Delivery itself happens outside the
    /// library, only for accepted messages.
    pub fn publish(&self, queue: &str, msg: &str) -> (r: bool)
        ensures
            r == self.connected(),
    {
        let _ = queue;
        let _ = msg;
        self.connected
    }
}

} // verus!
