//! The actor service application and its per-worker state.  Workers are
//! statically typed: each carries its own backend client handle once its
//! thread has started.

use vstd::prelude::*;
use vstd::pervasive::unreached;
use crate::init::Client;

verus! {

/// The actor service application.
pub struct ActorApplication {}

impl ActorApplication {
    pub fn new() -> ActorApplication {
        ActorApplication {  }
    }
}

/// Per-thread worker instance.
pub struct ActorWorker {
    pub client: Option<Client>,
}

impl ActorWorker {
    pub fn new() -> (r: ActorWorker)
        ensures
            r.client is None,
    {
        ActorWorker { client: None }
    }

    /// Hand the worker its backend client when its thread starts.
    pub fn worker_start(&mut self, client: Client)
        ensures
            final(self).client == Some(client),
    {
        self.client = Some(client);
    }

    /// The worker's backend client; the worker must have been started.
    pub fn client(&self) -> (r: &Client)
        requires
            self.client is Some,
        ensures
            self.client == Some(*r),
    {
        match self.client.as_ref() {
            Some(c) => c,
            None => unreached(),
        }
    }

    /// Mutable access to the worker's backend client.
    pub fn client_mut(&mut self) -> (r: &mut Client)
        requires
            old(self).client is Some,
        ensures
            old(self).client matches Some(c) && *r == c,
            final(self).client == Some(*final(r)),
    {
        match &mut self.client {
            Some(c) => c,
            None => unreached(),
        }
    }
}

} // verus!
