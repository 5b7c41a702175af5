//! The server's registration state: routes, CORS policy and checkpoints,
//! populated once before serving begins and only read afterwards.

use vstd::prelude::*;
use crate::checkpoint::Checkpoint;
use crate::cors::CORSHandler;
use crate::cors::CorsView;
use crate::method::HttpMethod;
use crate::route::Route;

verus! {

/// A server: an address to bind, a port, and the read-only registration
/// state every connection is answered from. `F`, `RC` and `CC` are the
/// types of route handlers, route checks and checkpoint predicates.
pub struct Server<F, RC, CC> {
    pub address: [usize; 4],
    pub port: u32,
    pub routes: Vec<Route<F, RC>>,
    pub cors_handler: CORSHandler,
    pub checkpoints: Vec<Checkpoint<CC>>,
}

impl<F, RC, CC> Server<F, RC, CC> {
    /// An empty server with a deactivated CORS policy.
    pub fn new(address: [usize; 4], port: u32) -> (r: Option<Server<F, RC, CC>>)
        ensures
            r matches Some(s) && s.address == address && s.port == port && s.routes@
                == Seq::<Route<F, RC>>::empty() && s.checkpoints@ == Seq::<Checkpoint<CC>>::empty()
                && s.cors_handler@ == (CorsView {
                activated: false,
                origin: Seq::<Seq<char>>::empty(),
                methods_allowed: Seq::<HttpMethod>::empty(),
                headers_allowed: Seq::<Seq<char>>::empty(),
                max_age: 0u32,
            }),
    {
        let s = Server {
            address,
            port,
            routes: Vec::new(),
            cors_handler: CORSHandler::inert(),
            checkpoints: Vec::new(),
        };
        proof {
            assert(s.routes@ =~= Seq::<Route<F, RC>>::empty());
            assert(s.checkpoints@ =~= Seq::<Checkpoint<CC>>::empty());
        }
        Some(s)
    }

    /// Replaces the registered routes.
    pub fn set_routes(&mut self, routes: Vec<Route<F, RC>>)
        ensures
            final(self).routes == routes,
            final(self).address == old(self).address,
            final(self).port == old(self).port,
            final(self).cors_handler == old(self).cors_handler,
            final(self).checkpoints == old(self).checkpoints,
    {
        self.routes = routes;
    }

    /// Replaces the CORS policy.
    pub fn set_cors_handler(&mut self, cors: CORSHandler)
        ensures
            final(self).cors_handler == cors,
            final(self).address == old(self).address,
            final(self).port == old(self).port,
            final(self).routes == old(self).routes,
            final(self).checkpoints == old(self).checkpoints,
    {
        self.cors_handler = cors;
    }

    /// Adds a checkpoint, evaluated after parsing and before routing.
    pub fn add_checkpoint(&mut self, checkpoint: Checkpoint<CC>)
        ensures
            final(self).checkpoints@ == old(self).checkpoints@.push(checkpoint),
            final(self).address == old(self).address,
            final(self).port == old(self).port,
            final(self).routes == old(self).routes,
            final(self).cors_handler == old(self).cors_handler,
    {
        self.checkpoints.push(checkpoint);
    }
}

} // verus!
