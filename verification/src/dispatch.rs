//! The two pools of the dispatcher. Requests that pass the admission check
//! are served from the priority pool, anonymous ones from the public pool,
//! and neither pool ever lends a slot to the other.

use crate::admission::Route;
use crate::pool::{checked_out, Render, RenderPool};
use vstd::prelude::*;

verus! {

/// One of the two pools.
#[derive(Clone, Copy, Debug, PartialEq, Eq, Structural)]
pub enum Lane {
    Priority,
    Public,
}

/// The pool that serves a route; none serves a rejected request.
pub open spec fn lane_of(route: Route) -> Option<Lane> {
    match route {
        Route::Priority => Some(Lane::Priority),
        Route::Public => Some(Lane::Public),
        Route::Rejected => None,
    }
}

/// The priority pool and the public pool, for one backend.
pub struct PoolPair<T> {
    pub priority: RenderPool<T>,
    pub public: RenderPool<T>,
}

impl Route {
    /// The pool that serves this route.
    pub fn lane(self) -> (lane: Option<Lane>)
        ensures
            lane == lane_of(self),
    {
        match self {
            Route::Priority => Some(Lane::Priority),
            Route::Public => Some(Lane::Public),
            Route::Rejected => None,
        }
    }
}

impl<T> PoolPair<T> {
    /// The pool of `lane`.
    pub open spec fn spec_pool(&self, lane: Lane) -> RenderPool<T> {
        match lane {
            Lane::Priority => self.priority,
            Lane::Public => self.public,
        }
    }

    /// Both pools are full.
    pub open spec fn wf(&self) -> bool {
        self.priority.wf() && self.public.wf()
    }

    /// Two pools of the given sizes for the backend at `addr`, each slot
    /// scheduled by a call of `connect`.
    pub fn new<F: Fn(&str) -> T>(
        priority_size: usize,
        public_size: usize,
        addr: &str,
        connect: &F,
    ) -> (pair: Self)
        requires
            connect.requires((addr,)),
        ensures
            pair.priority.spec_size() == priority_size,
            pair.priority.spec_addr() == addr@,
            pair.public.spec_size() == public_size,
            pair.public.spec_addr() == addr@,
            pair.wf(),
            forall|i: int|
                0 <= i < priority_size ==> connect.ensures((addr,), #[trigger] pair.priority@[i]),
            forall|i: int|
                0 <= i < public_size ==> connect.ensures((addr,), #[trigger] pair.public@[i]),
    {
        PoolPair {
            priority: RenderPool::new(priority_size, addr, connect),
            public: RenderPool::new(public_size, addr, connect),
        }
    }

    /// The pool of `lane`.
    pub fn pool(&self, lane: Lane) -> (pool: &RenderPool<T>)
        ensures
            *pool == self.spec_pool(lane),
    {
        match lane {
            Lane::Priority => &self.priority,
            Lane::Public => &self.public,
        }
    }

    /// A render call on the pool of `lane` that has made no attempt yet.
    pub fn begin(&self, lane: Lane) -> (render: Render)
        ensures
            render.size == self.spec_pool(lane).spec_size(),
            render.failed == 0,
    {
        Render::new(self.pool(lane).size())
    }

    /// One attempt's turn at the pool of `lane`: queues `replacement` there
    /// and takes that pool's oldest slot. The other pool is left alone, so
    /// no request in one lane takes a slot from the other.
    pub fn checkout(&mut self, lane: Lane, replacement: T) -> (slot: T)
        ensures
            final(self).spec_pool(lane).spec_size() == old(self).spec_pool(lane).spec_size(),
            final(self).spec_pool(lane).spec_addr() == old(self).spec_pool(lane).spec_addr(),
            slot == old(self).spec_pool(lane)@.push(replacement)[0],
            final(self).spec_pool(lane)@ == checked_out(old(self).spec_pool(lane)@, replacement),
            lane == Lane::Priority ==> final(self).public == old(self).public,
            lane == Lane::Public ==> final(self).priority == old(self).priority,
            old(self).wf() ==> final(self).wf(),
    {
        match lane {
            Lane::Priority => self.priority.checkout(replacement),
            Lane::Public => self.public.checkout(replacement),
        }
    }
}

} // verus!
