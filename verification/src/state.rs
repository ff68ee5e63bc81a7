//! The state that the webhook server and the Discord bot share.
use vstd::prelude::*;

use crate::engine::Engine;

verus! {

/// What every handler can read: the Instagram engine.
#[derive(Debug)]
pub struct State {
    pub engine: Engine,
}

impl State {
    /// The shared state around an engine.
    pub fn new(engine: Engine) -> (r: State)
        ensures
            r.engine == engine,
    {
        State { engine }
    }
}

} // verus!
