//! The two-phase game lifecycle exposed to the external driver: a game is
//! `Loading` until its assets are resident, then `Loaded` and ticking. The
//! asynchronous asset fetch itself belongs to the driver; this core owns the
//! state and the double-initialization guard.

use vstd::prelude::*;
use crate::world::{spec_ticked, KeyState, Walk};

verus! {

/// Failure surfaced to the driver.
#[derive(Clone, Copy, PartialEq, Eq, Structural, Debug)]
pub enum GameError {
    /// `initialize` was called on a game that is already `Loaded`.
    AlreadyInitialized,
}

impl GameError {
    /// A human-readable account of the failure.
    pub fn message(&self) -> (r: &'static str)
        ensures
            self is AlreadyInitialized ==> r@ == "Error: Game is already initialized!"@,
    {
        match self {
            GameError::AlreadyInitialized => "Error: Game is already initialized!",
        }
    }
}

/// The outer lifecycle wrapper: `Loading` before assets are resident,
/// `Loaded` afterwards.
pub enum WalkTheDog {
    Loading,
    Loaded(Walk),
}

impl WalkTheDog {
    /// A fresh, not yet loaded game.
    pub fn new() -> (r: WalkTheDog)
        ensures
            r is Loading,
    {
        WalkTheDog::Loading
    }

    /// Install the world built during the loading phase. Fails — and leaves
    /// the game untouched — exactly when the game is already loaded: the
    /// double-initialization guard.
    pub fn initialize(&mut self, walk: Walk) -> (r: Result<(), GameError>)
        ensures
            *old(self) is Loading ==> ({
                &&& r is Ok
                &&& *final(self) matches WalkTheDog::Loaded(w)
                &&& w == walk
            }),
            *old(self) is Loaded ==> ({
                &&& r matches Err(e)
                &&& e is AlreadyInitialized
                &&& *final(self) == *old(self)
            }),
    {
        match self {
            WalkTheDog::Loading => {
                *self = WalkTheDog::Loaded(walk);
                Ok(())
            },
            WalkTheDog::Loaded(_) => Err(GameError::AlreadyInitialized),
        }
    }

    /// One tick: a no-op while loading, one world tick once loaded.
    pub fn update(&mut self, keystate: &KeyState)
        requires
            *old(self) matches WalkTheDog::Loaded(w) ==> w.tick_ok(),
        ensures
            *old(self) is Loading ==> *final(self) is Loading,
            *old(self) matches WalkTheDog::Loaded(w) ==> ({
                &&& *final(self) matches WalkTheDog::Loaded(w2)
                &&& spec_ticked(w, *keystate, w2)
                &&& w2.boy.wf()
            }),
    {
        let mut taken = WalkTheDog::Loading;
        core::mem::swap(&mut taken, self);
        match taken {
            WalkTheDog::Loading => {},
            WalkTheDog::Loaded(mut walk) => {
                walk.update(keystate);
                *self = WalkTheDog::Loaded(walk);
            },
        }
    }

    /// Executable form of `update`'s precondition: the guard a caller runs
    /// each tick.
    pub fn ready(&self) -> (r: bool)
        ensures
            r == (self matches WalkTheDog::Loaded(w) ==> w.tick_ok()),
    {
        match self {
            WalkTheDog::Loading => true,
            WalkTheDog::Loaded(walk) => walk.ready(),
        }
    }
}

} // verus!
