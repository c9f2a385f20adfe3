use vstd::prelude::*;

verus! {

/// The user's interface preferences; `None` leaves the default in force.
#[derive(Clone, Copy, Debug, PartialEq, Eq, Structural)]
pub struct Preferences {
    pub unceasing_animations: Option<bool>,
    pub sound_on: Option<bool>,
}

impl Default for Preferences {
    fn default() -> (r: Preferences)
        ensures
            r.unceasing_animations is None,
            r.sound_on is None,
    {
        Preferences { unceasing_animations: None, sound_on: None }
    }
}

/// A sound the interface can play.
#[derive(Clone, Copy, Debug, PartialEq, Eq, Structural)]
pub enum Sound {
    Switch,
    Whoosh,
}

} // verus!
