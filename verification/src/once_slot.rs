//! Process-wide state initialized exactly once, read thereafter.
//!
//! The extension host keeps a single server handle alive for the life of the
//! process.  Rather than an unguarded global `Option`, the handle lives in an
//! owning container whose accessor enforces the contract: the first
//! initialization succeeds and every later one is refused, so the reader
//! either sees nothing or always the same value.

use vstd::prelude::*;

verus! {

/// A container for a value set at most once.
pub struct OnceSlot<T> {
    value: Option<T>,
}

impl<T> OnceSlot<T> {
    /// The stored value, if initialization has happened.
    pub closed spec fn view(&self) -> Option<T> {
        self.value
    }

    /// An empty, not yet initialized slot.
    pub fn new() -> (r: Self)
        ensures
            r@ is None,
    {
        OnceSlot { value: None }
    }

    /// Stores `value` if the slot is still empty; a second initialization is
    /// refused and hands the rejected value back.
    pub fn init(&mut self, value: T) -> (r: Result<(), T>)
        ensures
            old(self)@ is None ==> final(self)@ == Some(value) && r is Ok,
            old(self)@ is Some ==> final(self)@ == old(self)@ && r == Err::<(), T>(value),
    {
        match &self.value {
            Option::None => {
                self.value = Some(value);
                Ok(())
            },
            Some(_) => Err(value),
        }
    }

    /// The stored value, or nothing before initialization.  Never clears.
    pub fn get(&self) -> (r: Option<&T>)
        ensures
            match r {
                Some(v) => self@ == Some(*v),
                Option::None => self@ is None,
            },
    {
        self.value.as_ref()
    }

    /// Whether initialization has happened.
    pub fn is_initialized(&self) -> (r: bool)
        ensures
            r == (self@ is Some),
    {
        match &self.value {
            Some(_) => true,
            Option::None => false,
        }
    }
}

} // verus!
