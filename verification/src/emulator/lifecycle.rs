use vstd::prelude::*;

verus! {

/// The power-on, reset, clock and halt events that every machine part sees.
///
/// Each event leaves a part unchanged unless the part gives it a meaning.
/// Events are defined on parts whose `valid` holds, and keep it.
pub trait Lifecycle: Sized {
    /// Whether the part is in a state on which its events are defined.
    open spec fn valid(&self) -> bool {
        true
    }

    fn reset(&mut self)
        requires
            old(self).valid(),
        ensures
            final(self).valid(),
        default_ensures
            *final(self) == *old(self),
    {
    }

    fn init(&mut self)
        requires
            old(self).valid(),
        ensures
            final(self).valid(),
        default_ensures
            *final(self) == *old(self),
    {
    }

    fn tick(&mut self)
        requires
            old(self).valid(),
        ensures
            final(self).valid(),
        default_ensures
            *final(self) == *old(self),
    {
    }

    fn halt(&mut self)
        requires
            old(self).valid(),
        ensures
            final(self).valid(),
        default_ensures
            *final(self) == *old(self),
    {
    }
}

} // verus!
