use vstd::prelude::*;

verus! {

/// Whether a supervised service is up, as published on a watch channel.
#[derive(Copy, Clone, Debug, Hash, PartialEq, Eq, Structural)]
pub enum ServiceState {
    Up,
    Down,
}

impl Default for ServiceState {
    fn default() -> (r: Self)
        ensures
            r == ServiceState::Down,
    {
        ServiceState::Down
    }
}

} // verus!
