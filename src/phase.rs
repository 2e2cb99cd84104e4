use vstd::prelude::*;

verus! {

/// The phase of water over which a saturation vapour pressure is taken.
#[derive(Clone, Copy, Debug, PartialEq, Eq, Structural)]
pub enum Phase {
    /// Liquid water.
    Liquid,
    /// Ice.
    Ice,
}

} // verus!
