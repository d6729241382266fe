use vstd::prelude::*;

verus! {

/// The identifier of the base contract, which every component supports.
pub const BASE_IID: u128 = 0;

/// Binds an interface's table type to its 128-bit identifier.
pub trait IID {
    /// The identifier, as contracts speak of it.
    spec fn spec_iid() -> u128;

    /// The identifier.
    fn iid() -> (r: u128)
        ensures
            r == Self::spec_iid(),
    ;
}

/// The base contract's table type. A handle typed by it reaches only the
/// operations of `Component`, which every interface's handle reaches too.
#[derive(Clone, Copy, Debug, PartialEq, Eq, Structural)]
pub struct IComponentVtbl {}

impl IID for IComponentVtbl {
    open spec fn spec_iid() -> u128 {
        BASE_IID
    }

    fn iid() -> (r: u128) {
        BASE_IID
    }
}

} // verus!
