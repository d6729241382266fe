use vstd::prelude::*;

use core::marker::PhantomData;

use crate::component::{decremented, incremented, model_wf, Component};
use crate::identifier::{IComponentVtbl, BASE_IID, IID};

verus! {

/// A handle to an interface of a component: the component's address, typed
/// by the interface's table `T`. Each live handle holds one unit of the
/// component's count.
#[derive(Debug)]
pub struct Interface<T> {
    pub component: u64,
    pub vtbl: PhantomData<T>,
}

/// A handle typed to the base contract.
pub type IComponent = Interface<IComponentVtbl>;

impl<T> Interface<T> {
    /// A handle to the component at `address`, typed by `T`.
    pub fn held(address: u64) -> (r: Interface<T>)
        ensures
            r.component == address,
    {
        Interface { component: address, vtbl: PhantomData }
    }

    /// The handle is one of component `c`.
    pub open spec fn held_by<C: Component>(&self, c: &C) -> bool {
        self.component == c.model().address
    }

    /// Casts to the interface whose table type is `U`, through component
    /// `c`'s query. Where `c` implements it, returns a new handle typed to
    /// it, which holds one more unit of the count; else returns `None` and
    /// leaves `c` as it was. The base contract is always found.
    pub fn get_interface<U: IID, C: Component>(&self, c: &mut C) -> (r: Option<Interface<U>>)
        requires
            old(c).inv(),
            model_wf(old(c).model()),
            old(c).model().count >= 1,
            self.held_by(old(c)),
            old(c).model().interfaces.contains(U::spec_iid()) ==> old(c).model().count
                < u64::MAX,
        ensures
            final(c).inv(),
            model_wf(final(c).model()),
            old(c).model().interfaces.contains(U::spec_iid()) ==> r is Some && r->0.component
                == self.component && final(c).model() == incremented(old(c).model()),
            !old(c).model().interfaces.contains(U::spec_iid()) ==> r is None && final(c).model()
                == old(c).model(),
            U::spec_iid() == BASE_IID ==> r is Some,
    {
        match c.query(U::iid()) {
            Some(base) => Some(Interface::<U>::held(base.component)),
            None => None,
        }
    }

    /// Copies the handle: counts one more holder of component `c` and
    /// returns a handle to the same interface.
    pub fn clone<C: Component>(&self, c: &mut C) -> (r: Interface<T>)
        requires
            old(c).inv(),
            model_wf(old(c).model()),
            old(c).model().count >= 1,
            self.held_by(old(c)),
            old(c).model().count < u64::MAX,
        ensures
            final(c).inv(),
            model_wf(final(c).model()),
            r.component == self.component,
            final(c).model() == incremented(old(c).model()),
    {
        c.increment_ref();
        Interface::<T>::held(self.component)
    }

    /// Destroys the handle: gives its unit of the count of component `c`
    /// back, which tears `c` down when it was the last one.
    pub fn drop<C: Component>(self, c: &mut C)
        requires
            old(c).inv(),
            model_wf(old(c).model()),
            old(c).model().count >= 1,
            self.held_by(old(c)),
        ensures
            final(c).inv(),
            model_wf(final(c).model()),
            final(c).model() == decremented(old(c).model()),
    {
        c.decrement_ref();
    }
}

} // verus!
