use vstd::prelude::*;

use crate::identifier::{IComponentVtbl, BASE_IID};
use crate::interface::{IComponent, Interface};

verus! {

/// What a component is, as the core sees it.
pub struct ComponentModel {
    /// The address that identifies the component.
    pub address: u64,
    /// The identifiers its query operation answers to.
    pub interfaces: Set<u128>,
    /// Its reference count: the number of live handles.
    pub count: nat,
    /// How many times it has been torn down.
    pub teardowns: nat,
}

/// The component after one increment of its count.
pub open spec fn incremented(m: ComponentModel) -> ComponentModel {
    ComponentModel { count: m.count + 1, ..m }
}

/// The component after one decrement of its count: the decrement that
/// brings the count to zero tears it down.
pub open spec fn decremented(m: ComponentModel) -> ComponentModel {
    if m.count == 1 {
        ComponentModel { count: 0, teardowns: m.teardowns + 1, ..m }
    } else {
        ComponentModel { count: (m.count - 1) as nat, ..m }
    }
}

/// A model that every component keeps: it answers to the base contract, and
/// it has been torn down, once, exactly when its count is zero.
pub open spec fn model_wf(m: ComponentModel) -> bool {
    &&& m.interfaces.contains(BASE_IID)
    &&& m.teardowns == if m.count == 0 { 1nat } else { 0nat }
}

/// The base contract: the operations that a component implementation
/// provides, and through which every handle reaches its component.
pub trait Component {
    /// The component as the core sees it.
    spec fn model(&self) -> ComponentModel;

    /// The implementation's own invariant.
    spec fn inv(&self) -> bool;

    /// Looks up `iid`. Where the component answers to it, returns a new
    /// handle typed to the base contract and counts it; else returns `None`
    /// and leaves the component as it was.
    fn query(&mut self, iid: u128) -> (r: Option<IComponent>)
        requires
            old(self).inv(),
            model_wf(old(self).model()),
            old(self).model().count >= 1,
            old(self).model().interfaces.contains(iid) ==> old(self).model().count < u64::MAX,
        ensures
            final(self).inv(),
            model_wf(final(self).model()),
            old(self).model().interfaces.contains(iid) ==> r is Some && r->0.component
                == old(self).model().address && final(self).model() == incremented(
                old(self).model(),
            ),
            !old(self).model().interfaces.contains(iid) ==> r is None && final(self).model()
                == old(self).model(),
    ;

    /// Adds one to the count.
    fn increment_ref(&mut self)
        requires
            old(self).inv(),
            model_wf(old(self).model()),
            old(self).model().count >= 1,
            old(self).model().count < u64::MAX,
        ensures
            final(self).inv(),
            model_wf(final(self).model()),
            final(self).model() == incremented(old(self).model()),
    ;

    /// Takes one from the count, and tears the component down when the
    /// count reaches zero.
    fn decrement_ref(&mut self)
        requires
            old(self).inv(),
            model_wf(old(self).model()),
            old(self).model().count >= 1,
        ensures
            final(self).inv(),
            model_wf(final(self).model()),
            final(self).model() == decremented(old(self).model()),
    ;
}

/// A component that answers to a list of identifiers and keeps its count in
/// a field.
pub struct OpaqueComponent {
    address: u64,
    interfaces: Vec<u128>,
    count: u64,
    teardowns: u64,
}

impl View for OpaqueComponent {
    type V = ComponentModel;

    closed spec fn view(&self) -> ComponentModel {
        ComponentModel {
            address: self.address,
            interfaces: self.interfaces@.to_set(),
            count: self.count as nat,
            teardowns: self.teardowns as nat,
        }
    }
}

impl OpaqueComponent {
    /// Creates a component at `address` that answers to `interfaces` and to
    /// the base contract, with the one handle that holds it.
    pub fn new(address: u64, interfaces: Vec<u128>) -> (r: (OpaqueComponent, IComponent))
        ensures
            model_wf(r.0@),
            r.0@ == (ComponentModel {
                address,
                interfaces: interfaces@.to_set().insert(BASE_IID),
                count: 1,
                teardowns: 0,
            }),
            r.1.component == address,
    {
        let mut c = OpaqueComponent { address, interfaces, count: 1, teardowns: 0 };
        if !c.supports(BASE_IID) {
            c.interfaces.push(BASE_IID);
            proof {
                assert(c.interfaces@.last() == BASE_IID);
                assert(c.interfaces@.to_set() =~= interfaces@.to_set().insert(BASE_IID)) by {
                    assert forall|x: u128| #[trigger] c.interfaces@.to_set().contains(x)
                        <==> interfaces@.to_set().insert(BASE_IID).contains(x) by {
                        if interfaces@.contains(x) {
                            let k = choose|k: int| 0 <= k < interfaces@.len() && interfaces@[k] == x;
                            assert(c.interfaces@[k] == x);
                        }
                        if c.interfaces@.contains(x) && x != BASE_IID {
                            let k = choose|k: int| 0 <= k < c.interfaces@.len() && c.interfaces@[k] == x;
                            assert(interfaces@[k] == x);
                        }
                    }
                }
            }
        } else {
            proof {
                assert(c.interfaces@.to_set() =~= interfaces@.to_set().insert(BASE_IID));
            }
        }
        (c, Interface::<IComponentVtbl>::held(address))
    }

    /// The component's address.
    pub fn address(&self) -> (r: u64)
        ensures
            r == self@.address,
    {
        self.address
    }

    /// The component's reference count.
    pub fn ref_count(&self) -> (r: u64)
        ensures
            r as nat == self@.count,
    {
        self.count
    }

    /// How many times the component has been torn down.
    pub fn teardowns(&self) -> (r: u64)
        ensures
            r as nat == self@.teardowns,
    {
        self.teardowns
    }

    /// Whether the component's query operation answers to `iid`.
    pub fn supports(&self, iid: u128) -> (r: bool)
        ensures
            r == self@.interfaces.contains(iid),
    {
        let mut i: usize = 0;
        while i < self.interfaces.len()
            invariant
                0 <= i <= self.interfaces@.len(),
                forall|j: int| 0 <= j < i ==> self.interfaces@[j] != iid,
            decreases self.interfaces@.len() - i,
        {
            if self.interfaces[i] == iid {
                proof {
                    assert(self.interfaces@.to_set().contains(self.interfaces@[i as int]));
                }
                return true;
            }
            i = i + 1;
        }
        proof {
            if self.interfaces@.to_set().contains(iid) {
                let k = choose|k: int| 0 <= k < self.interfaces@.len() && self.interfaces@[k] == iid;
                assert(self.interfaces@[k] == iid);
            }
        }
        false
    }
}

impl Component for OpaqueComponent {
    open spec fn model(&self) -> ComponentModel {
        self@
    }

    open spec fn inv(&self) -> bool {
        true
    }

    fn query(&mut self, iid: u128) -> (r: Option<IComponent>) {
        if self.supports(iid) {
            self.count = self.count + 1;
            Some(Interface::<IComponentVtbl>::held(self.address))
        } else {
            None
        }
    }

    fn increment_ref(&mut self) {
        self.count = self.count + 1;
    }

    fn decrement_ref(&mut self) {
        self.count = self.count - 1;
        if self.count == 0 {
            self.teardowns = self.teardowns + 1;
        }
    }
}

} // verus!
