//! The dispatch table shared by every bus: registrations keyed by the
//! runtime identity of an event type, kept in registration order.
use vstd::prelude::*;

use std::any::TypeId;

use crate::event::Event;

verus! {

/// std's runtime identity of a type, opaque here: only its equality is used.
#[verifier::external_type_specification]
#[verifier::external_body]
pub struct ExTypeId(std::any::TypeId);

/// `TypeId` equality: two identities compare equal exactly when they are
/// the same value, that is, when they identify the same type.
pub assume_specification[ <std::any::TypeId as core::cmp::PartialEq>::eq ](
    a: &std::any::TypeId,
    b: &std::any::TypeId,
) -> (r: bool)
    ensures
        r == (*a == *b),
;

/// The handlers registered under `key`, in registration order.
pub open spec fn handlers_of<H>(regs: Seq<(TypeId, H)>, key: TypeId) -> Seq<H>
    decreases regs.len(),
{
    if regs.len() == 0 {
        Seq::empty()
    } else {
        let rest = handlers_of(regs.drop_last(), key);
        if regs.last().0 == key {
            rest.push(regs.last().1)
        } else {
            rest
        }
    }
}

/// A bus that delivers each published event to the handlers registered for
/// its concrete type, under a concurrency policy of its own.
pub trait EventBus {
    fn publish<E: Event>(&self, event: E);
}

/// Maps an event type's identity to the handlers registered for it, in
/// registration order. A type with no handlers has an empty list.
pub struct DispatchTable<H> {
    registrations: Vec<(TypeId, H)>,
}

impl<H> View for DispatchTable<H> {
    type V = Seq<(TypeId, H)>;

    closed spec fn view(&self) -> Seq<(TypeId, H)> {
        self.registrations@
    }
}

impl<H> DispatchTable<H> {
    /// A table with no registrations.
    pub fn new() -> (r: DispatchTable<H>)
        ensures
            r@ == Seq::<(TypeId, H)>::empty(),
    {
        DispatchTable { registrations: Vec::new() }
    }

    /// Appends `handler` to the handlers of `key`.
    pub fn register(&mut self, key: TypeId, handler: H)
        ensures
            final(self)@ == old(self)@.push((key, handler)),
    {
        self.registrations.push((key, handler));
    }

    /// The handlers registered under `key`, in registration order; empty
    /// when there are none.
    pub fn handlers_for(&self, key: &TypeId) -> (r: Vec<&H>)
        ensures
            r@.len() == handlers_of(self@, *key).len(),
            forall|i: int| 0 <= i < r@.len() ==> *r@[i] == handlers_of(self@, *key)[i],
    {
        let mut r: Vec<&H> = Vec::new();
        let mut i: usize = 0;
        while i < self.registrations.len()
            invariant
                i <= self.registrations.len(),
                r@.len() == handlers_of(self.registrations@.subrange(0, i as int), *key).len(),
                forall|j: int| 0 <= j < r@.len() ==> *r@[j] == handlers_of(
                    self.registrations@.subrange(0, i as int),
                    *key,
                )[j],
            decreases self.registrations.len() - i,
        {
            let ghost prefix = self.registrations@.subrange(0, i as int + 1);
            assert(prefix.drop_last() =~= self.registrations@.subrange(0, i as int));
            if self.registrations[i].0 == *key {
                r.push(&self.registrations[i].1);
            }
            i = i + 1;
        }
        assert(self.registrations@.subrange(0, i as int) =~= self.registrations@);
        r
    }

    /// The number of registrations, over all types.
    pub fn len(&self) -> (r: usize)
        ensures
            r == self@.len(),
    {
        self.registrations.len()
    }
}

impl<H> Default for DispatchTable<H> {
    fn default() -> (r: DispatchTable<H>)
        ensures
            r@ == Seq::<(TypeId, H)>::empty(),
    {
        DispatchTable::new()
    }
}

/// Registering a handler for one type leaves the handlers of every other type
/// as they were, and adds it last to the handlers of its own type.
pub proof fn lemma_register_only_own_type<H>(regs: Seq<(TypeId, H)>, key: TypeId, handler: H, other: TypeId)
    ensures
        other != key ==> handlers_of(regs.push((key, handler)), other) == handlers_of(regs, other),
        handlers_of(regs.push((key, handler)), key) == handlers_of(regs, key).push(handler),
{
    assert(regs.push((key, handler)).drop_last() =~= regs);
}

/// Every handler found for a type was registered under that type, and every
/// handler registered under it is found.
pub proof fn lemma_handlers_exact<H>(regs: Seq<(TypeId, H)>, key: TypeId, h: H)
    ensures
        handlers_of(regs, key).contains(h) <==> regs.contains((key, h)),
    decreases regs.len(),
{
    if regs.len() > 0 {
        let d = regs.drop_last();
        lemma_handlers_exact(d, key, h);
        let rest = handlers_of(d, key);
        if regs.last().0 == key {
            if rest.push(regs.last().1).contains(h) && !rest.contains(h) {
                let i = choose|i: int| 0 <= i < rest.push(regs.last().1).len() && rest.push(regs.last().1)[i] == h;
                assert(i == rest.len());
                assert(regs[regs.len() - 1] == (key, h));
            }
            if rest.contains(h) {
                let i = choose|i: int| 0 <= i < rest.len() && rest[i] == h;
                assert(rest.push(regs.last().1)[i] == h);
            }
        }
        if regs.contains((key, h)) {
            let i = choose|i: int| 0 <= i < regs.len() && regs[i] == (key, h);
            if i < regs.len() - 1 {
                assert(d[i] == (key, h));
            } else {
                assert(handlers_of(regs, key)[handlers_of(regs, key).len() - 1] == h);
            }
        }
        if d.contains((key, h)) {
            let i = choose|i: int| 0 <= i < d.len() && d[i] == (key, h);
            assert(regs[i] == (key, h));
        }
    }
}

} // verus!
