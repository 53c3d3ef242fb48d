//! Routing by the name tag that an envelope carries.
use vstd::prelude::*;

use serde_json::Value;

use crate::subscriber::SubscriberError;

verus! {

/// A handler of the loosely-typed attributes of one event name.
pub trait EventHandler {
    fn handle(&mut self, payload: Value);
}

impl<T: EventHandler + ?Sized> EventHandler for Box<T> {
    fn handle(&mut self, payload: Value) {
        (**self).handle(payload)
    }
}

/// Selects the registration whose tag equals the envelope's tag: the index of
/// the first tag equal to `tag`. An unknown tag is `UnrecoverableError`: a
/// retry would meet the same tag again.
pub fn dispatch_by_tag(tags: &Vec<String>, tag: &str) -> (r: Result<usize, SubscriberError>)
    ensures
        r matches Ok(i) ==> i < tags@.len() && tags@[i as int]@ == tag@ && forall|j: int|
            0 <= j < i ==> tags@[j]@ != tag@,
        r is Err ==> r matches Err(SubscriberError::UnrecoverableError),
        r is Err <==> forall|j: int| 0 <= j < tags@.len() ==> tags@[j]@ != tag@,
{
    let wanted = tag.to_owned();
    let mut i: usize = 0;
    while i < tags.len()
        invariant
            i <= tags@.len(),
            wanted@ == tag@,
            forall|j: int| 0 <= j < i ==> tags@[j]@ != tag@,
        decreases tags.len() - i,
    {
        if tags[i] == wanted {
            return Ok(i);
        }
        i = i + 1;
    }
    Err(SubscriberError::UnrecoverableError)
}

/// The names in a registry, in order.
pub open spec fn names_of<H>(registry: Seq<(String, H)>) -> Seq<Seq<char>> {
    registry.map_values(|e: (String, H)| e.0@)
}

/// Routes a payload to the one handler registered under its event name.
pub struct EventRouter<H: EventHandler> {
    registry: Vec<(String, H)>,
}

impl<H: EventHandler> EventRouter<H> {
    /// The registered names, each once, in the order they were first
    /// registered.
    pub closed spec fn names(&self) -> Seq<Seq<char>> {
        names_of(self.registry@)
    }

    /// The registered handlers, position by position with `names`.
    pub closed spec fn handlers(&self) -> Seq<H> {
        self.registry@.map_values(|e: (String, H)| e.1)
    }

    /// Registered names are distinct.
    pub closed spec fn wf(&self) -> bool {
        self.names().no_duplicates()
    }

    /// A router with no registrations.
    pub fn empty() -> (r: EventRouter<H>)
        ensures
            r.wf(),
            r.names() == Seq::<Seq<char>>::empty(),
    {
        let r = EventRouter { registry: Vec::new() };
        assert(r.names() =~= Seq::<Seq<char>>::empty());
        r
    }

    /// A router with the given registrations, made one after the other; of
    /// two with one name, the later one stays.
    pub fn new(registry: Vec<(String, H)>) -> (r: EventRouter<H>)
        ensures
            r.wf(),
            forall|n: Seq<char>| r.names().contains(n) <==> names_of(registry@).contains(n),
    {
        let ghost all = registry@;
        let mut r = EventRouter::empty();
        let mut rest = registry;
        while rest.len() > 0
            invariant
                r.wf(),
                all.len() >= rest@.len(),
                rest@ == all.subrange(all.len() - rest@.len(), all.len() as int),
                forall|n: Seq<char>| r.names().contains(n) <==> names_of(
                    all.subrange(0, all.len() - rest@.len()),
                ).contains(n),
            decreases rest@.len(),
        {
            let ghost k = all.len() - rest@.len();
            let (name, handler) = rest.remove(0);
            assert(all[k] == (name, handler));
            assert(names_of(all.subrange(0, k + 1)) =~= names_of(all.subrange(0, k)).push(name@));
            let ghost before = r.names();
            let ghost nm = name@;
            r.register(name, handler);
            assert forall|n: Seq<char>| r.names().contains(n) <==> (before.contains(n) || n == nm) by {
                if !before.contains(nm) {
                    if before.push(nm).contains(n) && n != nm {
                        let j = choose|j: int| 0 <= j < before.push(nm).len() && before.push(nm)[j] == n;
                        assert(before[j] == n);
                    }
                    if before.contains(n) {
                        let j = choose|j: int| 0 <= j < before.len() && before[j] == n;
                        assert(before.push(nm)[j] == n);
                    }
                    assert(before.push(nm)[before.len() as int] == nm);
                }
            }
            assert forall|n: Seq<char>| names_of(all.subrange(0, k + 1)).contains(n) <==> (names_of(all.subrange(0, k)).contains(n) || n == nm) by {
                let p = names_of(all.subrange(0, k));
                if p.push(nm).contains(n) && n != nm {
                    let j = choose|j: int| 0 <= j < p.push(nm).len() && p.push(nm)[j] == n;
                    assert(p[j] == n);
                }
                if p.contains(n) {
                    let j = choose|j: int| 0 <= j < p.len() && p[j] == n;
                    assert(p.push(nm)[j] == n);
                }
                assert(p.push(nm)[p.len() as int] == nm);
            }
            assert(rest@ =~= all.subrange(all.len() - rest@.len(), all.len() as int));
            assert(all.len() - rest@.len() == k + 1);
            assert forall|n: Seq<char>| r.names().contains(n) <==> names_of(
                all.subrange(0, all.len() - rest@.len()),
            ).contains(n) by {
                assert(before.contains(n) <==> names_of(all.subrange(0, k)).contains(n));
            }
        }
        assert(all.subrange(0, all.len() as int) =~= all);
        r
    }

    /// Registers `handler` under `event_name`, replacing an earlier handler
    /// of that name in its place.
    pub fn register(&mut self, event_name: String, handler: H)
        requires
            old(self).wf(),
        ensures
            final(self).wf(),
            old(self).names().contains(event_name@) ==> final(self).names() == old(self).names(),
            !old(self).names().contains(event_name@) ==> final(self).names() == old(
                self,
            ).names().push(event_name@),
            !old(self).names().contains(event_name@) ==> final(self).handlers() == old(
                self,
            ).handlers().push(handler),
            forall|i: int|
                0 <= i < old(self).names().len() && old(self).names()[i] == event_name@
                    ==> final(self).handlers() == old(self).handlers().update(i, handler),
    {
        match self.handler_index(event_name.as_str()) {
            Some(i) => {
                let ghost before = self.registry@;
                let ghost n = event_name@;
                self.registry.set(i, (event_name, handler));
                assert(self.registry@.len() == before.len());
                assert(self.registry@[i as int].0@ == n);
                assert(names_of(before)[i as int] == n);
                assert(forall|j: int| 0 <= j < before.len() && j != i ==> self.registry@[j] == before[j]);
                assert(names_of(self.registry@) =~= names_of(before));
                assert(self.handlers() =~= old(self).handlers().update(i as int, handler));
                assert forall|k: int|
                    0 <= k < old(self).names().len() && old(self).names()[k] == n implies k == i by {
                    if k != i {
                        assert(old(self).names()[k] == old(self).names()[i as int]);
                    }
                }
            },
            None => {
                let ghost before = self.registry@;
                self.registry.push((event_name, handler));
                assert(names_of(self.registry@) =~= names_of(before).push(event_name@));
                assert(self.handlers() =~= old(self).handlers().push(handler));
            },
        }
    }

    /// The position of the handler registered under `event_name`, if any.
    pub fn handler_index(&self, event_name: &str) -> (r: Option<usize>)
        ensures
            r matches Some(i) ==> i < self.names().len() && self.names()[i as int] == event_name@,
            r is None ==> !self.names().contains(event_name@),
    {
        let wanted = event_name.to_owned();
        let mut i: usize = 0;
        while i < self.registry.len()
            invariant
                i <= self.registry@.len(),
                wanted@ == event_name@,
                forall|j: int| 0 <= j < i ==> self.names()[j] != event_name@,
            decreases self.registry.len() - i,
        {
            if self.registry[i].0 == wanted {
                return Some(i);
            }
            i = i + 1;
        }
        None
    }

    /// Hands `payload` to the handler registered under `event_name`; without
    /// one, nothing happens. Says whether a handler took it.
    pub fn route(&mut self, event_name: &str, payload: Value) -> (r: bool)
        requires
            old(self).wf(),
        ensures
            final(self).wf(),
            final(self).names() == old(self).names(),
            r == old(self).names().contains(event_name@),
    {
        match self.handler_index(event_name) {
            Some(i) => {
                let ghost before = self.registry@;
                let (name, mut handler) = self.registry.remove(i);
                handler.handle(payload);
                self.registry.insert(i, (name, handler));
                assert(names_of(self.registry@) =~= names_of(before));
                true
            },
            None => false,
        }
    }
}

impl<H: EventHandler> Default for EventRouter<H> {
    fn default() -> (r: EventRouter<H>)
        ensures
            r.wf(),
            r.names() == Seq::<Seq<char>>::empty(),
    {
        EventRouter::empty()
    }
}

} // verus!
