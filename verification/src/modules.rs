use vstd::prelude::*;
use core::any::{Any, TypeId};

verus! {

/// The identity of a concrete type, as std hands it out.
#[verifier::external_type_specification]
#[verifier::external_body]
pub struct ExTypeId(TypeId);

/// An application service that the registry can hold: any value that may be shared
/// between threads and borrows nothing.
pub trait Module: Send + Sync + 'static {

}

impl<T: Send + Sync + 'static> Module for T {

}

/// A service whose concrete type has been set aside until it is asked for again. It is
/// a `Box<dyn Any + Send + Sync>` of std, which Verus has no model of: the box is kept
/// out of its sight, and only `erase` and `downcast` below look inside.
#[verifier::external_body]
pub struct Service {
    inner: Box<dyn Any + Send + Sync>,
}

impl Service {
    /// Sets the concrete type of `module` aside, to file it in a registry.
    pub fn new<T: Module>(module: T) -> (service: Service) {
        erase(module)
    }
}

/// `TypeId::of` of std: the identity of the type `T`. Nothing is claimed of it.
#[verifier::external_body]
fn type_key<T: Module>() -> (key: TypeId) {
    TypeId::of::<T>()
}

/// Equality of two type identities as std defines it.
#[verifier::external_body]
fn same_key(left: &TypeId, right: &TypeId) -> (same: bool)
    ensures
        same == (*left == *right),
{
    left == right
}

/// `Box::new` of std, with the box taken as a `Box<dyn Any + Send + Sync>`, which keeps
/// the concrete type of the service for a later downcast. Nothing is claimed of it.
#[verifier::external_body]
fn erase<T: Module>(module: T) -> (service: Service) {
    Service { inner: Box::new(module) }
}

/// `<dyn Any>::downcast_ref` of std: the service as a `T` where that is its concrete
/// type, nothing otherwise. Nothing is claimed of it.
#[verifier::external_body]
fn downcast<T: Module>(service: &Service) -> (typed: Option<&T>) {
    service.inner.downcast_ref::<T>()
}

/// The keys of a registry after a service with the key `key` was offered to it: a key
/// that is already held is turned away, a new one goes to the end.
pub open spec fn offered(keys: Seq<TypeId>, key: TypeId) -> Seq<TypeId> {
    if keys.contains(key) {
        keys
    } else {
        keys.push(key)
    }
}

/// Offering a service is inserting it once: the key is held afterwards, where it was if
/// it was held before; no other key comes or goes; the keys held before keep their
/// places; no key occurs twice; and a second offer under the same key changes nothing.
pub proof fn offer_inserts_once(keys: Seq<TypeId>, key: TypeId)
    requires
        keys.no_duplicates(),
    ensures
        offered(keys, key).contains(key),
        offered(keys, key).no_duplicates(),
        offered(offered(keys, key), key) == offered(keys, key),
        keys.len() <= offered(keys, key).len(),
        offered(keys, key).subrange(0, keys.len() as int) == keys,
        forall|other: TypeId|
            other != key ==> #[trigger] offered(keys, key).contains(other) == keys.contains(
                other,
            ),
{
    let after = offered(keys, key);
    if keys.contains(key) {
        assert(after.subrange(0, keys.len() as int) =~= keys);
    } else {
        assert(after[keys.len() as int] == key);
        assert(after.subrange(0, keys.len() as int) =~= keys);
        assert forall|other: TypeId| other != key implies #[trigger] after.contains(other)
            == keys.contains(other) by {
            if after.contains(other) {
                let i = choose|i: int| 0 <= i < after.len() && after[i] == other;
                assert(keys[i] == other);
            }
            if keys.contains(other) {
                let i = choose|i: int| 0 <= i < keys.len() && keys[i] == other;
                assert(after[i] == other);
            }
        }
    }
}

/// A service in the registry, with the identity of the type that it is filed under.
struct Entry {
    key: TypeId,
    service: Service,
}

/// The keys of a sequence of entries, in their order.
spec fn keys_of(entries: Seq<Entry>) -> Seq<TypeId> {
    Seq::new(entries.len(), |i: int| entries[i].key)
}

/// The services of a sequence of entries, in their order.
spec fn services_of(entries: Seq<Entry>) -> Seq<Service> {
    Seq::new(entries.len(), |i: int| entries[i].service)
}

/// The registry of application services: at most one service of each concrete type,
/// found again by that type. The entries are kept in a vector in the order in which
/// they came and are looked up by walking it: a registry holds a handful of services,
/// and `TypeId` has no key model that a verified hash map could rest on.
pub struct Modules {
    entries: Vec<Entry>,
}

impl Modules {
    /// The type identities of the services held, in the order in which they came.
    pub closed spec fn keys(&self) -> Seq<TypeId> {
        keys_of(self.entries@)
    }

    /// The services held, each at the place of its key.
    pub closed spec fn services(&self) -> Seq<Service> {
        services_of(self.entries@)
    }

    /// Each key has its service, and no key occurs twice. Every registry that a program
    /// holds is of this kind.
    #[verifier::type_invariant]
    pub open spec fn wf(&self) -> bool {
        &&& self.keys().len() == self.services().len()
        &&& self.keys().no_duplicates()
    }

    /// A registry that holds nothing.
    pub fn new() -> (modules: Modules)
        ensures
            modules.keys().len() == 0,
            modules.services().len() == 0,
    {
        Modules { entries: Vec::new() }
    }

    /// The number of services held.
    pub fn len(&self) -> (count: usize)
        ensures
            count == self.keys().len(),
    {
        self.entries.len()
    }

    /// The place of `key` among the keys held, if it is there.
    fn position(&self, key: &TypeId) -> (at: Option<usize>)
        ensures
            match at {
                Some(i) => i < self.keys().len() && self.keys()[i as int] == *key,
                None => !self.keys().contains(*key),
            },
    {
        let mut i: usize = 0;
        while i < self.entries.len()
            invariant
                i <= self.entries.len(),
                forall|j: int| 0 <= j < i ==> self.keys()[j] != *key,
            decreases self.entries.len() - i,
        {
            if same_key(&self.entries[i].key, key) {
                return Some(i);
            }
            i += 1;
        }
        None
    }

    /// The service held under `key`, if there is one.
    pub open spec fn held(&self, key: TypeId) -> Option<Service> {
        if self.keys().contains(key) {
            Some(self.services()[self.keys().index_of(key)])
        } else {
            None
        }
    }

    /// Looks a service up by the identity of its type.
    pub fn find(&self, key: &TypeId) -> (found: Option<&Service>)
        ensures
            match found {
                Some(service) => self.held(*key) == Some(*service),
                None => self.held(*key) is None,
            },
    {
        proof {
            use_type_invariant(self);
        }
        match self.position(key) {
            Some(i) => {
                proof {
                    let at = self.keys().index_of(*key);
                    assert(self.keys()[at] == self.keys()[i as int]);
                }
                Some(&self.entries[i].service)
            },
            None => None,
        }
    }

    /// Whether this registry is `before` after `service` was offered to it under `key`,
    /// and `added` the answer to the offer. Where `before` already holds a service under
    /// that key the new one is turned away: the registry is as it was, and the answer
    /// is `false`. Otherwise key and service go to the end, and the answer is `true`.
    pub open spec fn is_offer(
        &self,
        before: Modules,
        key: TypeId,
        service: Service,
        added: bool,
    ) -> bool {
        &&& added == !before.keys().contains(key)
        &&& self.keys() == offered(before.keys(), key)
        &&& self.services() == if added {
            before.services().push(service)
        } else {
            before.services()
        }
    }

    /// What an offer does to what is held. Under the key of the offer the registry holds
    /// the new service where it was added, and still the earlier one where it was
    /// turned away: a service is never overwritten. Under every other key it holds what
    /// it held before, so a key that was never offered holds nothing.
    pub proof fn offer_keeps_what_is_held(
        self,
        before: Modules,
        key: TypeId,
        service: Service,
        added: bool,
        other: TypeId,
    )
        requires
            before.wf(),
            self.is_offer(before, key, service, added),
        ensures
            self.wf(),
            self.held(key) == if added {
                Some(service)
            } else {
                before.held(key)
            },
            before.held(key) is Some ==> !added,
            other != key ==> self.held(other) == before.held(other),
    {
        offer_inserts_once(before.keys(), key);
        let n = before.keys().len() as int;
        assert(self.keys().subrange(0, n) == before.keys());
        assert forall|i: int| 0 <= i < n implies self.keys()[i] == before.keys()[i] by {
            assert(self.keys().subrange(0, n)[i] == self.keys()[i]);
        }
        if added {
            assert(self.keys()[n] == key);
            assert(self.keys().index_of(key) == n);
        } else {
            assert(self.keys() == before.keys());
        }
        if other != key && before.keys().contains(other) {
            let at = before.keys().index_of(other);
            assert(self.keys()[at] == other);
            assert(self.keys().index_of(other) == at);
        }
    }

    /// Files `service` under `key`, unless a service is held under that key already:
    /// then the new one is turned away, the registry stays as it was, and the answer
    /// is `false`. A service filed under a key that is not the identity of its own type
    /// is never handed out by `get`.
    pub fn offer(&mut self, key: TypeId, service: Service) -> (added: bool)
        ensures
            final(self).is_offer(*old(self), key, service, added),
            added == (old(self).held(key) is None),
            final(self).held(key) == if added {
                Some(service)
            } else {
                old(self).held(key)
            },
            forall|other: TypeId|
                other != key ==> #[trigger] final(self).held(other) == old(self).held(other),
    {
        proof {
            use_type_invariant(&*self);
        }
        let added = match self.position(&key) {
            Some(_) => false,
            None => {
                let mut entries: Vec<Entry> = Vec::new();
                core::mem::swap(&mut self.entries, &mut entries);
                entries.push(Entry { key, service });
                proof {
                    assert(keys_of(entries@) =~= old(self).keys().push(key));
                    assert(services_of(entries@) =~= old(self).services().push(service));
                    offer_inserts_once(old(self).keys(), key);
                }
                core::mem::swap(&mut self.entries, &mut entries);
                true
            },
        };
        proof {
            (*self).offer_keeps_what_is_held(*old(self), key, service, added, key);
            assert forall|other: TypeId| other != key implies #[trigger] self.held(other)
                == old(self).held(other) by {
                (*self).offer_keeps_what_is_held(*old(self), key, service, added, other);
            }
        }
        added
    }

    /// Adds a service under the identity of its type `T`. Where the registry already
    /// holds a service of that type the new one is turned away, the registry stays as
    /// it was, and the answer is `false`.
    pub fn insert<T: Module>(&mut self, module: T) -> (added: bool)
        ensures
            exists|key: TypeId, service: Service| #[trigger]
                final(self).is_offer(*old(self), key, service, added),
    {
        let key = type_key::<T>();
        let service = Service::new(module);
        self.offer(key, service)
    }

    /// The service of type `T`, if the registry holds one: the service filed under the
    /// identity of `T`, taken as a `T` again. Nothing is made up where none is held, and
    /// a service of another type is never handed out as a `T`.
    pub fn get<T: Module>(&self) -> (found: Option<&T>)
        ensures
            found is Some ==> exists|key: TypeId| self.held(key) is Some,
    {
        let key = type_key::<T>();
        match self.find(&key) {
            Some(service) => {
                assert(self.held(key) is Some);
                downcast::<T>(service)
            },
            None => None,
        }
    }
}

} // verus!
