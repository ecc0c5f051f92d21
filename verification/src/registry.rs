//! The method table of a peer or server: which handler answers each method name.
use vstd::prelude::*;
use crate::json::{get_from, lemma_get_first, lemma_get_none, lemma_get_push, lemma_get_same_except};

verus! {

/// What answers a method: a standalone handler (by the number it was
/// registered under) or method `method` of registered service `service`.
#[derive(Clone, Copy, Debug, PartialEq, Eq, Structural)]
pub enum Handler {
    Method(u64),
    Service { service: u32, method: u32 },
}

/// The position of the last occurrence of `k` among the first `n` of `names`,
/// or -1 when there is none.
pub open spec fn last_index_in(names: Seq<Seq<char>>, k: Seq<char>, n: int) -> int
    decreases n,
{
    if n <= 0 {
        -1
    } else if names[n - 1] == k {
        n - 1
    } else {
        last_index_in(names, k, n - 1)
    }
}

/// The names of a list of strings.
pub open spec fn names_view(names: Seq<String>) -> Seq<Seq<char>> {
    names.map_values(|s: String| s@)
}

/// Methods and services registered on a peer or server. Services get ids in
/// the order they are registered, counting from 0 and wrapping around after
/// `u32::MAX`.
#[derive(Debug, PartialEq)]
pub struct Registry {
    methods: Vec<(String, Handler)>,
    services: Vec<u32>,
    next_method_id: u64,
}

/// The id of the `n`-th service registered (from 0).
pub open spec fn service_id(n: int) -> u32 {
    (n % 0x1_0000_0000) as u32
}

impl Registry {
    /// The method table: each name with its handler.
    pub closed spec fn table(self) -> Seq<(Seq<char>, Handler)> {
        self.methods@.map_values(|e: (String, Handler)| (e.0@, e.1))
    }

    /// The handler that answers method `name`.
    pub open spec fn spec_route(self, name: Seq<char>) -> Option<Handler> {
        get_from(self.table(), name, 0)
    }

    /// Whether service `id` is registered.
    pub closed spec fn spec_has_service(self, id: u32) -> bool {
        self.services@.contains(id)
    }

    /// The number of services registered so far.
    pub closed spec fn spec_service_count(self) -> nat {
        self.services@.len()
    }

    /// The id the next registered service gets.
    pub open spec fn spec_next_service_id(self) -> u32 {
        service_id(self.spec_service_count() as int)
    }

    /// The services registered so far have ids 0, 1, 2, ... in order.
    #[verifier::type_invariant]
    spec fn ids_in_order(self) -> bool {
        forall|j: int| 0 <= j < self.services@.len() ==> #[trigger] self.services@[j] == service_id(j)
    }

    /// While fewer than 2^32 services have been registered, every registered
    /// service has an id below the id the next one gets.
    proof fn lemma_ids_below_next(self)
        requires
            self.ids_in_order(),
            self.spec_service_count() < 0x1_0000_0000,
        ensures
            forall|s: u32| #[trigger] self.spec_has_service(s) ==> s < self.spec_next_service_id(),
    {
        assert forall|s: u32| #[trigger] self.spec_has_service(s) implies s < self.spec_next_service_id() by {
            let w = choose|w: int| 0 <= w < self.services@.len() && self.services@[w] == s;
            assert(self.services@[w] == service_id(w));
        }
    }

    /// The number the next standalone handler gets.
    pub closed spec fn spec_next_method_id(self) -> u64 {
        self.next_method_id
    }

    /// Nothing registered.
    pub fn new() -> (r: Registry)
        ensures
            forall|k: Seq<char>| r.spec_route(k) is None,
            forall|id: u32| !r.spec_has_service(id),
            r.spec_service_count() == 0,
            r.spec_next_method_id() == 0,
    {
        let r = Registry { methods: Vec::new(), services: Vec::new(), next_method_id: 0 };
        assert(r.table() =~= Seq::empty());
        r
    }

    /// The handler that answers method `name`.
    pub fn route(&self, name: &String) -> (r: Option<Handler>)
        ensures
            r == self.spec_route(name@),
    {
        match self.find(name) {
            Some(i) => {
                proof {
                    lemma_get_first(self.table(), name@, i as int, 0);
                }
                Some(self.methods[i].1)
            },
            None => {
                proof {
                    lemma_get_none(self.table(), name@, 0);
                }
                None
            },
        }
    }

    /// Whether service `id` is registered.
    pub fn has_service(&self, id: u32) -> (r: bool)
        ensures
            r == self.spec_has_service(id),
    {
        let mut i: usize = 0;
        while i < self.services.len()
            invariant
                i <= self.services@.len(),
                forall|j: int| 0 <= j < i ==> self.services@[j] != id,
            decreases self.services@.len() - i,
        {
            if self.services[i] == id {
                proof {
                    assert(self.services@.to_set().contains(self.services@[i as int]));
                }
                return true;
            }
            i = i + 1;
        }
        false
    }

    fn find(&self, name: &String) -> (r: Option<usize>)
        ensures
            self.table().len() == self.methods@.len(),
            match r {
                Some(i) => i < self.methods@.len() && self.table()[i as int].0 == name@
                    && forall|j: int| 0 <= j < i ==> self.table()[j].0 != name@,
                None => forall|j: int| 0 <= j < self.methods@.len() ==> self.table()[j].0 != name@,
            },
    {
        let mut i: usize = 0;
        while i < self.methods.len()
            invariant
                i <= self.methods@.len(),
                self.table().len() == self.methods@.len(),
                forall|j: int| 0 <= j < i ==> self.table()[j].0 != name@,
            decreases self.methods@.len() - i,
        {
            assert(self.table()[i as int].0 == self.methods@[i as int].0@);
            if self.methods[i].0 == *name {
                return Some(i);
            }
            i = i + 1;
        }
        None
    }

    /// A copy of this registry: the same routes and services, and the same
    /// ids to hand out next.
    pub fn copy(&self) -> (r: Registry)
        ensures
            r.table() == self.table(),
            forall|k: Seq<char>| r.spec_route(k) == self.spec_route(k),
            forall|s: u32| r.spec_has_service(s) == self.spec_has_service(s),
            r.spec_service_count() == self.spec_service_count(),
            r.spec_next_method_id() == self.spec_next_method_id(),
    {
        proof {
            use_type_invariant(self);
        }
        let mut methods: Vec<(String, Handler)> = Vec::new();
        let mut i: usize = 0;
        while i < self.methods.len()
            invariant
                i <= self.methods@.len(),
                methods@.len() == i,
                forall|j: int| 0 <= j < i ==> methods@[j].0@ == self.methods@[j].0@ && methods@[j].1 == self.methods@[j].1,
            decreases self.methods@.len() - i,
        {
            methods.push((self.methods[i].0.clone(), self.methods[i].1));
            i = i + 1;
        }
        let mut services: Vec<u32> = Vec::new();
        let mut i: usize = 0;
        while i < self.services.len()
            invariant
                i <= self.services@.len(),
                services@ == self.services@.subrange(0, i as int),
            decreases self.services@.len() - i,
        {
            services.push(self.services[i]);
            i = i + 1;
        }
        assert(services@ =~= self.services@);
        let r = Registry { methods, services, next_method_id: self.next_method_id };
        assert(r.table() =~= self.table());
        r
    }

    /// Route `name` to `handler`, replacing any earlier route for it.
    fn set_route(&mut self, name: String, handler: Handler)
        ensures
            final(self).spec_route(name@) == Some(handler),
            forall|k: Seq<char>| k != name@ ==> final(self).spec_route(k) == old(self).spec_route(k),
            final(self).services == old(self).services,
            final(self).next_method_id == old(self).next_method_id,
    {
        proof {
            use_type_invariant(&*self);
        }
        let ghost k0 = name@;
        let ghost before = self.table();
        let found = self.find(&name);
        let mut methods: Vec<(String, Handler)> = Vec::new();
        std::mem::swap(&mut methods, &mut self.methods);
        match found {
            Some(i) => methods.set(i, (name, handler)),
            None => methods.push((name, handler)),
        }
        self.methods = methods;
        proof {
            let after = self.table();
            match found {
                Some(i) => {
                    assert(after =~= before.update(i as int, (k0, handler)));
                    lemma_get_first(after, k0, i as int, 0);
                    assert forall|k: Seq<char>| k != k0 implies get_from(after, k, 0) == get_from(before, k, 0) by {
                        lemma_get_same_except(before, after, k, i as int, 0);
                    }
                },
                None => {
                    assert(after =~= before.push((k0, handler)));
                    lemma_get_first(after, k0, before.len() as int, 0);
                    assert forall|k: Seq<char>| k != k0 implies get_from(after, k, 0) == get_from(before, k, 0) by {
                        lemma_get_push(before, after, k, 0);
                    }
                },
            }
        }
    }

    /// Register a standalone handler for method `name`: it gets the next
    /// handler number, which is returned, and replaces any earlier route for
    /// `name`.
    pub fn add_method(&mut self, name: String) -> (id: u64)
        ensures
            id == old(self).spec_next_method_id(),
            final(self).spec_next_method_id() == (id as int + 1) % 0x1_0000_0000_0000_0000,
            final(self).spec_route(name@) == Some(Handler::Method(id)),
            forall|k: Seq<char>| k != name@ ==> final(self).spec_route(k) == old(self).spec_route(k),
            forall|s: u32| final(self).spec_has_service(s) == old(self).spec_has_service(s),
            final(self).spec_service_count() == old(self).spec_service_count(),
    {
        proof {
            use_type_invariant(&*self);
        }
        let id = self.next_method_id;
        self.next_method_id = self.next_method_id.wrapping_add(1);
        self.set_route(name, Handler::Method(id));
        id
    }

    /// Register a service whose methods are `names`: the service gets the next
    /// service id, which is returned; each name routes to the service with the
    /// position of that name in `names` as its method number (the last position
    /// when a name occurs twice); other names keep their routes. While fewer
    /// than 2^32 services have been registered, the new service replaces none
    /// of them.
    pub fn register_service(&mut self, names: &Vec<String>) -> (id: u32)
        ensures
            id == old(self).spec_next_service_id(),
            final(self).spec_service_count() == old(self).spec_service_count() + 1,
            old(self).spec_service_count() < 0x1_0000_0000 ==> !old(self).spec_has_service(id),
            final(self).spec_next_service_id() == (id as int + 1) % 0x1_0000_0000,
            forall|s: u32| final(self).spec_has_service(s) == (old(self).spec_has_service(s) || s == id),
            final(self).spec_next_method_id() == old(self).spec_next_method_id(),
            forall|k: Seq<char>|
                #![trigger final(self).spec_route(k)]
                names_view(names@).contains(k) ==> final(self).spec_route(k) == Some(
                    Handler::Service {
                        service: id,
                        method: last_index_in(names_view(names@), k, names@.len() as int) as u32,
                    },
                ),
            forall|k: Seq<char>|
                #![trigger final(self).spec_route(k)]
                !names_view(names@).contains(k) ==> final(self).spec_route(k) == old(self).spec_route(k),
    {
        proof {
            use_type_invariant(&*self);
            if old(self).spec_service_count() < 0x1_0000_0000 {
                old(self).lemma_ids_below_next();
            }
        }
        let count: u64 = self.services.len() as u64;
        let id: u32 = (count % 0x1_0000_0000u64) as u32;
        let mut services: Vec<u32> = Vec::new();
        std::mem::swap(&mut services, &mut self.services);
        services.push(id);
        self.services = services;
        proof {
            assert forall|s: u32| self.spec_has_service(s) == (old(self).spec_has_service(s) || s == id) by {
                if old(self).spec_has_service(s) {
                    let w = choose|w: int| 0 <= w < old(self).services@.len() && old(self).services@[w] == s;
                    assert(self.services@[w] == s);
                }
                if s == id {
                    assert(self.services@[self.services@.len() - 1] == s);
                }
            }
        }
        let ghost start = *self;
        assert(start.table() == old(self).table());
        let ghost nv = names_view(names@);
        let mut i: usize = 0;
        while i < names.len()
            invariant
                i <= names@.len(),
                nv == names_view(names@),
                self.services == start.services,
                self.spec_next_service_id() == start.spec_next_service_id(),
                self.spec_next_method_id() == start.spec_next_method_id(),
                forall|k: Seq<char>|
                    #![trigger self.spec_route(k)]
                    nv.subrange(0, i as int).contains(k) ==> self.spec_route(k) == Some(
                        Handler::Service { service: id, method: last_index_in(nv, k, i as int) as u32 },
                    ),
                forall|k: Seq<char>|
                    #![trigger self.spec_route(k)]
                    !nv.subrange(0, i as int).contains(k) ==> self.spec_route(k) == start.spec_route(k),
            decreases names@.len() - i,
        {
            let name = names[i].clone();
            self.set_route(name, Handler::Service { service: id, method: i as u32 });
            proof {
                let k0 = nv[i as int];
                let n1 = i + 1;
                let pre = nv.subrange(0, i as int);
                let post = nv.subrange(0, n1);
                assert(post =~= pre.push(k0));
                assert forall|k: Seq<char>| #![trigger self.spec_route(k)]
                    post.contains(k) implies self.spec_route(k) == Some(
                        Handler::Service { service: id, method: last_index_in(nv, k, n1) as u32 },
                    ) by {
                    if k != k0 {
                        let w = choose|w: int| 0 <= w < post.len() && #[trigger] post[w] == k;
                        assert(pre[w] == k);
                    }
                }
                assert forall|k: Seq<char>| #![trigger self.spec_route(k)]
                    !post.contains(k) implies self.spec_route(k) == start.spec_route(k) by {
                    assert(post[i as int] == k0);
                    if pre.contains(k) {
                        let w = choose|w: int| 0 <= w < pre.len() && #[trigger] pre[w] == k;
                        assert(post[w] == k);
                    }
                }
            }
            i = i + 1;
        }
        assert(nv.subrange(0, names@.len() as int) =~= nv);
        assert forall|s: u32| #[trigger] self.spec_has_service(s) == start.spec_has_service(s) by {}
        id
    }
}

} // verus!
