//! The handlers of a machine, keyed by state name. Built once, then read.
use vstd::prelude::*;

verus! {

/// A map from state names to handlers. Each name appears once.
pub struct HandlerRegistry<H> {
    names: Vec<String>,
    handlers: Vec<H>,
    model: Ghost<Map<Seq<char>, H>>,
}

impl<H> View for HandlerRegistry<H> {
    type V = Map<Seq<char>, H>;

    closed spec fn view(&self) -> Map<Seq<char>, H> {
        self.model@
    }
}

impl<H> HandlerRegistry<H> {
    /// The names and the handlers stand side by side, each name once, and
    /// together they are the view.
    pub closed spec fn wf(&self) -> bool {
        &&& self.names.len() == self.handlers.len()
        &&& forall|i: int, j: int|
            0 <= i < j < self.names.len() ==> self.names[i]@ != self.names[j]@
        &&& forall|i: int|
            0 <= i < self.names.len() ==> #[trigger] self.model@.contains_key(self.names[i]@)
                && self.model@[self.names[i]@] == self.handlers[i]
        &&& forall|k: Seq<char>| #[trigger]
            self.model@.contains_key(k) ==> exists|i: int|
                0 <= i < self.names.len() && self.names[i]@ == k
        &&& self.model@.dom().finite()
        &&& self.model@.dom().len() == self.names.len()
    }

    /// An empty registry.
    pub fn new() -> (r: Self)
        ensures
            r.wf(),
            r@ == Map::<Seq<char>, H>::empty(),
    {
        HandlerRegistry { names: Vec::new(), handlers: Vec::new(), model: Ghost(Map::empty()) }
    }

    /// The number of registered states.
    pub fn len(&self) -> (r: usize)
        requires
            self.wf(),
        ensures
            r == self@.len(),
    {
        self.names.len()
    }

    /// Whether no state is registered.
    pub fn is_empty(&self) -> (r: bool)
        requires
            self.wf(),
        ensures
            r == (self@.dom() == Set::<Seq<char>>::empty()),
    {
        proof {
            vstd::set_lib::lemma_set_empty_equivalency_len(self@.dom());
        }
        self.names.len() == 0
    }

    /// Where `name` stands among the names, if it is registered.
    fn position(&self, name: &String) -> (r: Option<usize>)
        requires
            self.wf(),
        ensures
            match r {
                Some(i) => i < self.names.len() && self.names[i as int]@ == name@,
                None => !self@.contains_key(name@),
            },
    {
        let mut i: usize = 0;
        while i < self.names.len()
            invariant
                self.wf(),
                i <= self.names.len(),
                forall|j: int| 0 <= j < i ==> self.names[j]@ != name@,
            decreases self.names.len() - i,
        {
            if self.names[i] == *name {
                return Some(i);
            }
            i = i + 1;
        }
        None
    }

    /// Whether `name` has a handler.
    pub fn contains(&self, name: &String) -> (r: bool)
        requires
            self.wf(),
        ensures
            r == self@.contains_key(name@),
    {
        match self.position(name) {
            Some(_) => true,
            None => false,
        }
    }

    /// The handler of `name`, if there is one.
    pub fn get(&self, name: &String) -> (r: Option<&H>)
        requires
            self.wf(),
        ensures
            r == (if self@.contains_key(name@) {
                Some(&self@[name@])
            } else {
                None
            }),
    {
        match self.position(name) {
            Some(i) => Some(&self.handlers[i]),
            None => None,
        }
    }

    /// Registers `handler` under `name`, in place of any handler that the
    /// name had.
    pub fn insert(&mut self, name: String, handler: H)
        requires
            old(self).wf(),
        ensures
            final(self).wf(),
            final(self)@ == old(self)@.insert(name@, handler),
    {
        match self.position(&name) {
            Some(i) => {
                self.handlers[i] = handler;
                self.model = Ghost(self.model@.insert(name@, handler));
                proof {
                    assert(self.model@.dom() =~= old(self).model@.dom());
                    assert forall|j: int| 0 <= j < self.names.len() implies #[trigger]
                        self.model@.contains_key(self.names[j]@) && self.model@[self.names[j]@]
                        == self.handlers[j] by {
                        assert(old(self).model@.contains_key(old(self).names[j]@));
                    }
                    assert forall|k: Seq<char>| #[trigger]
                        self.model@.contains_key(k) implies exists|j: int|
                        0 <= j < self.names.len() && self.names[j]@ == k by {
                        if k == name@ {
                            assert(self.names[i as int]@ == k);
                        } else {
                            assert(old(self).model@.contains_key(k));
                        }
                    }
                }
            },
            None => {
                let ghost k = name@;
                self.names.push(name);
                self.handlers.push(handler);
                self.model = Ghost(self.model@.insert(k, handler));
                proof {
                    let n = self.names.len() - 1;
                    assert(self.names[n]@ == k);
                    assert(forall|j: int| 0 <= j < n ==> self.names[j] == old(self).names[j]);
                    assert forall|a: int, b: int| 0 <= a < b < self.names.len() implies self.names[a]@
                        != self.names[b]@ by {
                        if b == n {
                            assert(old(self).model@.contains_key(old(self).names[a]@));
                        }
                    }
                    assert forall|q: Seq<char>| #[trigger]
                        self.model@.contains_key(q) implies exists|j: int|
                        0 <= j < self.names.len() && self.names[j]@ == q by {
                        if q != k {
                            assert(old(self).model@.contains_key(q));
                            let j = choose|j: int|
                                0 <= j < old(self).names.len() && old(self).names[j]@ == q;
                            assert(self.names[j]@ == q);
                        }
                    }
                    assert forall|j: int| 0 <= j < self.names.len() implies #[trigger]
                        self.model@.contains_key(self.names[j]@) && self.model@[self.names[j]@]
                        == self.handlers[j] by {
                        if j < n {
                            assert(old(self).model@.contains_key(old(self).names[j]@));
                        }
                    }
                    assert(self.model@.dom() == old(self).model@.dom().insert(k));
                }
            },
        }
    }
}

} // verus!
