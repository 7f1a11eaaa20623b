use vstd::prelude::*;

verus! {

/// Kind of an owned GPU handle, which decides how it is destroyed.
#[derive(Clone, Copy, Debug, PartialEq, Eq, Structural)]
pub enum ResourceKind {
    Instance,
    DebugMessenger,
    Surface,
    Device,
    Swapchain,
    ImageView,
}

/// One owned handle: its kind and its raw value.
#[derive(Clone, Copy, Debug, PartialEq, Eq, Structural)]
pub struct Resource {
    pub kind: ResourceKind,
    pub handle: u64,
}

/// The handles owned by an application, in the order they were created.
/// Each creation step records its handle; teardown hands them back newest
/// first, exactly once.
pub struct TeardownStack {
    created: Vec<Resource>,
}

/// The order in which teardown destroys handles created in `created` order.
pub open spec fn teardown_order(created: Seq<Resource>) -> Seq<Resource> {
    created.reverse()
}

impl View for TeardownStack {
    type V = Seq<Resource>;

    closed spec fn view(&self) -> Seq<Resource> {
        self.created@
    }
}

impl TeardownStack {
    /// No handle is recorded twice.
    #[verifier::type_invariant]
    spec fn inv(&self) -> bool {
        self.created@.no_duplicates()
    }

    /// An empty stack.
    pub fn new() -> (r: TeardownStack)
        ensures
            r@ == Seq::<Resource>::empty(),
    {
        TeardownStack { created: Vec::new() }
    }

    /// Number of handles currently recorded.
    pub fn len(&self) -> (r: usize)
        ensures
            r == self@.len(),
    {
        self.created.len()
    }

    /// Whether `resource` is recorded.
    pub fn contains(&self, resource: &Resource) -> (r: bool)
        ensures
            r == self@.contains(*resource),
    {
        let mut i: usize = 0;
        while i < self.created.len()
            invariant
                i <= self@.len(),
                forall|j: int| 0 <= j < i ==> self@[j] != *resource,
            decreases self@.len() - i,
        {
            if self.created[i] == *resource {
                assert(self@[i as int] == *resource);
                return true;
            }
            i += 1;
        }
        false
    }

    /// Records a newly created handle. A handle already recorded is not
    /// recorded again, so that it cannot be destroyed twice; the result
    /// tells whether it was recorded.
    pub fn record(&mut self, resource: Resource) -> (r: bool)
        ensures
            final(self)@.no_duplicates(),
            r == !old(self)@.contains(resource),
            r ==> final(self)@ == old(self)@.push(resource),
            !r ==> final(self)@ == old(self)@,
    {
        proof {
            use_type_invariant(&*self);
        }
        if self.contains(&resource) {
            false
        } else {
            let mut taken = TeardownStack::new();
            core::mem::swap(self, &mut taken);
            proof {
                use_type_invariant(&taken);
            }
            let mut created = taken.created;
            let ghost before = created@;
            created.push(resource);
            assert forall|i: int, j: int|
                0 <= i < created@.len() && 0 <= j < created@.len() && i != j implies created@[i]
                != created@[j] by {
                if i == created@.len() - 1 {
                    assert(created@[j] == before[j]);
                    assert(before.contains(before[j]));
                } else if j == created@.len() - 1 {
                    assert(created@[i] == before[i]);
                    assert(before.contains(before[i]));
                } else {
                    assert(created@[i] == before[i]);
                    assert(created@[j] == before[j]);
                }
            }
            *self = TeardownStack { created };
            true
        }
    }

    /// Hands back every recorded handle, newest first, and forgets them all,
    /// so that a second teardown hands back nothing.
    pub fn teardown(&mut self) -> (r: Vec<Resource>)
        ensures
            r@ == teardown_order(old(self)@),
            r@.no_duplicates(),
            final(self)@ == Seq::<Resource>::empty(),
    {
        let mut taken = TeardownStack::new();
        core::mem::swap(self, &mut taken);
        proof {
            use_type_invariant(&taken);
        }
        let mut rest = taken.created;
        let ghost created = rest@;
        let mut r: Vec<Resource> = Vec::new();
        while rest.len() > 0
            invariant
                rest@ == created.subrange(0, rest@.len() as int),
                rest@.len() <= created.len(),
                r@ == created.subrange(rest@.len() as int, created.len() as int).reverse(),
            decreases rest@.len(),
        {
            let top = rest.pop().unwrap();
            r.push(top);
            assert(created.subrange(rest@.len() as int, created.len() as int) =~= seq![top]
                + created.subrange(rest@.len() as int + 1, created.len() as int));
            assert(rest@ =~= created.subrange(0, rest@.len() as int));
            proof {
                lemma_reverse_prepend(top, created.subrange(rest@.len() as int + 1, created.len() as int));
            }
        }
        assert(created.subrange(0, created.len() as int) =~= created);
        proof {
            lemma_teardown_order(created);
        }
        r
    }
}

proof fn lemma_reverse_prepend(x: Resource, s: Seq<Resource>)
    ensures
        (seq![x] + s).reverse() =~= s.reverse().push(x),
{
    let t = seq![x] + s;
    assert forall|i: int| 0 <= i < t.len() implies #[trigger] t.reverse()[i] == s.reverse().push(
        x,
    )[i] by {
        if i == s.len() {
            assert(t.reverse()[i] == t[0]);
        } else {
            assert(t.reverse()[i] == t[t.len() - 1 - i]);
        }
    }
}

/// Teardown destroys handles in exactly the reverse of their creation order,
/// destroys each one once, and a second teardown after the first destroys
/// nothing more.
pub proof fn lemma_teardown_order(created: Seq<Resource>)
    requires
        created.no_duplicates(),
    ensures
        teardown_order(created).len() == created.len(),
        forall|i: int|
            0 <= i < created.len() ==> #[trigger] teardown_order(created)[i] == created[created.len()
                - 1 - i],
        teardown_order(created).no_duplicates(),
        (teardown_order(created) + teardown_order(Seq::empty())).no_duplicates(),
        teardown_order(created).to_set() == created.to_set(),
{
    let r = teardown_order(created);
    assert forall|i: int, j: int| 0 <= i < r.len() && 0 <= j < r.len() && i != j implies r[i]
        != r[j] by {
        assert(r[i] == created[created.len() - 1 - i]);
        assert(r[j] == created[created.len() - 1 - j]);
    }
    assert(r + teardown_order(Seq::<Resource>::empty()) =~= r);
    assert forall|x: Resource| r.contains(x) <==> created.contains(x) by {
        if r.contains(x) {
            let i = choose|i: int| 0 <= i < r.len() && r[i] == x;
            assert(created[created.len() - 1 - i] == x);
        }
        if created.contains(x) {
            let i = choose|i: int| 0 <= i < created.len() && created[i] == x;
            assert(r[created.len() - 1 - i] == x);
        }
    }
    assert(r.to_set() =~= created.to_set());
}

} // verus!
