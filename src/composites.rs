//! Composing services by the base path of the requests they serve.
//!
//! A request goes to the first service, in the order they were added, whose
//! base path starts the request's path; when none does, the answer is a
//! "not found" response.
use vstd::prelude::*;
use vstd::string::*;

verus! {

/// The path starts with the base path, byte for byte.
pub open spec fn has_prefix(path: Seq<u8>, base: Seq<u8>) -> bool {
    base.len() <= path.len() && path.subrange(0, base.len() as int) == base
}

/// The base paths of a list of entries.
pub open spec fn base_paths<S>(entries: Seq<(&'static str, S)>) -> Seq<Seq<u8>> {
    entries.map_values(|e: (&'static str, S)| e.0.spec_bytes())
}

/// Where a request for `path` goes among these base paths: the first one that
/// starts it, if any.
pub open spec fn first_match(bases: Seq<Seq<u8>>, path: Seq<u8>) -> Option<int>
    decreases bases.len(),
{
    if bases.len() == 0 {
        None
    } else if has_prefix(path, bases[0]) {
        Some(0)
    } else {
        match first_match(bases.drop_first(), path) {
            Some(i) => Some(i + 1),
            None => None,
        }
    }
}

/// `first_match` is the least index whose base path starts the path.
pub proof fn lemma_first_match(bases: Seq<Seq<u8>>, path: Seq<u8>)
    ensures
        first_match(bases, path) matches Some(i) ==> 0 <= i < bases.len() && has_prefix(
            path,
            bases[i],
        ) && forall|j: int| 0 <= j < i ==> !has_prefix(path, #[trigger] bases[j]),
        first_match(bases, path) is None ==> forall|j: int|
            0 <= j < bases.len() ==> !has_prefix(path, #[trigger] bases[j]),
    decreases bases.len(),
{
    if bases.len() > 0 && !has_prefix(path, bases[0]) {
        lemma_first_match(bases.drop_first(), path);
        assert forall|j: int| 1 <= j < bases.len() implies bases[j] == bases.drop_first()[j - 1] by {}
    }
}

/// Tests whether the path starts with the base path.
pub fn starts_with(path: &str, base: &str) -> (r: bool)
    ensures
        r == has_prefix(path.spec_bytes(), base.spec_bytes()),
{
    let p = path.as_bytes();
    let b = base.as_bytes();
    if b.len() > p.len() {
        return false;
    }
    let mut i: usize = 0;
    while i < b.len()
        invariant
            b.len() <= p.len(),
            p@ == path.spec_bytes(),
            b@ == base.spec_bytes(),
            i <= b@.len(),
            forall|j: int| 0 <= j < i ==> p@[j] == b@[j],
        decreases b@.len() - i,
    {
        if p[i] != b[i] {
            assert(p@.subrange(0, b@.len() as int)[i as int] != b@[i as int]);
            return false;
        }
        i = i + 1;
    }
    assert(p@.subrange(0, b@.len() as int) =~= b@);
    true
}

/// The index of the first entry whose base path starts the path.
pub fn route<S>(entries: &Vec<(&'static str, S)>, path: &str) -> (r: Option<usize>)
    ensures
        r matches Some(i) ==> first_match(base_paths(entries@), path.spec_bytes()) == Some(i as int),
        r is None ==> first_match(base_paths(entries@), path.spec_bytes()) is None,
{
    let ghost bases = base_paths(entries@);
    let mut i: usize = 0;
    while i < entries.len()
        invariant
            i <= entries@.len(),
            bases == base_paths(entries@),
            forall|j: int| 0 <= j < i ==> !has_prefix(path.spec_bytes(), #[trigger] bases[j]),
        decreases entries@.len() - i,
    {
        if starts_with(path, entries[i].0) {
            proof {
                lemma_first_match(bases, path.spec_bytes());
                match first_match(bases, path.spec_bytes()) {
                    Some(k) => {
                        if k < i {
                            assert(!has_prefix(path.spec_bytes(), bases[k]));
                        }
                        if k > i {
                            assert(!has_prefix(path.spec_bytes(), bases[i as int]));
                        }
                    },
                    None => {
                        assert(!has_prefix(path.spec_bytes(), bases[i as int]));
                    },
                }
            }
            return Some(i);
        }
        i = i + 1;
    }
    proof {
        lemma_first_match(bases, path.spec_bytes());
        if let Some(k) = first_match(bases, path.spec_bytes()) {
            assert(!has_prefix(path.spec_bytes(), bases[k]));
        }
    }
    None
}

/// Services, each with the base path of the requests it serves, tried in the
/// order they were added.
#[derive(Debug)]
pub struct CompositeService<S>(Vec<(&'static str, S)>);

impl<S> CompositeService<S> {
    /// A composite with no services yet.
    pub fn new() -> (r: Self)
        ensures
            r.entries().len() == 0,
    {
        CompositeService(Vec::new())
    }

    /// The services with their base paths.
    pub closed spec fn entries(&self) -> Seq<(&'static str, S)> {
        self.0@
    }

    /// Adds a service for the requests whose path starts with `base_path`,
    /// after those already there.
    pub fn push(&mut self, base_path: &'static str, service: S)
        ensures
            final(self).entries() == old(self).entries().push((base_path, service)),
    {
        self.0.push((base_path, service));
    }

    /// The number of services.
    pub fn len(&self) -> (r: usize)
        ensures
            r == self.entries().len(),
    {
        self.0.len()
    }

    /// Borrows the services with their base paths.
    pub fn services(&self) -> (r: &Vec<(&'static str, S)>)
        ensures
            r@ == self.entries(),
    {
        &self.0
    }

    /// Borrows one service to call it.
    pub fn service_mut(&mut self, i: usize) -> (r: &mut S)
        requires
            i < old(self).entries().len(),
        ensures
            *r == old(self).entries()[i as int].1,
            final(self).entries() == old(self).entries().update(
                i as int,
                (old(self).entries()[i as int].0, *final(r)),
            ),
    {
        &mut self.0[i].1
    }

    /// Which service a request for `path` goes to: the first whose base path
    /// starts the path, or none, for a "not found" response.
    pub fn route(&self, path: &str) -> (r: Option<usize>)
        ensures
            r matches Some(i) ==> first_match(base_paths(self.entries()), path.spec_bytes()) == Some(
                i as int,
            ),
            r is None ==> first_match(base_paths(self.entries()), path.spec_bytes()) is None,
    {
        route(&self.0, path)
    }
}

/// Service factories, each with the base path of the requests that its
/// services serve.
#[derive(Debug)]
pub struct CompositeMakeService<M>(Vec<(&'static str, M)>);

impl<M> CompositeMakeService<M> {
    /// A composite with no factories yet.
    pub fn new() -> (r: Self)
        ensures
            r.entries().len() == 0,
    {
        CompositeMakeService(Vec::new())
    }

    /// The factories with their base paths.
    pub closed spec fn entries(&self) -> Seq<(&'static str, M)> {
        self.0@
    }

    /// Adds a factory for the requests whose path starts with `base_path`.
    pub fn push(&mut self, base_path: &'static str, factory: M)
        ensures
            final(self).entries() == old(self).entries().push((base_path, factory)),
    {
        self.0.push((base_path, factory));
    }

    /// The number of factories.
    pub fn len(&self) -> (r: usize)
        ensures
            r == self.entries().len(),
    {
        self.0.len()
    }

    /// Borrows the factories with their base paths.
    pub fn factories(&self) -> (r: &Vec<(&'static str, M)>)
        ensures
            r@ == self.entries(),
    {
        &self.0
    }

    /// Borrows one factory to call it.
    pub fn factory_mut(&mut self, i: usize) -> (r: &mut M)
        requires
            i < old(self).entries().len(),
        ensures
            *r == old(self).entries()[i as int].1,
            final(self).entries() == old(self).entries().update(
                i as int,
                (old(self).entries()[i as int].0, *final(r)),
            ),
    {
        &mut self.0[i].1
    }
}

/// The index of the first failure among the outcomes, if any.
pub open spec fn first_failure<S, E>(outcomes: Seq<(&'static str, Result<S, E>)>) -> Option<int>
    decreases outcomes.len(),
{
    if outcomes.len() == 0 {
        None
    } else if outcomes[0].1 is Err {
        Some(0)
    } else {
        match first_failure(outcomes.drop_first()) {
            Some(i) => Some(i + 1),
            None => None,
        }
    }
}

/// Puts together the services that each factory made, in order: when any
/// factory failed, the whole fails with the first failure.
pub fn assemble<S, E>(outcomes: Vec<(&'static str, Result<S, E>)>) -> (r: Result<
    CompositeService<S>,
    E,
>)
    ensures
        first_failure(outcomes@) matches Some(i) ==> r == Err::<CompositeService<S>, E>(
            outcomes@[i].1->Err_0,
        ),
        first_failure(outcomes@) is None ==> (r matches Ok(c) && c.entries().len()
            == outcomes@.len() && forall|j: int|
            0 <= j < outcomes@.len() ==> #[trigger] c.entries()[j] == (
                outcomes@[j].0,
                outcomes@[j].1->Ok_0,
            )),
{
    let ghost all = outcomes@;
    let mut services: Vec<(&'static str, S)> = Vec::new();
    let mut rest = outcomes;
    let mut k: usize = 0;
    let n = rest.len();
    while rest.len() > 0
        invariant
            all == outcomes@,
            n == all.len(),
            k + rest@.len() == all.len(),
            rest@ == all.subrange(k as int, all.len() as int),
            services@.len() == k,
            forall|j: int| 0 <= j < k ==> all[j].1 is Ok,
            forall|j: int|
                0 <= j < k ==> #[trigger] services@[j] == (all[j].0, all[j].1->Ok_0),
            first_failure(all) == match first_failure(rest@) {
                Some(i) => Some(i + k),
                None => None::<int>,
            },
        decreases rest@.len(),
    {
        let ghost before = rest@;
        let (base, outcome) = rest.remove(0);
        assert(before.drop_first() =~= rest@);
        assert(all[k as int] == before[0]);
        assert(rest@ =~= all.subrange(k + 1, all.len() as int));
        match outcome {
            Ok(service) => {
                services.push((base, service));
            },
            Err(e) => {
                assert(first_failure(before) == Some(0int));
                return Err(e);
            },
        }
        k = k + 1;
    }
    let r = CompositeService(services);
    assert forall|j: int| 0 <= j < all.len() implies #[trigger] r.entries()[j] == (
        all[j].0,
        all[j].1->Ok_0,
    ) by {
        assert(r.entries() == services@);
    }
    Ok(r)
}

} // verus!
