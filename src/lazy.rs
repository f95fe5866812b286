//! A holder of a resource that is built on first use and torn down on demand.
use vstd::prelude::*;

use crate::error::Error;

verus! {

/// Values that can be cleaned up before they are dropped.
pub trait Shutdown {
    /// Cleans up `self`.
    fn shutdown(&mut self) -> Result<(), Error>;
}

/// A slot that holds at most one `T`, built by `factory` on the first access
/// and emptied again by `evict`. Exclusive access (`&mut self`) serializes
/// the callers, so that racing first accesses build one value.
#[verifier::reject_recursive_types(T)]
pub struct Lazy<T, F: Fn() -> T> {
    inner: Option<T>,
    factory: F,
    builds: Ghost<nat>,
}

impl<T, F: Fn() -> T> Lazy<T, F> {
    /// The value held, if built.
    pub closed spec fn spec_value(&self) -> Option<T> {
        self.inner
    }

    /// How many times the factory ran.
    pub closed spec fn spec_builds(&self) -> nat {
        self.builds@
    }

    /// The factory.
    pub closed spec fn spec_factory(&self) -> F {
        self.factory
    }

    /// True when the factory may be called.
    pub open spec fn wf(&self) -> bool {
        call_requires(self.spec_factory(), ())
    }

    /// Creates an empty holder that builds its value with `factory`.
    pub fn new(factory: F) -> (r: Self)
        requires
            call_requires(factory, ()),
        ensures
            r.wf(),
            r.spec_value().is_none(),
            r.spec_builds() == 0,
            r.spec_factory() == factory,
    {
        Lazy { inner: None, factory, builds: Ghost(0) }
    }

    /// True when the value is built.
    pub fn is_built(&self) -> (r: bool)
        ensures
            r == self.spec_value().is_some(),
    {
        self.inner.is_some()
    }

    /// The value, if built; builds nothing.
    pub fn get(&self) -> (r: Option<&T>)
        ensures
            r matches Some(v) ==> self.spec_value() == Some(*v),
            r is None <==> self.spec_value() is None,
    {
        self.inner.as_ref()
    }

    /// Builds the value if it is not built yet.
    fn init(&mut self)
        requires
            old(self).wf(),
        ensures
            final(self).wf(),
            final(self).spec_factory() == old(self).spec_factory(),
            final(self).spec_value().is_some(),
            old(self).spec_value().is_some() ==> final(self).spec_value() == old(self).spec_value()
                && final(self).spec_builds() == old(self).spec_builds(),
            old(self).spec_value().is_none() ==> call_ensures(
                old(self).spec_factory(),
                (),
                final(self).spec_value().unwrap(),
            ) && final(self).spec_builds() == old(self).spec_builds() + 1,
    {
        if self.inner.is_none() {
            let value = (self.factory)();
            self.inner = Some(value);
            self.builds = Ghost(self.builds@ + 1);
        }
    }

    /// Shared access to the value, built first if it is not built yet.
    pub fn read(&mut self) -> (r: &T)
        requires
            old(self).wf(),
        ensures
            final(self).wf(),
            final(self).spec_factory() == old(self).spec_factory(),
            final(self).spec_value() == Some(*r),
            old(self).spec_value().is_some() ==> final(self).spec_value() == old(self).spec_value()
                && final(self).spec_builds() == old(self).spec_builds(),
            old(self).spec_value().is_none() ==> call_ensures(old(self).spec_factory(), (), *r)
                && final(self).spec_builds() == old(self).spec_builds() + 1,
    {
        self.init();
        self.inner.as_ref().unwrap()
    }

    /// Exclusive access to the value, built first if it is not built yet.
    /// What is written through the reference is what the holder holds after.
    pub fn write(&mut self) -> (r: &mut T)
        requires
            old(self).wf(),
        ensures
            final(self).wf(),
            final(self).spec_factory() == old(self).spec_factory(),
            final(self).spec_value() == Some(*final(r)),
            old(self).spec_value().is_some() ==> old(self).spec_value() == Some(*r)
                && final(self).spec_builds() == old(self).spec_builds(),
            old(self).spec_value().is_none() ==> call_ensures(old(self).spec_factory(), (), *r)
                && final(self).spec_builds() == old(self).spec_builds() + 1,
    {
        self.init();
        self.inner.as_mut().unwrap()
    }
}

impl<T: Shutdown, F: Fn() -> T> Lazy<T, F> {
    /// True when `after` and `r` are a possible outcome of `evict` on
    /// `before`.
    pub open spec fn spec_evicted(before: Self, after: Self, r: Result<(), Error>) -> bool {
        &&& after.wf() == before.wf()
        &&& after.spec_factory() == before.spec_factory()
        &&& after.spec_builds() == before.spec_builds()
        &&& before.spec_value().is_none() ==> r is Ok && after == before
        &&& r is Ok ==> after.spec_value().is_none()
        &&& r is Err ==> after.spec_value().is_some()
    }

    /// Ends an eviction of a built holder with what the value's `shutdown`
    /// returned: on success the holder is emptied, on failure the value stays;
    /// either way the result is handed back as it came.
    pub fn finish_evict(&mut self, done: Result<(), Error>) -> (r: Result<(), Error>)
        requires
            old(self).wf(),
            old(self).spec_value().is_some(),
        ensures
            r == done,
            final(self).wf(),
            final(self).spec_factory() == old(self).spec_factory(),
            final(self).spec_builds() == old(self).spec_builds(),
            done is Ok ==> final(self).spec_value().is_none(),
            done is Err ==> final(self).spec_value() == old(self).spec_value(),
    {
        if done.is_ok() {
            self.inner = None;
        }
        done
    }

    /// Tears the value down, if built, and empties the holder. On an empty
    /// holder it does nothing and calls nothing. On a built one it calls the
    /// value's `shutdown` and ends with `finish_evict` on what that returned.
    pub fn evict(&mut self) -> (r: Result<(), Error>)
        requires
            old(self).wf(),
        ensures
            Self::spec_evicted(*old(self), *final(self), r),
    {
        if self.inner.is_none() {
            return Ok(());
        }
        let done = self.inner.as_mut().unwrap().shutdown();
        self.finish_evict(done)
    }
}

/// Evicting a holder that was never built, or is empty again, changes
/// nothing, runs neither the factory nor `shutdown`, and succeeds.
pub proof fn law_evict_empty_is_noop<T: Shutdown, F: Fn() -> T>(
    a: Lazy<T, F>,
    b: Lazy<T, F>,
    r: Result<(), Error>,
)
    requires
        a.spec_value().is_none(),
        Lazy::spec_evicted(a, b, r),
    ensures
        r is Ok,
        b == a,
        b.spec_builds() == a.spec_builds(),
{
}

/// Two evictions in a row, the first of which succeeded: the second
/// succeeds, leaves the holder empty and as the first left it, and the
/// factory runs no more than before.
pub proof fn law_evict_twice<T: Shutdown, F: Fn() -> T>(
    a: Lazy<T, F>,
    b: Lazy<T, F>,
    c: Lazy<T, F>,
    r1: Result<(), Error>,
    r2: Result<(), Error>,
)
    requires
        Lazy::spec_evicted(a, b, r1),
        Lazy::spec_evicted(b, c, r2),
        r1 is Ok,
    ensures
        r2 is Ok,
        c == b,
        c.spec_value().is_none(),
        c.spec_builds() == a.spec_builds(),
{
}

} // verus!
