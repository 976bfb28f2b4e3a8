//! A single-assignment deferred-construction cell.
//!
//! The cell is created holding a one-shot factory.  The first access invokes
//! the factory exactly once, discards it, and caches the built value; every
//! later access returns the cached value and can never run a factory again,
//! because the factory no longer exists.  The transition is irreversible.
//!
//! The cell carries no internal locking: concurrent callers must serialize
//! access around it (Rust's `&mut` enforces this within one task; across
//! tasks the owner wraps the cell in a mutual-exclusion lock).

use vstd::prelude::*;

verus! {

/// Either a pending one-shot factory or the value it built.
pub enum BuildOnAccess<R, F> {
    Uninitialized(Option<F>),
    Initialized(R),
}

impl<R, F: FnOnce() -> R> BuildOnAccess<R, F> {
    /// A cell that has not run its factory may always still do so: the
    /// factory is present and its precondition holds.
    pub open spec fn wf(self) -> bool {
        self matches BuildOnAccess::Uninitialized(of) ==> of is Some && call_requires(
            of->0,
            (),
        )
    }

    /// Whether the factory has run and the value is cached.
    pub open spec fn is_initialized(self) -> bool {
        self is Initialized
    }

    /// The cached value.
    pub open spec fn value(self) -> R
        recommends
            self.is_initialized(),
    {
        self->Initialized_0
    }

    /// How one access moves the cell from `pre` to `Initialized(r)`: the
    /// value handed out is the cached one if there was one, and otherwise an
    /// output of the factory, which has now been consumed.
    pub open spec fn builds_to(pre: Self, r: R) -> bool {
        &&& (pre matches BuildOnAccess::Uninitialized(of) ==> call_ensures(of->0, (), r))
        &&& (pre matches BuildOnAccess::Initialized(v) ==> r == v)
    }

    /// A cell holding a pending factory.
    pub fn new(factory: F) -> (s: Self)
        requires
            call_requires(factory, ()),
        ensures
            s == BuildOnAccess::<R, F>::Uninitialized(Some(factory)),
            s.wf(),
            !s.is_initialized(),
    {
        BuildOnAccess::Uninitialized(Some(factory))
    }

    /// Whether the factory has already run.
    pub fn is_built(&self) -> (r: bool)
        ensures
            r == self.is_initialized(),
    {
        match self {
            BuildOnAccess::Uninitialized(_) => false,
            BuildOnAccess::Initialized(_) => true,
        }
    }

    /// Access the value, building it first if this is the first access.
    ///
    /// On the first access the factory runs exactly once and is discarded;
    /// afterwards the cell is `Initialized` and stays so.  Later accesses
    /// return the cached value unchanged.
    pub fn get_mut(&mut self) -> (r: &mut R)
        requires
            old(self).wf(),
        ensures
            Self::builds_to(*old(self), *r),
            *final(self) == BuildOnAccess::<R, F>::Initialized(*final(r)),
    {
        if let BuildOnAccess::Uninitialized(f) = self {
            let factory = f.take().unwrap();
            *self = BuildOnAccess::Initialized(factory());
        }
        match self {
            BuildOnAccess::Initialized(r) => r,
            BuildOnAccess::Uninitialized(_) => vstd::pervasive::unreached(),
        }
    }
}

} // verus!
