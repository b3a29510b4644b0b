//! Deferred values and guaranteed finalizers.
//!
//! A deferred cell holds either a pending one-shot computation or the value it
//! produced; forcing the cell runs the computation at most once and caches its
//! result. A finalizer hands its wrapped value to a one-shot callback exactly once.
use vstd::prelude::*;

pub mod back_door;
pub mod thunk;

pub use back_door::BackDoor;
pub use thunk::{readable, ThunkCell, ThunkEnum, ThunkMut};

verus! {

/// Storage of a deferred value for [`LazyCell`]: nothing, a pending
/// computation, or its result. It holds what a [`ThunkEnum`] holds.
#[verifier::reject_recursive_types(T)]
pub enum LazyOption<T, F> where F: FnOnce() -> T {
    Empty,
    Function(F),
    Result(T),
}

impl<T, F> LazyOption<T, F> where F: FnOnce() -> T {
    /// The same state as a [`ThunkEnum`].
    pub open spec fn as_slot(self) -> ThunkEnum<T, F> {
        match self {
            LazyOption::Empty => ThunkEnum::Empty,
            LazyOption::Function(f) => ThunkEnum::Function(f),
            LazyOption::Result(x) => ThunkEnum::Value(x),
        }
    }

    fn into_slot(self) -> (r: ThunkEnum<T, F>)
        ensures
            r == self.as_slot(),
    {
        match self {
            LazyOption::Empty => ThunkEnum::Empty,
            LazyOption::Function(f) => ThunkEnum::Function(f),
            LazyOption::Result(x) => ThunkEnum::Value(x),
        }
    }

    /// Consumes the slot, running its computation if it has one.
    pub fn into_result(self) -> (r: Option<T>)
        requires
            self.as_slot().runnable(),
        ensures
            r is None <==> self is Empty,
            r matches Some(v) ==> self.as_slot().yields(v),
    {
        match self {
            LazyOption::Empty => None,
            LazyOption::Function(f) => Some(f()),
            LazyOption::Result(x) => Some(x),
        }
    }
}

/// A deferred value forced through a shared reference: a [`ThunkCell`]
/// made from a [`LazyOption`].
#[verifier::reject_recursive_types(T)]
pub struct LazyCell<T, F> where F: FnOnce() -> T {
    cell: ThunkCell<T, F>,
}

impl<T, F> LazyCell<T, F> where F: FnOnce() -> T {
    /// The state this cell was made from.
    pub closed spec fn origin(&self) -> ThunkEnum<T, F> {
        self.cell.origin()
    }

    /// A cell whose computation has not run yet.
    pub fn new(func: F) -> (r: Self)
        ensures
            r.origin() == ThunkEnum::<T, F>::Function(func),
    {
        LazyCell { cell: ThunkCell::new(func) }
    }

    /// A cell made from `option`; none from an empty slot.
    pub fn promote(option: LazyOption<T, F>) -> (r: Option<LazyCell<T, F>>)
        ensures
            r is None <==> option is Empty,
            r matches Some(c) ==> c.origin() == option.as_slot(),
    {
        match ThunkCell::promote(option.into_slot()) {
            Some(cell) => Some(LazyCell { cell }),
            None => None,
        }
    }

    /// Forces the cell; see [`ThunkCell::evaluate`].
    pub fn evaluate(&self) -> (live: bool)
        requires
            self.origin().runnable(),
        ensures
            self.origin() is Empty ==> !live,
    {
        self.cell.evaluate()
    }

    /// Forces the cell and returns a clone of its value; see [`ThunkCell::get`].
    pub fn get(&self) -> (r: Option<T>)
        where T: Clone
        requires
            self.origin().runnable(),
        ensures
            r matches Some(v) ==> readable(self.origin(), v),
            self.origin() is Empty ==> r is None,
    {
        self.cell.get()
    }

    /// The cell as a function that forces it and returns a clone of its value.
    pub fn cache_fn<'a>(&'a self) -> (r: impl Fn() -> Option<T> + 'a)
        where T: Clone
        requires
            self.origin().runnable(),
        ensures
            call_requires(r, ()),
            forall|v: Option<T>|
                #[trigger] call_ensures(r, (), v) ==> (v matches Some(y) ==> readable(self.origin(), y)),
    {
        move || -> (v: Option<T>)
            requires
                self.origin().runnable(),
            ensures
                v matches Some(y) ==> readable(self.origin(), y),
            { self.get() }
    }
}

} // verus!
