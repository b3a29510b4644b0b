//! The computation slot and the two cell flavours built on it.
use vstd::cell::invcell::InvCell;
use vstd::predicate::Predicate;
use vstd::prelude::*;

verus! {

/// Storage of a deferred value: nothing, a pending computation, or its result.
///
/// `Empty` only stands in a slot while its computation is being taken out to run.
#[verifier::reject_recursive_types(T)]
pub enum ThunkEnum<T, F> where F: FnOnce() -> T {
    Empty,
    Function(F),
    Value(T),
}

impl<T, F> ThunkEnum<T, F> where F: FnOnce() -> T {
    /// The pending computation, if any, may be called.
    pub open spec fn runnable(&self) -> bool {
        self is Function ==> call_requires(self->Function_0, ())
    }

    /// `v` is a value that this slot can produce.
    pub open spec fn yields(&self, v: T) -> bool {
        match self {
            ThunkEnum::Empty => false,
            ThunkEnum::Function(f) => call_ensures(*f, (), v),
            ThunkEnum::Value(x) => *x == v,
        }
    }

    /// `s` is a state that a slot which started as `self` can be seen in:
    /// itself, a value its computation can produce, or the transient `Empty`.
    pub open spec fn reaches(&self, s: ThunkEnum<T, F>) -> bool {
        ||| s is Empty
        ||| s == *self
        ||| (s matches ThunkEnum::Value(v) && self.yields(v))
    }

    /// `after` is the state left by forcing `self`: a pending computation is
    /// replaced by one of its results, any other state is left as it is.
    pub open spec fn forces_to(&self, after: ThunkEnum<T, F>) -> bool {
        match self {
            ThunkEnum::Function(f) => after matches ThunkEnum::Value(v) && call_ensures(*f, (), v),
            _ => after == *self,
        }
    }

    /// Consumes the slot, running its computation if it has one.
    pub fn into_value(self) -> (r: Option<T>)
        requires
            self.runnable(),
        ensures
            r is None <==> self is Empty,
            r matches Some(v) ==> self.yields(v),
    {
        match self {
            ThunkEnum::Empty => None,
            ThunkEnum::Function(f) => Some(f()),
            ThunkEnum::Value(x) => Some(x),
        }
    }
}

/// `y` is what a read of a cell made from `origin` can hand out: a clone of
/// a value that `origin` yields.
pub open spec fn readable<T: Clone, F: FnOnce() -> T>(origin: ThunkEnum<T, F>, y: T) -> bool {
    exists|x: T| #[trigger] origin.yields(x) && cloned(x, y)
}

/// Forcing is done after one step: forcing a slot that is not empty leaves a
/// cached value, and forcing that again changes nothing, so no computation
/// runs a second time.
pub proof fn lemma_forcing_runs_once<T, F>(a: ThunkEnum<T, F>, b: ThunkEnum<T, F>, c: ThunkEnum<T, F>)
    where F: FnOnce() -> T
    requires
        !(a is Empty),
        a.forces_to(b),
        b.forces_to(c),
    ensures
        b is Value,
        c == b,
{
}

/// A slot made from a value holds that value for good: it never reaches
/// another value, and forcing it leaves it as it is.
pub proof fn lemma_value_is_final<T, F>(v: T, s: ThunkEnum<T, F>, x: T)
    where F: FnOnce() -> T
    ensures
        ThunkEnum::<T, F>::Value(v).reaches(s) ==> s is Empty || s == ThunkEnum::<T, F>::Value(v),
        ThunkEnum::<T, F>::Value(v).yields(x) ==> x == v,
        ThunkEnum::<T, F>::Value(v).forces_to(s) ==> s == ThunkEnum::<T, F>::Value(v),
{
}

/// A read of a cell made from a value hands out a clone of that value, and
/// only that.
pub proof fn lemma_value_reads<T: Clone, F: FnOnce() -> T>(v: T, y: T)
    ensures
        readable(ThunkEnum::<T, F>::Value(v), y) <==> cloned(v, y),
{
    if cloned(v, y) {
        assert(ThunkEnum::<T, F>::Value(v).yields(v));
    }
}

/// Passing a cell to the other flavour and back keeps its results: whatever
/// state `s` the round trip leaves, a value it yields, or a value that forcing
/// it caches, is one that forcing the original state could produce.
pub proof fn lemma_round_trip_keeps_results<T, F>(
    origin: ThunkEnum<T, F>,
    s: ThunkEnum<T, F>,
    after: ThunkEnum<T, F>,
    v: T,
)
    where F: FnOnce() -> T
    requires
        origin.reaches(s),
    ensures
        s.yields(v) ==> origin.yields(v),
        s.forces_to(after) && after is Value ==> origin.forces_to(after),
{
}

/// All values a slot yields are one value when its computation has a single
/// possible result; so every read of a shared cell made from it agrees.
pub proof fn lemma_reads_agree<T, F>(origin: ThunkEnum<T, F>, v: T, w: T)
    where F: FnOnce() -> T
    requires
        origin matches ThunkEnum::Function(f) ==> forall|a: T, b: T|
            call_ensures(f, (), a) && call_ensures(f, (), b) ==> a == b,
        origin.yields(v),
        origin.yields(w),
    ensures
        v == w,
{
}

/// The states reachable from a state reachable from `a` are reachable from
/// `a`: a cell converted any number of times stays within what it was made from.
pub proof fn lemma_reaches_transitive<T, F>(a: ThunkEnum<T, F>, b: ThunkEnum<T, F>, c: ThunkEnum<T, F>)
    where F: FnOnce() -> T
    requires
        a.reaches(b),
        b.reaches(c),
    ensures
        a.reaches(c),
{
}

/// The states a shared cell may hold, fixed when the cell is made.
#[verifier::reject_recursive_types(T)]
struct SlotRule<T, F> where F: FnOnce() -> T {
    origin: ThunkEnum<T, F>,
}

impl<T, F> Predicate<ThunkEnum<T, F>> for SlotRule<T, F> where F: FnOnce() -> T {
    closed spec fn predicate(&self, s: ThunkEnum<T, F>) -> bool {
        self.origin.reaches(s)
    }
}

/// A deferred value that can be forced through a shared reference.
///
/// Its contents change behind `&self`, so its contracts speak of the state it
/// was made from (`origin`): every state it is later seen in is one that
/// `origin` reaches.
#[verifier::reject_recursive_types(T)]
pub struct ThunkCell<T, F> where F: FnOnce() -> T {
    inner: InvCell<ThunkEnum<T, F>, SlotRule<T, F>>,
}

impl<T, F> ThunkCell<T, F> where F: FnOnce() -> T {
    /// The state this cell was made from.
    pub closed spec fn origin(&self) -> ThunkEnum<T, F> {
        self.inner.predicate().origin
    }

    fn from_slot(slot: ThunkEnum<T, F>) -> (r: Self)
        ensures
            r.origin() == slot,
    {
        let ghost rule = SlotRule { origin: slot };
        ThunkCell { inner: InvCell::new(slot, Ghost(rule)) }
    }

    /// A cell whose computation has not run yet.
    pub fn new(func: F) -> (r: Self)
        ensures
            r.origin() == ThunkEnum::<T, F>::Function(func),
    {
        Self::from_slot(ThunkEnum::Function(func))
    }

    /// A cell that already holds its value.
    pub fn value(value: T) -> (r: Self)
        ensures
            r.origin() == ThunkEnum::<T, F>::Value(value),
    {
        Self::from_slot(ThunkEnum::Value(value))
    }

    /// A cell made from `option`; none from an empty slot.
    pub fn promote(option: ThunkEnum<T, F>) -> (r: Option<Self>)
        ensures
            r is None <==> option is Empty,
            r matches Some(c) ==> c.origin() == option,
    {
        match option {
            ThunkEnum::Empty => None,
            _ => Some(Self::from_slot(option)),
        }
    }

    /// Takes the slot out, leaving `Empty`, and runs its computation if it has one.
    fn take_forced(&self) -> (r: ThunkEnum<T, F>)
        requires
            self.origin().runnable(),
        ensures
            r is Empty || r is Value,
            self.origin().reaches(r),
            self.origin() is Empty ==> r is Empty,
    {
        match self.inner.replace(ThunkEnum::Empty) {
            ThunkEnum::Function(f) => ThunkEnum::Value(f()),
            s => s,
        }
    }

    /// Forces the cell: runs the pending computation, if any, and caches its
    /// result. Returns whether the cell holds its value afterwards; `false`
    /// means that the slot was found empty, which happens only when forcing
    /// re-enters itself from inside the computation.
    pub fn evaluate(&self) -> (live: bool)
        requires
            self.origin().runnable(),
        ensures
            self.origin() is Empty ==> !live,
    {
        let s = self.take_forced();
        let live = matches!(s, ThunkEnum::Value(_));
        self.inner.set(s);
        live
    }

    /// Forces the cell and returns a clone of its value; none when the slot
    /// was found empty (a forcing that re-entered itself).
    pub fn get(&self) -> (r: Option<T>)
        where T: Clone
        requires
            self.origin().runnable(),
        ensures
            r matches Some(v) ==> readable(self.origin(), v),
            self.origin() is Empty ==> r is None,
    {
        match self.take_forced() {
            ThunkEnum::Value(v) => {
                let c = v.clone();
                assert(self.origin().yields(v) && cloned(v, c));
                self.inner.set(ThunkEnum::Value(v));
                Some(c)
            },
            s => {
                self.inner.set(s);
                None
            },
        }
    }

    /// Consumes the cell and returns its value, running the computation if it
    /// has not run yet; none when the slot is empty.
    pub fn into_value_or_run(self) -> (r: Option<T>)
        requires
            self.origin().runnable(),
        ensures
            r matches Some(v) ==> self.origin().yields(v),
            self.origin() is Empty ==> r is None,
    {
        self.inner.into_inner().into_value()
    }

    /// The shared flavour of an exclusive cell, in the same state; nothing runs.
    pub fn from_mut(as_mut: ThunkMut<T, F>) -> (r: Self)
        ensures
            r.origin() == as_mut@,
    {
        Self::from_slot(as_mut.inner)
    }
}

/// A deferred value that is forced through an exclusive reference.
#[verifier::reject_recursive_types(T)]
pub struct ThunkMut<T, F> where F: FnOnce() -> T {
    inner: ThunkEnum<T, F>,
}

impl<T, F> View for ThunkMut<T, F> where F: FnOnce() -> T {
    type V = ThunkEnum<T, F>;

    closed spec fn view(&self) -> ThunkEnum<T, F> {
        self.inner
    }
}

impl<T, F> ThunkMut<T, F> where F: FnOnce() -> T {
    /// A cell whose computation has not run yet.
    pub fn new(func: F) -> (r: Self)
        ensures
            r@ == ThunkEnum::<T, F>::Function(func),
    {
        ThunkMut { inner: ThunkEnum::Function(func) }
    }

    /// A cell that already holds its value.
    pub fn value(value: T) -> (r: Self)
        ensures
            r@ == ThunkEnum::<T, F>::Value(value),
    {
        ThunkMut { inner: ThunkEnum::Value(value) }
    }

    /// A cell holding `option`; none from an empty slot.
    pub fn promote(option: ThunkEnum<T, F>) -> (r: Option<Self>)
        ensures
            r is None <==> option is Empty,
            r matches Some(c) ==> c@ == option,
    {
        match option {
            ThunkEnum::Empty => None,
            _ => Some(ThunkMut { inner: option }),
        }
    }

    /// Forces the cell: a pending computation runs and its result is cached;
    /// a cached value (or an empty slot) is left as it is.
    pub fn evaluate(&mut self)
        requires
            old(self)@.runnable(),
        ensures
            old(self)@.forces_to(final(self)@),
    {
        let mut dance = ThunkEnum::Empty;
        std::mem::swap(&mut self.inner, &mut dance);
        self.inner = match dance {
            ThunkEnum::Function(f) => ThunkEnum::Value(f()),
            s => s,
        };
    }

    /// The cached value, if the cell holds one.
    pub fn cached(&self) -> (r: Option<&T>)
        ensures
            r is Some <==> self@ is Value,
            r matches Some(v) ==> self@ == ThunkEnum::<T, F>::Value(*v),
    {
        match &self.inner {
            ThunkEnum::Value(v) => Some(v),
            _ => None,
        }
    }

    /// Forces the cell and gives write access to its value.
    pub fn force_mut(&mut self) -> (r: &mut T)
        requires
            !(old(self)@ is Empty),
            old(self)@.runnable(),
        ensures
            old(self)@.forces_to(ThunkEnum::Value(*r)),
            final(self)@ == ThunkEnum::<T, F>::Value(*final(r)),
    {
        self.evaluate();
        match &mut self.inner {
            ThunkEnum::Value(v) => v,
            _ => vstd::pervasive::unreached(),
        }
    }

    /// Consumes the cell and returns its value, running the computation if it
    /// has not run yet.
    pub fn into_value_or_run(self) -> (r: T)
        requires
            !(self@ is Empty),
            self@.runnable(),
        ensures
            self@.yields(r),
    {
        match self.inner {
            ThunkEnum::Function(f) => f(),
            ThunkEnum::Value(v) => v,
            ThunkEnum::Empty => vstd::pervasive::unreached(),
        }
    }

    /// The exclusive flavour of a shared cell, in the state it holds; nothing runs.
    pub fn from_cell(as_cell: ThunkCell<T, F>) -> (r: Self)
        ensures
            as_cell.origin().reaches(r@),
    {
        ThunkMut { inner: as_cell.inner.into_inner() }
    }
}

} // verus!
