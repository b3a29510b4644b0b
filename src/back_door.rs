//! A value paired with a one-shot callback that receives it exactly once.
use vstd::prelude::*;

verus! {

/// A one-shot callback that accepts whatever value it is handed.
#[verifier::reject_recursive_types(T)]
#[verifier::reject_recursive_types(R)]
struct CallBack<T, R, F> where F: FnOnce(T) -> R {
    f: F,
    shape: std::marker::PhantomData<(T, R)>,
}

impl<T, R, F> CallBack<T, R, F> where F: FnOnce(T) -> R {
    #[verifier::type_invariant]
    spec fn callable(&self) -> bool {
        forall|t: T| call_requires(self.f, (t,))
    }

    fn call(self, thing: T) -> (r: R)
        ensures
            call_ensures(self.f, (thing,), r),
    {
        proof {
            use_type_invariant(&self);
        }
        let CallBack { f, shape: _ } = self;
        f(thing)
    }
}

/// The value and its callback, always held and consumed together.
#[verifier::reject_recursive_types(T)]
#[verifier::reject_recursive_types(R)]
struct BackDoorBase<T, R, F> where F: FnOnce(T) -> R {
    thing: T,
    call_back: CallBack<T, R, F>,
}

impl<T, R, F> BackDoorBase<T, R, F> where F: FnOnce(T) -> R {
    fn into_result(self) -> (r: R)
        ensures
            call_ensures(self.call_back.f, (self.thing,), r),
    {
        let BackDoorBase { thing, call_back } = self;
        call_back.call(thing)
    }
}

/// A guaranteed finalizer: owns a value and a callback, and hands the value to
/// the callback exactly once, either on request or when it is dropped.
#[verifier::reject_recursive_types(T)]
#[verifier::reject_recursive_types(R)]
pub struct BackDoor<T, R, F> where F: FnOnce(T) -> R {
    inner: Option<BackDoorBase<T, R, F>>,
}

impl<T, R, F> BackDoor<T, R, F> where F: FnOnce(T) -> R {
    /// The finalizer has not been consumed yet.
    pub closed spec fn live(&self) -> bool {
        self.inner is Some
    }

    /// The wrapped value.
    pub closed spec fn thing(&self) -> T {
        self.inner->Some_0.thing
    }

    /// The callback that will receive the wrapped value.
    pub closed spec fn call_back(&self) -> F {
        self.inner->Some_0.call_back.f
    }

    /// A live finalizer for `thing`; `call_back` must accept any value, since
    /// the wrapped value may be changed before it fires.
    pub fn new(thing: T, call_back: F) -> (r: Self)
        requires
            forall|t: T| call_requires(call_back, (t,)),
        ensures
            r.live(),
            r.thing() == thing,
            r.call_back() == call_back,
    {
        BackDoor {
            inner: Some(
                BackDoorBase {
                    thing,
                    call_back: CallBack { f: call_back, shape: std::marker::PhantomData },
                },
            ),
        }
    }

    /// Read access to the wrapped value; does not consume the finalizer.
    pub fn get(&self) -> (r: &T)
        requires
            self.live(),
        ensures
            *r == self.thing(),
    {
        match &self.inner {
            Some(b) => &b.thing,
            None => vstd::pervasive::unreached(),
        }
    }

    /// Write access to the wrapped value; does not consume the finalizer.
    pub fn get_mut(&mut self) -> (r: &mut T)
        requires
            old(self).live(),
        ensures
            *r == old(self).thing(),
            final(self).live(),
            final(self).thing() == *final(r),
            final(self).call_back() == old(self).call_back(),
    {
        match &mut self.inner {
            Some(b) => &mut b.thing,
            None => vstd::pervasive::unreached(),
        }
    }

    /// Consumes the finalizer without calling the callback, handing back the
    /// value and the callback.
    pub fn retrieve(self) -> (r: (T, F))
        requires
            self.live(),
        ensures
            r == (self.thing(), self.call_back()),
    {
        let mut this = self;
        match this.inner.take() {
            Some(b) => {
                let BackDoorBase { thing, call_back } = b;
                let CallBack { f, shape: _ } = call_back;
                (thing, f)
            },
            None => vstd::pervasive::unreached(),
        }
    }

    /// Consumes the finalizer, calling the callback on the value and
    /// returning what it returns.
    pub fn into_result(self) -> (r: R)
        requires
            self.live(),
        ensures
            call_ensures(self.call_back(), (self.thing(),), r),
    {
        let mut this = self;
        match this.inner.take() {
            Some(b) => b.into_result(),
            None => vstd::pervasive::unreached(),
        }
    }
}

impl<T, R, F> BackDoor<T, R, F> where F: FnOnce(T) -> R {
    /// Fires the callback on the value unless the finalizer was consumed,
    /// leaving it consumed.
    fn fire(&mut self)
        ensures
            !final(self).live(),
            !old(self).live() ==> *final(self) == *old(self),
    {
        let mut taken = None;
        std::mem::swap(&mut self.inner, &mut taken);
        match taken {
            Some(b) => {
                b.into_result();
            },
            None => {},
        }
    }
}

impl<T, R, F> Drop for BackDoor<T, R, F> where F: FnOnce(T) -> R {
    /// Runs the verified `fire`. Verus asks every `drop` to be shown free of
    /// unwinding, which no call of an arbitrary callback can be, so this one
    /// line is taken on trust; a panic in the callback leaves `drop` as it
    /// would leave any destructor.
    #[verifier::external_body]
    fn drop(&mut self)
        opens_invariants none
        no_unwind
    {
        self.fire();
    }
}

} // verus!
