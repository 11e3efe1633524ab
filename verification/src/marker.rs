use core::marker::PhantomData;
use vstd::prelude::*;

verus! {

/// A default value that was supplied to the builder.
#[derive(Debug)]
pub struct Just<T>(pub T);

impl<T: Clone> Clone for Just<T> {
    /// A clone wraps whatever `T`'s own clone yields.
    fn clone(&self) -> (r: Self)
        ensures
            vstd::pervasive::cloned::<T>(self.0, r.0),
    {
        Just(self.0.clone())
    }
}

impl<T: Copy> Copy for Just<T> {

}

/// No default value; the stored type is known but the file must already
/// hold a valid encoding of it.
#[derive(Debug)]
pub struct Nothing<T>(pub PhantomData<T>);

impl<T> Clone for Nothing<T> {
    fn clone(&self) -> (r: Self)
        ensures
            r == *self,
    {
        Nothing(PhantomData)
    }
}

impl<T> Copy for Nothing<T> {

}

/// Marker for builders whose file operations suspend a task.
#[derive(Debug, Clone, Copy, PartialEq, Eq, Structural)]
pub struct Async {}

/// Marker for builders whose file operations block the calling thread.
#[derive(Debug, Clone, Copy, PartialEq, Eq, Structural)]
pub struct Blocking {}

impl<T> Default for Nothing<T> {
    fn default() -> (r: Self)
        ensures
            r == Nothing::<T>(PhantomData),
    {
        Nothing(PhantomData)
    }
}

/// Turns a builder's default slot ([`Just`] or [`Nothing`]) into the
/// `Option` the reconciliation engine takes.
pub trait ToOption: Sized {
    /// The stored type the slot is about.
    type Inner;

    /// The optional default this slot stands for.
    spec fn maybe_spec(self) -> Option<Self::Inner>;

    /// Produce the optional default this slot stands for.
    fn maybe(self) -> (r: Option<Self::Inner>)
        ensures
            r == self.maybe_spec(),
    ;
}

impl<T> ToOption for Just<T> {
    type Inner = T;

    open spec fn maybe_spec(self) -> Option<T> {
        Some(self.0)
    }

    fn maybe(self) -> (r: Option<T>) {
        Some(self.0)
    }
}

impl<T> ToOption for Nothing<T> {
    type Inner = T;

    open spec fn maybe_spec(self) -> Option<T> {
        None
    }

    fn maybe(self) -> (r: Option<T>) {
        None
    }
}

} // verus!
