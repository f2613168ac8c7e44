//! The error convention shared by the library's fallible paths.
//!
//! A fallible operation reports one of a small set of concrete error types.
//! Callers that pass errors across abstraction boundaries carry them as one
//! type-erased [`Error`] value and recover the concrete type by checked
//! downcasting: [`Error::is`] asks whether a given type is inside, and
//! [`Error::downcast_ref`], [`Error::downcast_mut`] and [`Error::downcast`]
//! hand the payload back exactly when it is.

use vstd::prelude::*;

verus! {

/// Which concrete error type an erased [`Error`] carries.
#[derive(Clone, Copy, Debug, PartialEq, Eq, Structural)]
pub enum ErrorKind {
    /// The platform's raw clock source reported a failure.
    RawClock,
    /// A timestamp arithmetic result fell outside the representable range.
    OutOfRange,
}

/// A failure reported by the platform's raw clock source in place of a
/// reading.
#[derive(Clone, Copy, Debug, PartialEq, Eq, Structural)]
pub struct RawClockError {
    /// The status code the source reported.
    pub code: i64,
}

/// A timestamp arithmetic result that fell outside the representable range.
#[derive(Clone, Copy, Debug, PartialEq, Eq, Structural)]
pub struct OutOfRangeError {
    /// True when the result would pass the largest representable timestamp,
    /// false when it would pass the smallest.
    pub past_max: bool,
}

/// A type-erased error value: one type that can carry any of the library's
/// concrete error types and give it back by checked downcasting.
#[derive(Clone, Copy, Debug, PartialEq, Eq, Structural)]
pub enum Error {
    /// Carries a [`RawClockError`].
    RawClock(RawClockError),
    /// Carries an [`OutOfRangeError`].
    OutOfRange(OutOfRangeError),
}

/// A concrete error type that can be erased into an [`Error`] and recovered
/// from it.  Each implementor owns one [`ErrorKind`] tag, and erasing then
/// downcasting by that tag gives the payload back unchanged.
pub trait ErrorPayload: Sized {
    /// The tag that marks this type inside an erased error.
    spec fn kind() -> ErrorKind;

    /// The erased error that carries `self`.
    spec fn to_error(self) -> Error;

    /// The tag, as a runtime value.
    fn runtime_kind() -> (k: ErrorKind)
        ensures
            k == Self::kind(),
    ;

    /// Borrows the payload out of an erased error of the matching kind.
    fn payload_ref(e: &Error) -> (r: Option<&Self>)
        ensures
            (r is Some) == (e.kind() == Self::kind()),
            r matches Some(p) ==> p.to_error() == *e,
    ;

    /// Mutably borrows the payload out of an erased error of the matching
    /// kind.
    fn payload_mut(e: &mut Error) -> (r: Option<&mut Self>)
        ensures
            (r is Some) == (old(e).kind() == Self::kind()),
            r matches Some(p) ==> p.to_error() == *old(e),
    ;

    /// Takes the payload out of an erased error of the matching kind; an
    /// error of any other kind comes back unchanged.
    fn payload_owned(e: Error) -> (r: Result<Self, Error>)
        ensures
            e.kind() == Self::kind() ==> (r matches Ok(p) && p.to_error() == e),
            e.kind() != Self::kind() ==> r == Err::<Self, Error>(e),
    ;

    /// Erases this value into the one shared error type.
    fn into_error(self) -> (e: Error)
        ensures
            e == self.to_error(),
            e.kind() == Self::kind(),
    ;
}

impl Error {
    /// The tag of the concrete type this value carries.
    pub open spec fn kind(self) -> ErrorKind {
        match self {
            Error::RawClock(_) => ErrorKind::RawClock,
            Error::OutOfRange(_) => ErrorKind::OutOfRange,
        }
    }

    /// The tag of the concrete type this value carries, as a runtime value.
    pub fn kind_of(&self) -> (k: ErrorKind)
        ensures
            k == self.kind(),
    {
        match self {
            Error::RawClock(_) => ErrorKind::RawClock,
            Error::OutOfRange(_) => ErrorKind::OutOfRange,
        }
    }

    /// Whether the carried type is `T`.
    pub fn is<T: ErrorPayload>(&self) -> (r: bool)
        ensures
            r == (self.kind() == T::kind()),
    {
        self.kind_of() == T::runtime_kind()
    }

    /// Borrows the carried value when its type is `T`.
    pub fn downcast_ref<T: ErrorPayload>(&self) -> (r: Option<&T>)
        ensures
            (r is Some) == (self.kind() == T::kind()),
            r matches Some(p) ==> p.to_error() == *self,
    {
        T::payload_ref(self)
    }

    /// Mutably borrows the carried value when its type is `T`.
    pub fn downcast_mut<T: ErrorPayload>(&mut self) -> (r: Option<&mut T>)
        ensures
            (r is Some) == (old(self).kind() == T::kind()),
            r matches Some(p) ==> p.to_error() == *old(self),
    {
        T::payload_mut(self)
    }

    /// Takes the carried value out when its type is `T`; otherwise the erased
    /// error comes back unchanged.
    pub fn downcast<T: ErrorPayload>(self) -> (r: Result<T, Error>)
        ensures
            self.kind() == T::kind() ==> (r matches Ok(p) && p.to_error() == self),
            self.kind() != T::kind() ==> r == Err::<T, Error>(self),
    {
        T::payload_owned(self)
    }
}

impl ErrorPayload for RawClockError {
    open spec fn kind() -> ErrorKind {
        ErrorKind::RawClock
    }

    open spec fn to_error(self) -> Error {
        Error::RawClock(self)
    }

    fn runtime_kind() -> (k: ErrorKind) {
        ErrorKind::RawClock
    }

    fn payload_ref(e: &Error) -> (r: Option<&Self>) {
        match e {
            Error::RawClock(p) => Some(p),
            _ => None,
        }
    }

    fn payload_mut(e: &mut Error) -> (r: Option<&mut Self>) {
        match e {
            Error::RawClock(p) => Some(p),
            _ => None,
        }
    }

    fn payload_owned(e: Error) -> (r: Result<Self, Error>) {
        match e {
            Error::RawClock(p) => Ok(p),
            _ => Err(e),
        }
    }

    fn into_error(self) -> (e: Error) {
        Error::RawClock(self)
    }
}

impl ErrorPayload for OutOfRangeError {
    open spec fn kind() -> ErrorKind {
        ErrorKind::OutOfRange
    }

    open spec fn to_error(self) -> Error {
        Error::OutOfRange(self)
    }

    fn runtime_kind() -> (k: ErrorKind) {
        ErrorKind::OutOfRange
    }

    fn payload_ref(e: &Error) -> (r: Option<&Self>) {
        match e {
            Error::OutOfRange(p) => Some(p),
            _ => None,
        }
    }

    fn payload_mut(e: &mut Error) -> (r: Option<&mut Self>) {
        match e {
            Error::OutOfRange(p) => Some(p),
            _ => None,
        }
    }

    fn payload_owned(e: Error) -> (r: Result<Self, Error>) {
        match e {
            Error::OutOfRange(p) => Ok(p),
            _ => Err(e),
        }
    }

    fn into_error(self) -> (e: Error) {
        Error::OutOfRange(self)
    }
}

} // verus!
