use crate::error::{caused_by, raised, render, Cause, Error, ErrorView};
use crate::location::{Location, LocationView};
use vstd::prelude::*;

verus! {

/// A result with its error replaced by the error's value.
pub open spec fn outcome<T>(r: Result<T, Error>) -> Result<T, ErrorView> {
    match r {
        Ok(v) => Ok(v),
        Err(e) => Err(e@),
    }
}

/// What `raise` hands back: a failure with a fresh error carrying `message`.
pub open spec fn raise_result<T>(message: Seq<char>, location: LocationView) -> Result<
    T,
    ErrorView,
> {
    Err(raised(Some(message), location))
}

/// What `ensure` hands back: success when `condition` holds, else what `raise` hands back.
pub open spec fn ensure_result(condition: bool, message: Seq<char>, location: LocationView) -> Result<
    (),
    ErrorView,
> {
    if condition {
        Ok(())
    } else {
        Err(raised(Some(message), location))
    }
}

/// The error that wrapping a failure makes: message `context`, the given location,
/// and the failure's chain as its causes.
pub open spec fn wrapped(context: Seq<char>, location: LocationView, cause: Seq<Seq<char>>) -> ErrorView {
    caused_by(raised(Some(context), location), cause)
}

/// A failure with a fresh error carrying `message`, raised at `location`.
pub fn raise<T>(message: String, location: Location) -> (r: Result<T, Error>)
    ensures
        outcome(r) == raise_result::<T>(message@, location@),
{
    Err(Error::new(Some(message), location))
}

/// Success when `condition` holds; otherwise a failure with a fresh error carrying
/// `message`, raised at `location`.
pub fn ensure(condition: bool, message: String, location: Location) -> (r: Result<(), Error>)
    ensures
        outcome(r) == ensure_result(condition, message@, location@),
{
    if !condition {
        return raise(message, location);
    }
    Ok(())
}

/// Turns a failure into an [`Error`] with a context message and a location, keeping the
/// failure as its cause; a success passes through unchanged.
pub trait Wrap<T, E>: Sized {
    /// The success value, or the chain of the failure as text.
    spec fn as_chain(&self) -> Result<T, Seq<Seq<char>>>;

    fn wrap(self, context: String, location: Location) -> (r: Result<T, Error>)
        ensures
            match self.as_chain() {
                Ok(v) => r == Ok::<T, Error>(v),
                Err(cause) => outcome(r) == Err::<T, ErrorView>(
                    wrapped(context@, location@, cause),
                ),
            },
    ;
}

impl<T> Wrap<T, Cause> for Result<T, Cause> {
    open spec fn as_chain(&self) -> Result<T, Seq<Seq<char>>> {
        match *self {
            Ok(v) => Ok(v),
            Err(c) => Err(c@),
        }
    }

    fn wrap(self, context: String, location: Location) -> (r: Result<T, Error>) {
        match self {
            Ok(v) => Ok(v),
            Err(c) => Err(Error::new(Some(context), location).chain(c)),
        }
    }
}

impl<T> Wrap<T, Error> for Result<T, Error> {
    open spec fn as_chain(&self) -> Result<T, Seq<Seq<char>>> {
        match *self {
            Ok(v) => Ok(v),
            Err(e) => Err(seq![render(e@)] + e@.causes),
        }
    }

    fn wrap(self, context: String, location: Location) -> (r: Result<T, Error>) {
        match self {
            Ok(v) => Ok(v),
            Err(e) => Err(Error::new(Some(context), location).chain(e.into_cause())),
        }
    }
}

} // verus!
