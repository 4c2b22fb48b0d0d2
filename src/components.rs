//! Generic view state: the load state of a widget, error details and a
//! boolean switch.
use vstd::prelude::*;

verus! {

/// What a widget shows: still loading, the fetched value, or the failure.
#[derive(Debug)]
pub enum LoadState<T, E> {
    Loading,
    Ready(T),
    Error(E),
}

/// The terminal state that a fetch outcome gives.
pub open spec fn settled<T, E>(result: Result<T, E>) -> LoadState<T, E> {
    match result {
        Ok(t) => LoadState::Ready(t),
        Err(e) => LoadState::Error(e),
    }
}

impl<T, E> LoadState<T, E> {
    /// The terminal state for a fetch outcome.
    pub fn from_result(result: Result<T, E>) -> (r: Self)
        ensures
            r == settled(result),
    {
        match result {
            Ok(t) => LoadState::Ready(t),
            Err(e) => LoadState::Error(e),
        }
    }

    pub fn is_loading(&self) -> (r: bool)
        ensures
            r == (*self is Loading),
    {
        match self {
            LoadState::Loading => true,
            _ => false,
        }
    }
}

/// A message and, when there is one, the error behind it.
#[derive(Debug)]
pub struct ErrorDetails<E> {
    pub message: String,
    pub error: Option<E>,
}

impl<E> ErrorDetails<E> {
    pub fn new(message: String, error: Option<E>) -> (r: Self)
        ensures
            r.message == message,
            r.error == error,
    {
        ErrorDetails { message, error }
    }
}

/// A short label, with the details shown on demand.
#[derive(Debug)]
pub struct WithButtonModalError<E> {
    pub label: String,
    pub details: ErrorDetails<E>,
}

impl<E> WithButtonModalError<E> {
    pub fn new(label: String, details: ErrorDetails<E>) -> (r: Self)
        ensures
            r.label == label,
            r.details == details,
    {
        WithButtonModalError { label, details }
    }
}

/// The failed state of a widget whose fetch failed with `error`: labelled
/// "Load error", with `message` and the error as details.
pub fn load_error<T, E>(message: String, error: E) -> (r: LoadState<T, WithButtonModalError<E>>)
    ensures
        r is Error,
        r->Error_0.label@ == "Load error"@,
        r->Error_0.details.message == message,
        r->Error_0.details.error == Some(error),
{
    LoadState::Error(
        WithButtonModalError::new(String::from_str("Load error"), ErrorDetails::new(message, Some(error))),
    )
}

/// A boolean that a form switches on and off.
#[derive(Debug, Clone, Copy)]
pub struct BooleanState {
    inner: bool,
}

impl BooleanState {
    pub closed spec fn value(&self) -> bool {
        self.inner
    }

    pub fn new(initial: bool) -> (r: Self)
        ensures
            r.value() == initial,
    {
        BooleanState { inner: initial }
    }

    pub fn get(&self) -> (r: bool)
        ensures
            r == self.value(),
    {
        self.inner
    }

    pub fn set(&mut self, value: bool)
        ensures
            final(self).value() == value,
    {
        self.inner = value;
    }

    pub fn toggle(&mut self)
        ensures
            final(self).value() == !old(self).value(),
    {
        let new_val = !self.get();
        self.set(new_val);
    }
}

} // verus!
