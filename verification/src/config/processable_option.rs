//! An optional configuration value that is processed in place, exactly once.

use vstd::prelude::*;

verus! {

/// A configuration value in one of three states: absent in the file
/// (`RawNone`), present in the file (`RawSome(Some(..))`), or processed.
///
/// `RawSome(None)` is only left behind by a processing step whose callback
/// failed after the raw value had been taken out.
#[must_use]
#[derive(Debug, Clone, Copy, PartialEq, Eq)]
pub enum ProcessableOption<T> {
    RawNone,
    RawSome(Option<T>),
    Processed(T),
}

impl<T: Default> Default for ProcessableOption<T> {
    fn default() -> (r: Self)
        ensures
            r matches ProcessableOption::RawSome(Some(_)),
    {
        ProcessableOption::RawSome(Some(T::default()))
    }
}

/// The value handed to a processing callback for a raw state.
pub open spec fn raw_input<T>(o: ProcessableOption<T>) -> Option<T> {
    match o {
        ProcessableOption::RawSome(Some(t)) => Some(t),
        _ => None,
    }
}

/// The states in which processing does not panic.
pub open spec fn is_processable<T>(o: ProcessableOption<T>) -> bool {
    o is RawNone || o matches ProcessableOption::RawSome(Some(_))
}

impl<T> ProcessableOption<T> {
    fn yank(&mut self) -> (t: T)
        requires
            old(self) matches ProcessableOption::RawSome(Some(_)),
        ensures
            *old(self) == ProcessableOption::<T>::RawSome(Some(t)),
            *final(self) == ProcessableOption::<T>::RawSome(None),
    {
        match self {
            ProcessableOption::RawSome(t) => t.take().unwrap(),
            _ => vstd::pervasive::unreached(),
        }
    }

    /// The raw state for a value read from a file: `RawNone` when absent.
    pub fn new(t: Option<T>) -> (r: Self)
        ensures
            match t {
                Some(v) => r == ProcessableOption::<T>::RawSome(Some(v)),
                None => r == ProcessableOption::<T>::RawNone,
            },
    {
        match t {
            Some(t) => ProcessableOption::RawSome(Some(t)),
            None => ProcessableOption::RawNone,
        }
    }

    /// Processes the raw value with `f`, which sees the value (or its
    /// absence). On success the value is processed; on failure the error of
    /// `f` is returned, and a value that was present has been taken out.
    pub fn try_process<F, E>(&mut self, f: F) -> (r: Result<(), E>) where
        F: FnOnce(Option<T>) -> Result<T, E>,
        requires
            is_processable(*old(self)),
            call_requires(f, (raw_input(*old(self)),)),
        ensures
            match r {
                Ok(()) => *final(self) matches ProcessableOption::Processed(t) && call_ensures(
                    f,
                    (raw_input(*old(self)),),
                    Ok::<T, E>(t),
                ),
                Err(e) => call_ensures(f, (raw_input(*old(self)),), Err::<T, E>(e)) && (
                *final(self) == if *old(self) is RawNone {
                    ProcessableOption::<T>::RawNone
                } else {
                    ProcessableOption::<T>::RawSome(None)
                }),
            },
    {
        match self {
            ProcessableOption::RawNone => {
                let t = f(None)?;
                *self = ProcessableOption::Processed(t);
            },
            ProcessableOption::RawSome(..) => {
                let t = self.yank();
                let t = f(Some(t))?;
                *self = ProcessableOption::Processed(t);
            },
            ProcessableOption::Processed(..) => vstd::pervasive::unreached(),
        }
        Ok(())
    }

    /// Processes the value: a present value is kept, an absent one is
    /// replaced by what `f` returns. The error of `f` is returned unchanged,
    /// and the value then stays absent.
    pub fn or_else_try_process<F, E>(&mut self, f: F) -> (r: Result<(), E>) where
        F: FnOnce() -> Result<T, E>,
        requires
            is_processable(*old(self)),
            *old(self) is RawNone ==> call_requires(f, ()),
        ensures
            match *old(self) {
                ProcessableOption::RawSome(Some(t)) => r is Ok && *final(self)
                    == ProcessableOption::<T>::Processed(t),
                _ => match r {
                    Ok(()) => *final(self) matches ProcessableOption::Processed(t)
                        && call_ensures(f, (), Ok::<T, E>(t)),
                    Err(e) => call_ensures(f, (), Err::<T, E>(e)) && *final(self)
                        == ProcessableOption::<T>::RawNone,
                },
            },
    {
        match self {
            ProcessableOption::RawNone => {
                let t = f()?;
                *self = ProcessableOption::Processed(t);
            },
            ProcessableOption::RawSome(..) => {
                let t = self.yank();
                *self = ProcessableOption::Processed(t);
            },
            ProcessableOption::Processed(..) => vstd::pervasive::unreached(),
        }
        Ok(())
    }

    /// The processed value.
    pub fn as_processed(&self) -> (t: &T)
        requires
            self is Processed,
        ensures
            *self == ProcessableOption::<T>::Processed(*t),
    {
        match self {
            ProcessableOption::Processed(t) => t,
            _ => vstd::pervasive::unreached(),
        }
    }

    /// Mutable access to the processed value.
    pub fn as_processed_mut(&mut self) -> (t: &mut T)
        requires
            *old(self) is Processed,
        ensures
            *old(self) == ProcessableOption::<T>::Processed(*t),
            *final(self) == ProcessableOption::<T>::Processed(*final(t)),
    {
        match self {
            ProcessableOption::Processed(t) => t,
            _ => vstd::pervasive::unreached(),
        }
    }
}

} // verus!
