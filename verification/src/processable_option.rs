//! An optional value that is turned into a definite one, either by mapping the
//! present value or by falling back to a default.

use vstd::prelude::*;

verus! {

/// A value that is either still raw (and possibly absent) or processed.
#[derive(Debug, Clone, Copy, PartialEq, Eq)]
pub enum ProcessableOption<T> {
    Raw(Option<T>),
    Processed(T),
}

impl<T> Default for ProcessableOption<T> {
    fn default() -> (r: Self)
        ensures
            r == ProcessableOption::<T>::Raw(None),
    {
        ProcessableOption::Raw(None)
    }
}

impl<T> ProcessableOption<T> {
    /// Processes the value, keeping a present value and taking `default()`
    /// where it is absent.
    pub fn or_else<F>(self, default: F) -> (r: Self) where F: FnOnce() -> T
        requires
            self == ProcessableOption::<T>::Raw(None) ==> call_requires(default, ()),
        ensures
            match self {
                ProcessableOption::Raw(None) => r matches ProcessableOption::Processed(t)
                    && call_ensures(default, (), t),
                ProcessableOption::Raw(Some(t)) => r == ProcessableOption::<T>::Processed(t),
                ProcessableOption::Processed(t) => r == ProcessableOption::<T>::Processed(t),
            },
    {
        match self {
            ProcessableOption::Raw(Some(t)) => ProcessableOption::Processed(t),
            ProcessableOption::Raw(None) => ProcessableOption::Processed(default()),
            ProcessableOption::Processed(t) => ProcessableOption::Processed(t),
        }
    }

    /// Processes the value: a present value goes through `f`, an absent one is
    /// replaced by `default()`.
    pub fn map_or_else<Fd, F, U>(self, default: Fd, f: F) -> (r: ProcessableOption<U>) where
        Fd: FnOnce() -> U,
        F: FnOnce(T) -> U,
        requires
            match self {
                ProcessableOption::Raw(None) => call_requires(default, ()),
                ProcessableOption::Raw(Some(t)) => call_requires(f, (t,)),
                ProcessableOption::Processed(t) => call_requires(f, (t,)),
            },
        ensures
            match self {
                ProcessableOption::Raw(None) => r matches ProcessableOption::Processed(u)
                    && call_ensures(default, (), u),
                ProcessableOption::Raw(Some(t)) => r matches ProcessableOption::Processed(u)
                    && call_ensures(f, (t,), u),
                ProcessableOption::Processed(t) => r matches ProcessableOption::Processed(u)
                    && call_ensures(f, (t,), u),
            },
    {
        match self {
            ProcessableOption::Raw(Some(t)) => ProcessableOption::Processed(f(t)),
            ProcessableOption::Raw(None) => ProcessableOption::Processed(default()),
            ProcessableOption::Processed(t) => ProcessableOption::Processed(f(t)),
        }
    }
}

impl<T, E> ProcessableOption<Result<T, E>> {
    /// Moves a failure out of the value: the first error found is returned,
    /// otherwise the value with its successes unwrapped.
    pub fn transpose(self) -> (r: Result<ProcessableOption<T>, E>)
        ensures
            match self {
                ProcessableOption::Raw(None) => r == Ok::<ProcessableOption<T>, E>(
                    ProcessableOption::Raw(None),
                ),
                ProcessableOption::Raw(Some(Ok(t))) => r == Ok::<ProcessableOption<T>, E>(
                    ProcessableOption::Raw(Some(t)),
                ),
                ProcessableOption::Raw(Some(Err(e))) => r == Err::<ProcessableOption<T>, E>(e),
                ProcessableOption::Processed(Ok(t)) => r == Ok::<ProcessableOption<T>, E>(
                    ProcessableOption::Processed(t),
                ),
                ProcessableOption::Processed(Err(e)) => r == Err::<ProcessableOption<T>, E>(e),
            },
    {
        match self {
            ProcessableOption::Raw(None) => Ok(ProcessableOption::Raw(None)),
            ProcessableOption::Raw(Some(Ok(t))) => Ok(ProcessableOption::Raw(Some(t))),
            ProcessableOption::Raw(Some(Err(e))) => Err(e),
            ProcessableOption::Processed(Ok(t)) => Ok(ProcessableOption::Processed(t)),
            ProcessableOption::Processed(Err(e)) => Err(e),
        }
    }
}

impl<T> ProcessableOption<Option<T>> {
    /// Moves an absence out of the value: `None` where the inner value is
    /// absent, otherwise the value with its inner option unwrapped.
    pub fn transpose(self) -> (r: Option<ProcessableOption<T>>)
        ensures
            match self {
                ProcessableOption::Raw(None) => r == None::<ProcessableOption<T>>,
                ProcessableOption::Raw(Some(inner)) => r == Some(
                    ProcessableOption::<T>::Raw(inner),
                ),
                ProcessableOption::Processed(None) => r == None::<ProcessableOption<T>>,
                ProcessableOption::Processed(Some(t)) => r == Some(
                    ProcessableOption::<T>::Processed(t),
                ),
            },
    {
        match self {
            ProcessableOption::Raw(None) => None,
            ProcessableOption::Raw(Some(inner)) => Some(ProcessableOption::Raw(inner)),
            ProcessableOption::Processed(None) => None,
            ProcessableOption::Processed(Some(t)) => Some(ProcessableOption::Processed(t)),
        }
    }
}

} // verus!
