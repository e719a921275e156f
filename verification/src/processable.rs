//! A value that starts out raw and is turned, exactly once, into its processed
//! form.

use vstd::prelude::*;

verus! {

/// Whether a [`Processable`] still holds its raw value or already its
/// processed one.
#[derive(Debug, Clone, Copy, PartialEq, Eq, Structural)]
pub enum ProcessState {
    Raw,
    Processed,
}

impl ProcessState {
    pub fn is_processed(&self) -> (r: bool)
        ensures
            r == (*self is Processed),
    {
        match self {
            ProcessState::Processed => true,
            ProcessState::Raw => false,
        }
    }
}

/// One of two values: the raw one (`Left`) or the processed one (`Right`).
#[derive(Debug, Clone, Copy, PartialEq, Eq)]
pub enum Stage<R, P> {
    Left(R),
    Right(P),
}

/// A raw value of type `R` that can be processed into a value of type `P`.
#[derive(Debug, Clone, Copy, PartialEq, Eq)]
pub struct Processable<R, P>(Stage<R, P>);

/// A value that may be absent in its raw form and is always present once
/// processed.
pub type ProcessableOption<R> = Processable<Option<R>, R>;

impl<R, P> Processable<R, P> {
    /// The stage this value is in, with its content.
    pub closed spec fn stage(self) -> Stage<R, P> {
        self.0
    }

    pub fn process_state(&self) -> (s: ProcessState)
        ensures
            (s is Raw) <==> (self.stage() is Left),
            (s is Processed) <==> (self.stage() is Right),
    {
        match &self.0 {
            Stage::Left(_) => ProcessState::Raw,
            Stage::Right(_) => ProcessState::Processed,
        }
    }

    pub fn is_processed(&self) -> (b: bool)
        ensures
            b == (self.stage() is Right),
    {
        self.process_state().is_processed()
    }

    pub fn new(r: R) -> (s: Self)
        ensures
            s.stage() == Stage::<R, P>::Left(r),
    {
        Processable(Stage::Left(r))
    }

    /// Processes a raw value with `f`; a processed value stays as it is.
    pub fn process<F>(self, f: F) -> (s: Self) where F: FnOnce(R) -> P
        requires
            self.stage() matches Stage::Left(r) ==> call_requires(f, (r,)),
        ensures
            match self.stage() {
                Stage::Left(r) => s.stage() matches Stage::Right(p) && call_ensures(f, (r,), p),
                Stage::Right(p) => s.stage() == Stage::<R, P>::Right(p),
            },
    {
        match self.0 {
            Stage::Left(r) => Processable(Stage::Right(f(r))),
            Stage::Right(p) => Processable(Stage::Right(p)),
        }
    }

    /// Processes a raw value with the fallible `f`; a processed value stays
    /// as it is. The error of `f` is handed back unchanged.
    pub fn try_process<F, E>(self, f: F) -> (res: Result<Self, E>) where
        F: FnOnce(R) -> Result<P, E>,
        requires
            self.stage() matches Stage::Left(r) ==> call_requires(f, (r,)),
        ensures
            match self.stage() {
                Stage::Left(r) => match res {
                    Ok(s) => s.stage() matches Stage::Right(p) && call_ensures(
                        f,
                        (r,),
                        Ok::<P, E>(p),
                    ),
                    Err(e) => call_ensures(f, (r,), Err::<P, E>(e)),
                },
                Stage::Right(p) => res matches Ok(s) && s.stage() == Stage::<R, P>::Right(p),
            },
    {
        match self.0 {
            Stage::Left(r) => match f(r) {
                Ok(p) => Ok(Processable(Stage::Right(p))),
                Err(e) => Err(e),
            },
            Stage::Right(p) => Ok(Processable(Stage::Right(p))),
        }
    }

    /// The processed value; only a processed value may be taken out.
    pub fn into_processed(self) -> (p: P)
        requires
            self.stage() is Right,
        ensures
            self.stage() == Stage::<R, P>::Right(p),
    {
        match self.0 {
            Stage::Right(p) => p,
            Stage::Left(_) => vstd::pervasive::unreached(),
        }
    }
}

impl<R: Default, P> Default for Processable<R, P> {
    fn default() -> (s: Self)
        ensures
            s.stage() is Left,
    {
        Processable(Stage::Left(R::default()))
    }
}

impl<R> Processable<Option<R>, R> {
    /// Processes the value, taking `default()` where the raw value is absent.
    pub fn or_else<F>(self, default: F) -> (s: Self) where F: FnOnce() -> R
        requires
            self.stage() == Stage::<Option<R>, R>::Left(None) ==> call_requires(default, ()),
        ensures
            match self.stage() {
                Stage::Left(None) => s.stage() matches Stage::Right(p) && call_ensures(
                    default,
                    (),
                    p,
                ),
                Stage::Left(Some(p)) => s.stage() == Stage::<Option<R>, R>::Right(p),
                Stage::Right(p) => s.stage() == Stage::<Option<R>, R>::Right(p),
            },
    {
        Processable(
            Stage::Right(
                match self.0 {
                    Stage::Left(None) => default(),
                    Stage::Left(Some(p)) => p,
                    Stage::Right(p) => p,
                },
            ),
        )
    }

    /// Like [`Processable::or_else`], with a fallible `default`.
    pub fn try_or_else<F, E>(self, default: F) -> (res: Result<Self, E>) where
        F: FnOnce() -> Result<R, E>,
        requires
            self.stage() == Stage::<Option<R>, R>::Left(None) ==> call_requires(default, ()),
        ensures
            match self.stage() {
                Stage::Left(None) => match res {
                    Ok(s) => s.stage() matches Stage::Right(p) && call_ensures(
                        default,
                        (),
                        Ok::<R, E>(p),
                    ),
                    Err(e) => call_ensures(default, (), Err::<R, E>(e)),
                },
                Stage::Left(Some(p)) => res matches Ok(s) && s.stage() == Stage::<
                    Option<R>,
                    R,
                >::Right(p),
                Stage::Right(p) => res matches Ok(s) && s.stage() == Stage::<
                    Option<R>,
                    R,
                >::Right(p),
            },
    {
        let p = match self.0 {
            Stage::Left(None) => match default() {
                Ok(p) => p,
                Err(e) => {
                    return Err(e);
                },
            },
            Stage::Left(Some(p)) => p,
            Stage::Right(p) => p,
        };
        Ok(Processable(Stage::Right(p)))
    }
}

} // verus!
