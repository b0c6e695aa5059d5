//! The three wrappers over a borrowed optional value, and how each one picks
//! what is formatted.
use vstd::prelude::*;

use crate::mode::{shows_value, FmtMode, Shown};

verus! {

/// The type returned from `FmtOr::fmt_or_empty`: formats the held value, or nothing.
#[derive(PartialEq, Eq)]
pub struct MaybeFormat<'t, T>(&'t Option<T>);

/// The type returned from `FmtOr::fmt_or`: formats the held value, or a stored fallback.
pub struct MaybeFormatOr<'t, T, U>(&'t Option<T>, U);

/// The type returned from `FmtOr::fmt_or_else`: formats the held value, or what a
/// producer returns.
pub struct MaybeFormatOrElse<'t, T, F>(&'t Option<T>, F);

impl<'t, T> Copy for MaybeFormat<'t, T> {

}

impl<'t, T> Clone for MaybeFormat<'t, T> {
    fn clone(&self) -> (r: Self)
        ensures
            r.source() == self.source(),
    {
        MaybeFormat(self.0)
    }
}

impl<'t, T, U: Copy> Copy for MaybeFormatOr<'t, T, U> {

}

impl<'t, T, U: Clone> Clone for MaybeFormatOr<'t, T, U> {
    fn clone(&self) -> (r: Self)
        ensures
            r.source() == self.source(),
            cloned(self.fallback(), r.fallback()),
    {
        MaybeFormatOr(self.0, self.1.clone())
    }
}

impl<'t, T, F: Copy> Copy for MaybeFormatOrElse<'t, T, F> {

}

impl<'t, T, F: Clone> Clone for MaybeFormatOrElse<'t, T, F> {
    fn clone(&self) -> (r: Self)
        ensures
            r.source() == self.source(),
            cloned(self.producer(), r.producer()),
    {
        MaybeFormatOrElse(self.0, self.1.clone())
    }
}

impl<'t, T> MaybeFormat<'t, T> {
    /// Wraps a borrowed optional value.
    pub fn new(o: &'t Option<T>) -> (r: Self)
        ensures
            r.source() == *o,
    {
        MaybeFormat(o)
    }

    /// The optional value that the wrapper borrows.
    pub closed spec fn source(&self) -> Option<T> {
        *self.0
    }

    /// `r` is what this wrapper hands over when formatted under `mode`.
    pub open spec fn shows(&self, mode: FmtMode, r: Shown<&'t T, &'static str>) -> bool {
        match self.source() {
            Some(v) => shows_value(r, v, mode),
            None => r matches Shown::Fallback(s, m) && s@.len() == 0 && m == FmtMode::Display,
        }
    }

    /// Picks what is formatted under `mode`: the held value under `mode`, or
    /// else the empty string in human-readable form.
    pub fn shown(&self, mode: FmtMode) -> (r: Shown<&'t T, &'static str>)
        ensures
            self.shows(mode, r),
    {
        match self.0 {
            Some(v) => Shown::Value(v, mode),
            None => {
                proof {
                    reveal_strlit("");
                }
                Shown::Fallback("", FmtMode::Display)
            },
        }
    }
}

impl<'t, T, U> MaybeFormatOr<'t, T, U> {
    /// Wraps a borrowed optional value together with its fallback.
    pub fn new(o: &'t Option<T>, u: U) -> (r: Self)
        ensures
            r.source() == *o,
            r.fallback() == u,
    {
        MaybeFormatOr(o, u)
    }

    /// The optional value that the wrapper borrows.
    pub closed spec fn source(&self) -> Option<T> {
        *self.0
    }

    /// The fallback formatted in place of an absent value.
    pub closed spec fn fallback(&self) -> U {
        self.1
    }

    /// `r` is what this wrapper hands over when formatted under `mode`.
    pub open spec fn shows(&self, mode: FmtMode, r: Shown<&'t T, &U>) -> bool {
        match self.source() {
            Some(v) => shows_value(r, v, mode),
            None => r matches Shown::Fallback(x, m) && *x == self.fallback() && m
                == FmtMode::Display,
        }
    }

    /// Picks what is formatted under `mode`: the held value under `mode`, or
    /// else the fallback in human-readable form, whatever `mode` is.
    pub fn shown<'s>(&'s self, mode: FmtMode) -> (r: Shown<&'t T, &'s U>)
        ensures
            self.shows(mode, r),
    {
        match self.0 {
            Some(v) => Shown::Value(v, mode),
            None => Shown::Fallback(&self.1, FmtMode::Display),
        }
    }
}

impl<'t, T, F> MaybeFormatOrElse<'t, T, F> {
    /// Wraps a borrowed optional value together with a producer of its fallback.
    pub fn new(o: &'t Option<T>, f: F) -> (r: Self)
        ensures
            r.source() == *o,
            r.producer() == f,
    {
        MaybeFormatOrElse(o, f)
    }

    /// The optional value that the wrapper borrows.
    pub closed spec fn source(&self) -> Option<T> {
        *self.0
    }

    /// The producer called for a fallback when the value is absent.
    pub closed spec fn producer(&self) -> F {
        self.1
    }

    /// `r` is what this wrapper hands over when formatted under `mode`: on an
    /// absent value, one result of the producer.
    pub open spec fn shows<U>(&self, mode: FmtMode, r: Shown<&'t T, U>) -> bool where
        F: Fn() -> U,
     {
        match self.source() {
            Some(v) => shows_value(r, v, mode),
            None => r matches Shown::Fallback(u, m) && self.producer().ensures((), u) && m
                == FmtMode::Display,
        }
    }

    /// Picks what is formatted under `mode`: the held value under `mode`, with
    /// the producer left uncalled, or else the result of one call of the
    /// producer, in human-readable form.
    pub fn shown<U>(&self, mode: FmtMode) -> (r: Shown<&'t T, U>) where F: Fn() -> U
        requires
            self.source() is None ==> self.producer().requires(()),
        ensures
            self.shows(mode, r),
    {
        match self.0 {
            Some(v) => Shown::Value(v, mode),
            None => Shown::Fallback((self.1)(), FmtMode::Display),
        }
    }
}

} // verus!
