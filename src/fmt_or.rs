//! The extension trait through which an optional value gets its wrappers.
use vstd::prelude::*;

use crate::wrappers::{MaybeFormat, MaybeFormatOr, MaybeFormatOrElse};

verus! {

/// An extension trait for `Option<T>`, and the intended way to use this crate.
///
/// Its methods borrow the optional value and return a wrapper that formats the
/// held value under whichever mode is requested. An absent value is replaced by
/// another, chosen by the caller, which is always formatted in human-readable
/// form, whatever mode was requested.
pub trait FmtOr<T> {
    /// The optional value that the wrappers borrow.
    spec fn held(&self) -> Option<T>;

    /// Formats the value, if there is one, or the empty string instead.
    fn fmt_or_empty<'t>(&'t self) -> (r: MaybeFormat<'t, T>)
        ensures
            r.source() == self.held(),
    ;

    /// Formats the value, if there is one, or the given fallback instead.
    fn fmt_or<'t, U>(&'t self, u: U) -> (r: MaybeFormatOr<'t, T, U>)
        ensures
            r.source() == self.held(),
            r.fallback() == u,
    ;

    /// Formats the value, if there is one, or calls `f` for a fallback instead.
    fn fmt_or_else<'t, U, F>(&'t self, f: F) -> (r: MaybeFormatOrElse<'t, T, F>) where
        F: Fn() -> U,
        ensures
            r.source() == self.held(),
            r.producer() == f,
    ;
}

impl<T> FmtOr<T> for Option<T> {
    open spec fn held(&self) -> Option<T> {
        *self
    }

    fn fmt_or_empty<'t>(&'t self) -> (r: MaybeFormat<'t, T>) {
        MaybeFormat::new(self)
    }

    fn fmt_or<'t, U>(&'t self, u: U) -> (r: MaybeFormatOr<'t, T, U>) {
        MaybeFormatOr::new(self, u)
    }

    fn fmt_or_else<'t, U, F>(&'t self, f: F) -> (r: MaybeFormatOrElse<'t, T, F>) where
        F: Fn() -> U,
     {
        MaybeFormatOrElse::new(self, f)
    }
}

} // verus!
