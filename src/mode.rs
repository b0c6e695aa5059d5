//! Formatting modes, and what a wrapper hands to the formatter.
use vstd::prelude::*;

verus! {

/// The formatting modes that a wrapper answers to, one per formatting trait.
#[derive(Clone, Copy, Debug, PartialEq, Eq, Structural)]
pub enum FmtMode {
    /// plain, human-readable form (`{}`)
    Display,
    /// debug form (`{:?}`)
    Debug,
    /// binary (`{:b}`)
    Binary,
    /// octal (`{:o}`)
    Octal,
    /// lower-case hexadecimal (`{:x}`)
    LowerHex,
    /// upper-case hexadecimal (`{:X}`)
    UpperHex,
    /// lower-case scientific notation (`{:e}`)
    LowerExp,
    /// upper-case scientific notation (`{:E}`)
    UpperExp,
    /// address (`{:p}`)
    Pointer,
}

/// What a wrapper gives the formatter for one formatting call: either the held
/// value with the mode it is to be formatted under, or a fallback with its mode.
pub enum Shown<V, U> {
    /// the held value, to be formatted under the given mode
    Value(V, FmtMode),
    /// a stand-in for the absent value, to be formatted under the given mode
    Fallback(U, FmtMode),
}

/// `s` hands over the value `v`, to be formatted under `mode`.
pub open spec fn shows_value<V, U>(s: Shown<&V, U>, v: V, mode: FmtMode) -> bool {
    s matches Shown::Value(t, m) && *t == v && m == mode
}

impl<V, U> Shown<V, U> {
    /// The mode under which the handed-over item is to be formatted.
    pub open spec fn spec_mode(&self) -> FmtMode {
        match self {
            Shown::Value(_, m) => *m,
            Shown::Fallback(_, m) => *m,
        }
    }

    /// The mode under which the handed-over item is to be formatted.
    pub fn mode(&self) -> (r: FmtMode)
        ensures
            r == self.spec_mode(),
    {
        match self {
            Shown::Value(_, m) => *m,
            Shown::Fallback(_, m) => *m,
        }
    }

    /// Whether the held value, rather than a fallback, is handed over.
    pub fn is_value(&self) -> (r: bool)
        ensures
            r == (self is Value),
    {
        match self {
            Shown::Value(_, _) => true,
            Shown::Fallback(_, _) => false,
        }
    }
}

} // verus!
