//! What holds of every wrapper, whatever mode it is formatted under.
use vstd::prelude::*;

use crate::mode::{shows_value, FmtMode, Shown};
use crate::wrappers::{MaybeFormat, MaybeFormatOr, MaybeFormatOrElse};

verus! {

/// A wrapper over a present value hands over that very value, under the very
/// mode requested, whichever wrapper it is: it is then formatted exactly as the
/// value itself would be, with every directive of the formatting call.
pub proof fn law_present_value_transparent<'t, 's, T, U>(
    v: T,
    mode: FmtMode,
    w: MaybeFormat<'t, T>,
    r: Shown<&'t T, &'static str>,
    wo: MaybeFormatOr<'t, T, U>,
    ro: Shown<&'t T, &'s U>,
)
    requires
        w.source() == Some(v),
        w.shows(mode, r),
        wo.source() == Some(v),
        wo.shows(mode, ro),
    ensures
        shows_value(r, v, mode),
        shows_value(ro, v, mode),
{
}

/// A wrapper over an absent value with no fallback hands over the empty string,
/// in human-readable form, under every mode, so that nothing is printed.
pub proof fn law_absent_is_empty<'t, T>(
    w: MaybeFormat<'t, T>,
    m1: FmtMode,
    r1: Shown<&'t T, &'static str>,
    m2: FmtMode,
    r2: Shown<&'t T, &'static str>,
)
    requires
        w.source() is None,
        w.shows(m1, r1),
        w.shows(m2, r2),
    ensures
        r1 matches Shown::Fallback(s, m) && s@ == Seq::<char>::empty() && m == FmtMode::Display,
        r2 matches Shown::Fallback(s, m) && s@ == Seq::<char>::empty() && m == FmtMode::Display,
{
    assert(r1 matches Shown::Fallback(s, _) && s@ =~= Seq::<char>::empty());
    assert(r2 matches Shown::Fallback(s, _) && s@ =~= Seq::<char>::empty());
}

/// A wrapper over an absent value with a stored fallback hands over that
/// fallback, in human-readable form, under every mode: the same text as the
/// fallback formatted directly, whatever mode was requested.
pub proof fn law_absent_shows_fallback<'t, 's, T, U>(
    fb: U,
    w: MaybeFormatOr<'t, T, U>,
    m1: FmtMode,
    r1: Shown<&'t T, &'s U>,
    m2: FmtMode,
    r2: Shown<&'t T, &'s U>,
)
    requires
        w.source() is None,
        w.fallback() == fb,
        w.shows(m1, r1),
        w.shows(m2, r2),
    ensures
        r1 matches Shown::Fallback(x, m) && *x == fb && m == FmtMode::Display,
        r1 == r2,
{
}

/// A wrapper with a producer hands over, on an absent value, a result of the
/// producer in human-readable form; on a present value it hands over the value
/// under the requested mode, and the producer is not called.
pub proof fn law_producer_called_only_when_absent<'t, T, U, F: Fn() -> U>(
    o: Option<T>,
    f: F,
    w: MaybeFormatOrElse<'t, T, F>,
    mode: FmtMode,
    r: Shown<&'t T, U>,
)
    requires
        w.source() == o,
        w.producer() == f,
        w.shows(mode, r),
    ensures
        o is None ==> (r matches Shown::Fallback(u, m) && f.ensures((), u) && m
            == FmtMode::Display),
        o matches Some(v) ==> shows_value(r, v, mode),
{
}

} // verus!
