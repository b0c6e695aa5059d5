//! Formatting adapters for optional values: a held value is formatted under the
//! requested mode, an absent one is replaced by a fallback in human-readable form.
pub mod fmt_or;
pub mod laws;
pub mod mode;
pub mod wrappers;

pub use fmt_or::FmtOr;
pub use mode::{FmtMode, Shown};
pub use wrappers::{MaybeFormat, MaybeFormatOr, MaybeFormatOrElse};
