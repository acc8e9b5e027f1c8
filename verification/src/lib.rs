//! `lat` — a parser for a small pseudo-Latin spell language.
//!
//! A spell is a whitespace-delimited command string: a mandatory
//! Action/Element/Modifier triple ("Spell Core") followed by optional
//! extension phrases (a target clause, an origin clause, emphasis words).
//! The parser is a pure function from the input text to either a structured
//! [`types::LatValue`] descriptor or a [`types::errors::LatError`] value.
//!
//! The crate root also carries the narrow host boundary: a host that embeds
//! the parser behind an isolation boundary exchanges only the [`LatValue`]
//! record defined here, which reports whether the submitted text is the
//! reset keyword.

pub mod dictionary;
pub mod laws;
pub mod parser;
pub mod tokenizer;
pub mod types;

use vstd::prelude::*;

verus! {

use vstd::string::StringExecFns;
use crate::types::errors::LatError;

/// The value exchanged with an embedding host: a single flag that tells the
/// host whether the submitted text asks it to reset its own state.
///
/// The full spell descriptor lives in [`types::LatValue`]; this record is the
/// narrow request/response shape used across the host boundary.
#[derive(Debug, PartialEq, Eq, Clone, Copy)]
pub struct LatValue {
    /// True when the submitted text is exactly the reset keyword.
    pub resetting: bool,
}

impl LatValue {
    /// Builds the host-boundary value from the reset decision.
    pub fn new(resetting: bool) -> (r: Self)
        ensures
            r.resetting == resetting,
    {
        Self { resetting }
    }
}

/// The component exposed to an embedding host.
pub struct Lat;

impl Lat {
    /// The host-facing entry point: decides whether the submitted text is the
    /// reset keyword. This never fails; the host reacts to `resetting` alone.
    pub fn parse(inputs: String) -> (r: Result<LatValue, LatError>)
        ensures
            r matches Ok(v) && v.resetting == (inputs@ == "reset"@),
    {
        let keyword: String = String::from_str("reset");
        Ok(LatValue::new(inputs == keyword))
    }
}

} // verus!
