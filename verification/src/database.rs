//! The DBC database and its one-time parse into a [`Dbc`].
//!
//! Decoding and encoding through the database work on floating-point physical
//! values and run on the platform side; this module owns the parse.

use vstd::prelude::*;

use dbc_rs::{Dbc, Error};

verus! {

/// A parsed DBC database (`dbc_rs::Dbc`), carried opaquely.
#[verifier::external_type_specification]
#[verifier::external_body]
pub struct ExDbc(Dbc);

/// The DBC engine's error (`dbc_rs::Error`), carried opaquely.
#[verifier::external_type_specification]
#[verifier::external_body]
pub struct ExDbcError(Error);

/// Whether the DBC engine accepts `source` as a database.
pub uninterp spec fn dbc_source_accepted(source: Seq<char>) -> bool;

/// Parse DBC source text into a [`Dbc`] by calling `dbc_rs::Dbc::parse`.
///
/// Allocation (in `alloc` mode) happens here, not on the decode/encode path.
/// Call once and cache. Trusted: whether the text is accepted is taken to be a
/// function of the text alone (the parser reads nothing else); what the
/// database holds is not stated.
#[verifier::external_body]
pub fn parse(source: &str) -> (r: Result<Dbc, Error>)
    ensures
        r is Ok == dbc_source_accepted(source@),
{
    Dbc::parse(source)
}

} // verus!
