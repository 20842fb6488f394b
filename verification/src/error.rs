//! The ways a catalogue operation can fail.

use vstd::prelude::*;

verus! {

/// Why a catalogue operation did not produce a result.
#[derive(Clone, Copy, Debug, PartialEq, Eq)]
pub enum SourceError {
    /// The server address or the API key is missing or empty.
    Config,
    /// A bearer credential could not be acquired.
    Auth,
    /// The server answered with a status other than 200.
    Transport,
    /// A response lacks an expected field, or the field has the wrong type.
    Parse,
    /// A volume or chapter number is not a decimal number the catalogue can order.
    MappingAmbiguity,
}

} // verus!
