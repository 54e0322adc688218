//! The kinds of failure behind a server-fault response.

use vstd::prelude::*;

verus! {

/// Why a request could not be served. A fault never reaches the response
/// body; it is kept beside it for the diagnostic log.
#[derive(Clone, Copy, Debug, PartialEq, Eq, Structural)]
pub enum Fault {
    /// No pooled connection could be acquired.
    ConnectionAcquisition,
    /// The store refused or failed a query or statement.
    Storage,
    /// The metadata service could not be reached.
    ExternalTransport,
    /// The metadata service answered with a payload that does not decode,
    /// or reported success without a result list.
    ExternalDecode,
    /// The metadata service answered with a status that is neither
    /// success nor failure.
    ExternalProtocol,
    /// A stored row holds a movie type outside the closed set: the store
    /// itself is corrupt.
    CorruptRecord,
}

} // verus!
