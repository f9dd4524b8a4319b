//! The two ways in which a proxied call ends without a response.

use vstd::prelude::*;

verus! {

/// Why a call failed. `E` is the resource handle's own error, `T` the
/// client's; both are handed on as they came.
#[derive(Clone, Debug, PartialEq, Eq)]
pub enum ProxyError<E, T> {
    /// The target's name or port could not be made into a proxy path. Nothing
    /// was sent.
    BuildRequest(E),
    /// The client could not complete the exchange.
    Transport(T),
}

} // verus!
