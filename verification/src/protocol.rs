//! What client and server tell each other about who is who.

use vstd::prelude::*;

verus! {

/// The number that the server gives a client for the length of a session.
#[derive(Clone, Copy, Debug, PartialEq, Eq, Structural, Hash)]
pub struct ClientId(pub u32);

} // verus!
