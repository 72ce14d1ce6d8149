//! The values of other crates that the library carries and never looks into.

use vstd::prelude::*;

verus! {

/// `uuid::Uuid`, which identifies a swap. The library hands it on as it
/// received it; nothing is claimed of what it holds.
#[verifier::external_type_specification]
#[verifier::external_body]
pub struct ExUuid(uuid::Uuid);

/// `libp2p::PeerId`, the identity of a participant of the swarm. The library
/// hands it on as it received it; nothing is claimed of what it holds.
#[verifier::external_type_specification]
#[verifier::external_body]
pub struct ExPeerId(libp2p::PeerId);

/// `libp2p::Multiaddr`, an address at which a peer may be dialled. The library
/// hands it on as it received it; nothing is claimed of what it holds.
#[verifier::external_type_specification]
#[verifier::external_body]
pub struct ExMultiaddr(libp2p::Multiaddr);

} // verus!
