//! Entity handles of the game world, carried through the rules opaque.

use vstd::prelude::*;

verus! {

/// `bevy::ecs::entity::Entity`, an opaque handle on a game object.
#[verifier::external_type_specification]
#[verifier::external_body]
pub struct ExEntity(bevy::ecs::entity::Entity);

} // verus!
