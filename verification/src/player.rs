//! The record of the single character that the tick loop owns.

use vstd::prelude::*;
use bevy::ecs::entity::Entity;
use crate::state::StateCode;

verus! {

/// The engine's handle of an entity. Nothing here looks inside one: it is
/// kept and handed back.
#[verifier::external_type_specification]
#[verifier::external_body]
pub struct ExEntity(Entity);

/// The character's behaviour state and the entity that shows it.
///
/// The coordinates are not part of this record: the caller keeps them and adds
/// the steps that [`crate::movement::move_player`] returns.
#[derive(Clone, Copy, Debug)]
pub struct PlayerState {
    /// The behaviour in the current tick.
    pub state: StateCode,
    /// The behaviour for which a clip was last started.
    pub previous_state: StateCode,
    /// The entity whose transform follows the character, once it is attached.
    pub entity_ref: Option<Entity>,
}

impl PlayerState {
    /// The character at start: idle, no clip change pending, no entity attached.
    pub fn new() -> (player: Self)
        ensures
            player.state == StateCode::Idle,
            player.previous_state == StateCode::Idle,
            player.entity_ref.is_none(),
    {
        PlayerState { state: StateCode::Idle, previous_state: StateCode::Idle, entity_ref: None }
    }

    /// Attaches the entity that shows the character. This happens once.
    pub fn attach_entity(&mut self, entity: Entity)
        requires
            old(self).entity_ref.is_none(),
        ensures
            final(self).entity_ref == Some(entity),
            final(self).state == old(self).state,
            final(self).previous_state == old(self).previous_state,
    {
        self.entity_ref = Some(entity);
    }
}

} // verus!
