//! What the background narrative worker hands back, and the room
//! contents it is sent.

use vstd::prelude::*;

use bevy::ecs::entity::Entity;

use super::bridge::{ActionInterpretation, DeathNarration, LoreDiscovery};
use super::prompts::RoomContent;
use crate::game::components::{Description, Dialogue, ItemKind, MonsterKind};

verus! {

/// Room contents as sent to the worker.
#[derive(Debug, Clone, Copy, PartialEq, Eq, Structural)]
pub enum RoomContentData {
    Monster(MonsterKind),
    Item(ItemKind),
}

/// The prompt content of a room content.
pub open spec fn as_content(d: RoomContentData) -> RoomContent {
    match d {
        RoomContentData::Monster(k) => RoomContent::Monster(k),
        RoomContentData::Item(k) => RoomContent::Item(k),
    }
}

impl From<&RoomContentData> for RoomContent {
    fn from(data: &RoomContentData) -> (c: Self) {
        match data {
            RoomContentData::Monster(kind) => RoomContent::Monster(*kind),
            RoomContentData::Item(kind) => RoomContent::Item(*kind),
        }
    }
}

impl vstd::std_specs::convert::FromSpecImpl<&RoomContentData> for RoomContent {
    open spec fn obeys_from_spec() -> bool {
        true
    }

    open spec fn from_spec(data: &RoomContentData) -> RoomContent {
        match *data {
            RoomContentData::Monster(kind) => RoomContent::Monster(kind),
            RoomContentData::Item(kind) => RoomContent::Item(kind),
        }
    }
}

/// Responses from the narrative worker.
#[derive(Debug, Clone)]
pub enum NarrativeResponseKind {
    RoomDescription(Description),
    MonsterDialogue(Dialogue),
    ActionResult(ActionInterpretation),
    DeathNarration(DeathNarration),
    LoreDiscovery(LoreDiscovery),
    Error(String),
}

/// Message carrying a narrative response.
#[derive(Debug, Clone)]
pub struct NarrativeResponse {
    pub request_id: u64,
    pub kind: NarrativeResponseKind,
    pub target_entity: Option<Entity>,
}

} // verus!
