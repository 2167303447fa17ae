//! Between the game master and the game: its configuration, the shapes of
//! its replies, how replies become components, and the context it is
//! given about the player's surroundings.

use vstd::prelude::*;

use crate::game::components::{Description, Dialogue, Position};
use crate::game::map::{holding, GameMap, Room};
use crate::seqs::first_where;
use crate::text::{decimal, owned, push_int};

verus! {

/// Configuration for the game master's backend.
#[derive(Debug, Clone)]
pub struct AiBridgeConfig {
    pub model: String,
    pub ollama_url: String,
    pub enabled: bool,
}

impl Default for AiBridgeConfig {
    /// The llama3.2 model on a local Ollama, enabled.
    fn default() -> (c: Self)
        ensures
            c.model@ == "llama3.2"@,
            c.ollama_url@ == "http://localhost:11434"@,
            c.enabled,
    {
        Self { model: owned("llama3.2"), ollama_url: owned("http://localhost:11434"), enabled: true }
    }
}

/// Reply describing a room.
#[derive(Debug, Clone)]
pub struct RoomDescriptionResponse {
    pub text: String,
    pub atmosphere: String,
    pub lore: Option<String>,
}

impl From<RoomDescriptionResponse> for Description {
    fn from(response: RoomDescriptionResponse) -> (d: Self) {
        Description { text: response.text, atmosphere: response.atmosphere, lore: response.lore }
    }
}

impl vstd::std_specs::convert::FromSpecImpl<RoomDescriptionResponse> for Description {
    open spec fn obeys_from_spec() -> bool {
        true
    }

    open spec fn from_spec(response: RoomDescriptionResponse) -> Description {
        Description { text: response.text, atmosphere: response.atmosphere, lore: response.lore }
    }
}

/// Reply giving a monster's dialogue.
#[derive(Debug, Clone)]
pub struct MonsterDialogueResponse {
    pub current_line: String,
    pub options: Vec<String>,
    pub mood: String,
}

impl From<MonsterDialogueResponse> for Dialogue {
    fn from(response: MonsterDialogueResponse) -> (d: Self) {
        Dialogue {
            current_line: response.current_line,
            options: response.options,
            mood: response.mood,
        }
    }
}

impl vstd::std_specs::convert::FromSpecImpl<MonsterDialogueResponse> for Dialogue {
    open spec fn obeys_from_spec() -> bool {
        true
    }

    open spec fn from_spec(response: MonsterDialogueResponse) -> Dialogue {
        Dialogue {
            current_line: response.current_line,
            options: response.options,
            mood: response.mood,
        }
    }
}

/// Reply interpreting an improvised action.
#[derive(Debug, Clone)]
pub struct ActionInterpretation {
    pub success: bool,
    pub description: String,
    pub consequence: Option<String>,
    pub damage_to_player: i32,
    pub items_found: Vec<String>,
}

/// Reply narrating the player's death.
#[derive(Debug, Clone)]
pub struct DeathNarration {
    pub epitaph: String,
    pub final_words: String,
    pub legacy: String,
}

/// Reply giving lore about an object.
#[derive(Debug, Clone)]
pub struct LoreDiscovery {
    pub inscription: Option<String>,
    pub history: String,
    pub warning: Option<String>,
}

/// How a nearby entity is listed.
pub open spec fn entity_text(e: (String, Position)) -> Seq<char> {
    e.0@ + " at ("@ + decimal(e.1.x as int) + ", "@ + decimal(e.1.y as int) + ")"@
}

/// Nearby entities listed in order, separated by "; ".
pub open spec fn nearby_text(es: Seq<(String, Position)>) -> Seq<char>
    decreases es.len(),
{
    if es.len() == 0 {
        Seq::empty()
    } else if es.len() == 1 {
        entity_text(es[0])
    } else {
        nearby_text(es.drop_last()) + "; "@ + entity_text(es.last())
    }
}

/// Where the player is: the room and its size, or a corridor.
pub open spec fn location_text(room: Option<Room>) -> Seq<char> {
    match room {
        Some(r) => "Room "@ + decimal(r.room_id as int) + " ("@ + decimal(r.width as int) + "x"@
            + decimal(r.height as int) + ")"@,
        None => "Corridor"@,
    }
}

/// The context text given to the game master.
pub open spec fn context_text(
    player: Position,
    room: Option<Room>,
    floor: i32,
    nearby: Seq<(String, Position)>,
) -> Seq<char> {
    "Player at ("@ + decimal(player.x as int) + ", "@ + decimal(player.y as int)
        + "). Location: "@ + location_text(room) + ". Floor: "@ + decimal(floor as int)
        + ". Nearby: "@ + nearby_text(nearby)
}

/// Build the context text for prompts from the player's position, the
/// room holding it (the first, if several do), the floor and the nearby
/// entities.
pub fn build_game_context(
    player_pos: &Position,
    map: &GameMap,
    nearby_entities: &[(String, Position)],
) -> (s: String)
    requires
        forall|i: int| 0 <= i < map.rooms@.len() ==> (#[trigger] map.rooms@[i]).fits(),
    ensures
        s@ == context_text(
            *player_pos,
            first_where(map.rooms@, holding(player_pos.x as int, player_pos.y as int)),
            map.current_floor,
            nearby_entities@,
        ),
{
    let room_info = match map.room_at(player_pos.x, player_pos.y) {
        Some(r) => {
            let mut s = owned("Room ");
            push_int(&mut s, r.room_id as i128);
            s.append(" (");
            push_int(&mut s, r.width as i128);
            s.append("x");
            push_int(&mut s, r.height as i128);
            s.append(")");
            s
        },
        None => owned("Corridor"),
    };
    let mut nearby = String::new();
    let mut i: usize = 0;
    while i < nearby_entities.len()
        invariant
            i <= nearby_entities@.len(),
            nearby@ == nearby_text(nearby_entities@.take(i as int)),
        decreases nearby_entities@.len() - i,
    {
        if i > 0 {
            nearby.append("; ");
        }
        let (name, pos) = &nearby_entities[i];
        nearby.append(name.as_str());
        nearby.append(" at (");
        push_int(&mut nearby, pos.x as i128);
        nearby.append(", ");
        push_int(&mut nearby, pos.y as i128);
        nearby.append(")");
        proof {
            assert(nearby_entities@.take(i + 1).drop_last() =~= nearby_entities@.take(i as int));
            if i == 0 {
                assert(nearby_entities@.take(0) =~= Seq::<(String, Position)>::empty());
            }
        }
        i = i + 1;
    }
    proof {
        assert(nearby_entities@.take(nearby_entities@.len() as int) =~= nearby_entities@);
    }
    let mut s = owned("Player at (");
    push_int(&mut s, player_pos.x as i128);
    s.append(", ");
    push_int(&mut s, player_pos.y as i128);
    s.append("). Location: ");
    s.append(room_info.as_str());
    s.append(". Floor: ");
    push_int(&mut s, map.current_floor as i128);
    s.append(". Nearby: ");
    s.append(nearby.as_str());
    s
}

} // verus!
