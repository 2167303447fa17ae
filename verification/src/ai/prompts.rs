//! Prompt templates for the game master's narrative generation.

use vstd::prelude::*;

use crate::game::components::{item_kind_name, monster_kind_name, ItemKind, MonsterKind};
use crate::game::map::Room;
use crate::text::{decimal, owned, push_int};

verus! {

/// System prompt establishing the AI Game Master persona.
pub const SYSTEM_PROMPT: &'static str = "You are the Game Master for NeuroHack, a horror-themed roguelike dungeon crawler.\nYour role is to generate atmospheric, creepy descriptions that enhance the player's experience.\nAlways maintain a dark, foreboding tone reminiscent of Lovecraftian horror.\nBe descriptive but concise - players need information quickly.\nFocus on sensory details: sounds, smells, textures, and the feeling of dread.";

/// Content types that can be in a room.
#[derive(Debug, Clone, Copy, PartialEq, Eq, Structural)]
pub enum RoomContent {
    Monster(MonsterKind),
    Item(ItemKind),
}

/// How one room content is listed in a prompt.
pub open spec fn content_text(c: RoomContent) -> Seq<char> {
    match c {
        RoomContent::Monster(k) => "Monster: "@ + monster_kind_name(k),
        RoomContent::Item(k) => "Item: "@ + item_kind_name(k),
    }
}

/// Room contents listed in order, separated by ", ".
pub open spec fn contents_text(cs: Seq<RoomContent>) -> Seq<char>
    decreases cs.len(),
{
    if cs.len() == 0 {
        Seq::empty()
    } else if cs.len() == 1 {
        content_text(cs[0])
    } else {
        contents_text(cs.drop_last()) + ", "@ + content_text(cs.last())
    }
}

/// The room description prompt for a room and its contents.
pub open spec fn room_prompt_text(room: Room, contents: Seq<RoomContent>) -> Seq<char> {
    SYSTEM_PROMPT@ + "\n\nGenerate a horror-themed description for a dungeon room.\n\nRoom details:\n- Room ID: "@ + decimal(room.room_id as int) + "\n- Size: "@ + decimal(
        room.width as int,
    ) + "x"@ + decimal(room.height as int) + "\n- Contents: ["@ + contents_text(contents)
        + "]\n\nRespond with ONLY a JSON object in this exact format:\n{\n    \"text\": \"A 1-2 sentence description of the room's appearance\",\n    \"atmosphere\": \"A short phrase describing the feeling/atmosphere\",\n    \"lore\": \"Optional hint about the room's history or a dark secret (null if none)\"\n}\n\nBe creative but stay within the horror theme. The description should make the player feel uneasy."@
}

/// The encounter prompt for a monster, given how the player appears.
pub open spec fn encounter_prompt_text(monster: MonsterKind, health_state: Seq<char>) -> Seq<char> {
    SYSTEM_PROMPT@ + "\n\nA player encounters a "@ + monster_kind_name(monster) + " in the dungeon. The player appears "@ + health_state
        + ".\n\nGenerate dialogue/sounds for this monster encounter.\n\nRespond with ONLY a JSON object in this exact format:\n{\n    \"current_line\": \"What the monster says, growls, or the sound it makes\",\n    \"options\": [\"Possible player response 1\", \"Possible player response 2\"],\n    \"mood\": \"The monster's current disposition (aggressive, curious, hungry, etc.)\"\n}\n\nMake it atmospheric and unsettling. Monsters can speak in broken common, ancient tongues, or just make threatening sounds."@
}

/// The prompt asking how an improvised action turns out.
pub open spec fn action_prompt_text(action: Seq<char>, context: Seq<char>) -> Seq<char> {
    SYSTEM_PROMPT@ + "\n\nThe player attempts an unusual action in the dungeon.\n\nCurrent context: "@ + context + "\nPlayer's action: \""@ + action + "\"\n\nDetermine if this action is:\n1. Possible given the environment\n2. What the outcome should be\n3. Any consequences or discoveries\n\nRespond with ONLY a JSON object in this exact format:\n{\n    \"success\": true or false,\n    \"description\": \"What happens when the player attempts this\",\n    \"consequence\": \"Any lasting effect or discovery (null if none)\",\n    \"damage_to_player\": 0 (number, if the action hurts them),\n    \"items_found\": [] (array of item names discovered, empty if none)\n}\n\nBe fair but maintain the horror atmosphere. Creative actions should sometimes be rewarded."@
}

/// The prompt asking for an epitaph.
pub open spec fn death_prompt_text(cause: Seq<char>, floor: int) -> Seq<char> {
    SYSTEM_PROMPT@ + "\n\nThe player has died in the dungeon.\n\nCause of death: "@ + cause + "\nDungeon floor reached: "@ + decimal(floor) + "\n\nWrite a dramatic, haunting epitaph for this fallen adventurer.\n\nRespond with ONLY a JSON object in this exact format:\n{\n    \"epitaph\": \"A 2-3 sentence dramatic description of the player's demise\",\n    \"final_words\": \"The last thought that crossed their mind\",\n    \"legacy\": \"What whispers will tell of this adventurer\"\n}\n\nMake it memorable and appropriately grim."@
}

/// The prompt asking for lore about an object.
pub open spec fn lore_prompt_text(item_name: Seq<char>, location: Seq<char>) -> Seq<char> {
    SYSTEM_PROMPT@ + "\n\nThe player examines an interesting object in the dungeon.\n\nObject: "@ + item_name + "\nFound in: "@ + location + "\n\nGenerate mysterious lore about this object.\n\nRespond with ONLY a JSON object in this exact format:\n{\n    \"inscription\": \"Any writing or symbols on the object (null if none)\",\n    \"history\": \"A brief, cryptic hint about the object's origin\",\n    \"warning\": \"An ominous feeling or premonition (null if benign)\"\n}\n\nKeep it mysterious. Lore should hint at a larger, darker story."@
}

/// Generate a prompt for room description.
pub fn room_description_prompt(room: &Room, contents: &[RoomContent]) -> (s: String)
    ensures
        s@ == room_prompt_text(*room, contents@),
{
    let mut list = String::new();
    let mut i: usize = 0;
    while i < contents.len()
        invariant
            i <= contents@.len(),
            list@ == contents_text(contents@.take(i as int)),
        decreases contents@.len() - i,
    {
        if i > 0 {
            list.append(", ");
        }
        match contents[i] {
            RoomContent::Monster(kind) => {
                list.append("Monster: ");
                list.append(kind.name());
            },
            RoomContent::Item(kind) => {
                list.append("Item: ");
                list.append(kind.name());
            },
        }
        proof {
            assert(contents@.take(i + 1).drop_last() =~= contents@.take(i as int));
            if i == 0 {
                assert(contents@.take(0) =~= Seq::<RoomContent>::empty());
            }
        }
        i = i + 1;
    }
    proof {
        assert(contents@.take(contents@.len() as int) =~= contents@);
    }
    let mut s = owned(SYSTEM_PROMPT);
    s.append("\n\nGenerate a horror-themed description for a dungeon room.\n\nRoom details:\n- Room ID: ");
    push_int(&mut s, room.room_id as i128);
    s.append("\n- Size: ");
    push_int(&mut s, room.width as i128);
    s.append("x");
    push_int(&mut s, room.height as i128);
    s.append("\n- Contents: [");
    s.append(list.as_str());
    s.append("]\n\nRespond with ONLY a JSON object in this exact format:\n{\n    \"text\": \"A 1-2 sentence description of the room's appearance\",\n    \"atmosphere\": \"A short phrase describing the feeling/atmosphere\",\n    \"lore\": \"Optional hint about the room's history or a dark secret (null if none)\"\n}\n\nBe creative but stay within the horror theme. The description should make the player feel uneasy.");
    s
}

/// Generate a prompt for a monster encounter, given how the player
/// appears ("healthy and strong", "wounded but standing", ...).
pub fn monster_dialogue_prompt_with(monster: MonsterKind, health_state: &str) -> (s: String)
    ensures
        s@ == encounter_prompt_text(monster, health_state@),
{
    let mut s = owned(SYSTEM_PROMPT);
    s.append("\n\nA player encounters a ");
    s.append(monster.name());
    s.append(" in the dungeon. The player appears ");
    s.append(health_state);
    s.append(".\n\nGenerate dialogue/sounds for this monster encounter.\n\nRespond with ONLY a JSON object in this exact format:\n{\n    \"current_line\": \"What the monster says, growls, or the sound it makes\",\n    \"options\": [\"Possible player response 1\", \"Possible player response 2\"],\n    \"mood\": \"The monster's current disposition (aggressive, curious, hungry, etc.)\"\n}\n\nMake it atmospheric and unsettling. Monsters can speak in broken common, ancient tongues, or just make threatening sounds.");
    s
}

/// Generate a prompt for interpreting improvisational player actions.
pub fn interpret_action_prompt(action: &str, context: &str) -> (s: String)
    ensures
        s@ == action_prompt_text(action@, context@),
{
    let mut s = owned(SYSTEM_PROMPT);
    s.append("\n\nThe player attempts an unusual action in the dungeon.\n\nCurrent context: ");
    s.append(context);
    s.append("\nPlayer's action: \"");
    s.append(action);
    s.append("\"\n\nDetermine if this action is:\n1. Possible given the environment\n2. What the outcome should be\n3. Any consequences or discoveries\n\nRespond with ONLY a JSON object in this exact format:\n{\n    \"success\": true or false,\n    \"description\": \"What happens when the player attempts this\",\n    \"consequence\": \"Any lasting effect or discovery (null if none)\",\n    \"damage_to_player\": 0 (number, if the action hurts them),\n    \"items_found\": [] (array of item names discovered, empty if none)\n}\n\nBe fair but maintain the horror atmosphere. Creative actions should sometimes be rewarded.");
    s
}

/// Generate a prompt for death narration.
pub fn death_narration_prompt(cause: &str, floor: i32) -> (s: String)
    ensures
        s@ == death_prompt_text(cause@, floor as int),
{
    let mut s = owned(SYSTEM_PROMPT);
    s.append("\n\nThe player has died in the dungeon.\n\nCause of death: ");
    s.append(cause);
    s.append("\nDungeon floor reached: ");
    push_int(&mut s, floor as i128);
    s.append("\n\nWrite a dramatic, haunting epitaph for this fallen adventurer.\n\nRespond with ONLY a JSON object in this exact format:\n{\n    \"epitaph\": \"A 2-3 sentence dramatic description of the player's demise\",\n    \"final_words\": \"The last thought that crossed their mind\",\n    \"legacy\": \"What whispers will tell of this adventurer\"\n}\n\nMake it memorable and appropriately grim.");
    s
}

/// Generate a prompt for discovering lore.
pub fn lore_discovery_prompt(item_name: &str, location_description: &str) -> (s: String)
    ensures
        s@ == lore_prompt_text(item_name@, location_description@),
{
    let mut s = owned(SYSTEM_PROMPT);
    s.append("\n\nThe player examines an interesting object in the dungeon.\n\nObject: ");
    s.append(item_name);
    s.append("\nFound in: ");
    s.append(location_description);
    s.append("\n\nGenerate mysterious lore about this object.\n\nRespond with ONLY a JSON object in this exact format:\n{\n    \"inscription\": \"Any writing or symbols on the object (null if none)\",\n    \"history\": \"A brief, cryptic hint about the object's origin\",\n    \"warning\": \"An ominous feeling or premonition (null if benign)\"\n}\n\nKeep it mysterious. Lore should hint at a larger, darker story.");
    s
}

} // verus!
