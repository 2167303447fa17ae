use neurohack::ai::bridge::{build_game_context, ActionInterpretation, LoreDiscovery};
use neurohack::ai::client::ChatMessage;
use neurohack::ai::flavor::{apply_monster_flavor, armor_flavor_prompt, monster_flavor_prompt, weapon_flavor_prompt, MonsterFlavor};
use neurohack::ai::prompts::{death_narration_prompt, interpret_action_prompt, lore_discovery_prompt, room_description_prompt, RoomContent, SYSTEM_PROMPT};
use neurohack::ai::worker::{NarrativeResponseKind, RoomContentData};
use neurohack::dnd::ability::{Ability, AbilityScores};
use neurohack::dnd::armor::ArmorType;
use bevy::ecs::entity::Entity;
use neurohack::dnd::combat::{process_attack, AttackMessage, AttackModifier};
use neurohack::dnd::components::{ArmorClass, Level, Proficiencies};
use neurohack::dnd::dice::{Dice, DiceType};
use neurohack::dnd::effects::{apply_effect, tick_effects, undead_modifiers, ActiveEffect, Condition, DamageModifiers, EffectDuration, StatusEffects};
use neurohack::dnd::monsters::{ChallengeRating, MonsterDatabase, MonsterTemplate, MonsterType};
use neurohack::dnd::spells::{KnownSpells, SpellId, SpellSlots};
use neurohack::dnd::weapons::{DamageType, WeaponType};
use neurohack::game::components::{CombatStats, Description, Health, ItemKind, MonsterKind, Position};
use neurohack::game::log::GameLog;
use neurohack::game::map::{GameMap, Room, TileType};
use neurohack::game::rules::{combatant_name, resolve_melee, resolve_move, MoveOutcome};
use neurohack::i18n::{LocaleError, LocaleSettings, Localization};
use neurohack::input::{handle_key, handle_key_when, Cursor, InputState, InputTimer, KeyInput};
use neurohack::screens::gameplay::{apply_narrative, check_player_death, monster_attack, monster_defense, monster_for_roll, monster_health, opening_log, plan_spawns, player_start, room_entry, spawns_from_draws, ItemDraw, RoomDraw, Spawn};
use neurohack::ai::flavor::map_weapon_flavor_to_type;
use neurohack::dnd::weapons::WeaponDatabase;
use neurohack::dnd::components::HitPoints;
use neurohack::dnd::combat::calculate_save_dc;
use neurohack::screens::GameMode;
use neurohack::tui::mouse::{GridViewport, MouseState, PointerButton, PointerEvent};
use neurohack::tui::render::CurrentNarrative;
use neurohack::tui::tooltip::{show_monster, show_player, TooltipState, TooltipStyle};
use neurohack::game::components::RenderColor;
use neurohack::tui::widgets::{cursor_lines, stats_lines, tile_appearance, CursorWidget, HelpWidget, InventoryWidget, LogWidget, MapWidget, NarrativeWidget, StatsWidget, TileShade};

#[test]
fn dice_text_reads_back() {
    for d in [Dice::new(2, DiceType::D6, 3), Dice::new(1, DiceType::D20, -1), Dice::simple(4, DiceType::D100), Dice::new(10, DiceType::D4, 0)] {
        let back = Dice::parse(d.to_string().as_str()).unwrap();
        assert_eq!(back, d);
    }
}

#[test]
fn dice_parse_rejects() {
    assert!(Dice::parse("abc").is_none());
    assert!(Dice::parse("2d7").is_none());
    assert!(Dice::parse("").is_none());
}

#[test]
fn ability_set_then_get() {
    let mut s = AbilityScores::new(10, 10, 10, 10, 10, 10);
    s.set(Ability::Wisdom, 17);
    assert_eq!(s.get(Ability::Wisdom), 17);
    assert_eq!(s.get(Ability::Strength), 10);
}

#[test]
fn same_condition_does_not_stack() {
    let mut effects = StatusEffects::default();
    effects.add(ActiveEffect::new(Condition::Prone, EffectDuration::Rounds(3)));
    effects.add(ActiveEffect::new(Condition::Prone, EffectDuration::Rounds(7)));
    assert_eq!(effects.effects.len(), 1);
    assert_eq!(effects.effects[0].duration, EffectDuration::Rounds(7));
    assert_eq!(effects.conditions(), vec![Condition::Prone]);
}

#[test]
fn tick_counts_durations_down() {
    let mut effects = StatusEffects::default();
    effects.add(ActiveEffect::new(Condition::Poisoned, EffectDuration::Rounds(1)));
    effects.add(ActiveEffect::new(Condition::Prone, EffectDuration::Rounds(3)));
    effects.add(ActiveEffect::new(Condition::Blinded, EffectDuration::Instantaneous));
    effects.add(ActiveEffect::new(Condition::Charmed, EffectDuration::Permanent));
    tick_effects(&mut effects);
    assert_eq!(effects.conditions(), vec![Condition::Prone, Condition::Charmed]);
    assert_eq!(effects.effects[0].duration, EffectDuration::Rounds(2));
}

#[test]
fn immunity_wins_and_halving_rounds_toward_zero() {
    let mut m = DamageModifiers::default();
    m.add_resistance(DamageType::Fire);
    m.add_immunity(DamageType::Fire);
    assert_eq!(m.apply(9, DamageType::Fire), 0);
    m.add_resistance(DamageType::Cold);
    assert_eq!(m.apply(9, DamageType::Cold), 4);
    assert_eq!(m.apply(-5, DamageType::Cold), -2);
    assert_eq!(m.apply(9, DamageType::Acid), 9);
}

#[test]
fn immune_target_gets_no_condition() {
    let mods = undead_modifiers();
    let mut effects = StatusEffects::default();
    apply_effect(&mut effects, Some(&mods), ActiveEffect::new(Condition::Poisoned, EffectDuration::Rounds(2)));
    assert!(effects.effects.is_empty());
    apply_effect(&mut effects, Some(&mods), ActiveEffect::new(Condition::Prone, EffectDuration::Rounds(2)));
    assert!(effects.has_condition(Condition::Prone));
}

#[test]
fn monster_lookup_ignores_case() {
    let db = MonsterDatabase::default();
    assert_eq!(db.find_by_name("SKELETON"), Some(MonsterType::Skeleton));
    assert_eq!(db.find_by_name("skel"), None);
    assert_eq!(db.find_by_cr(ChallengeRating::Half), vec![MonsterType::Orc, MonsterType::Hobgoblin]);
    assert_eq!(ChallengeRating::Quarter.display(), "1/4");
    assert_eq!(ChallengeRating::Five.xp(), 1800);
    assert_eq!(ChallengeRating::Nine.proficiency_bonus(), 4);
}

#[test]
fn restoring_a_slot_undoes_using_it() {
    let mut slots = SpellSlots::for_full_caster(3);
    let before = slots.current;
    assert!(slots.use_slot(2));
    slots.restore_slot(2);
    assert_eq!(slots.current, before);
    slots.restore_slot(2);
    assert_eq!(slots.current, before);
    assert!(slots.use_slot(0));
    assert!(!slots.use_slot(10));
}

#[test]
fn learning_twice_keeps_one() {
    let mut known = KnownSpells::default();
    known.add(SpellId::Shield);
    known.add(SpellId::Shield);
    assert_eq!(known.spells, vec![SpellId::Shield]);
    assert_eq!(known.cantrips().len(), 0);
}

#[test]
fn fresh_map_is_walls() {
    let map = GameMap::new(20, 15);
    assert_eq!(map.tiles.len(), 300);
    assert_eq!(map.get_tile(3, 4), Some(TileType::Wall));
    assert_eq!(map.get_tile(20, 0), None);
    assert!(!map.is_walkable(3, 4));
    let mut map = map;
    map.set_tile(3, 4, TileType::Floor);
    assert!(map.is_walkable(3, 4));
    assert_eq!(map.tiles[map.xy_idx(3, 4)], TileType::Floor);
    map.set_tile(-1, 4, TileType::Floor);
    assert_eq!(map.tiles.iter().filter(|t| **t == TileType::Floor).count(), 1);
}

#[test]
fn generated_dungeon_keeps_its_promises() {
    let mut rng = rand::rng();
    for _ in 0..20 {
        let mut map = GameMap::default();
        map.generate_dungeon(&mut rng);
        assert!(!map.rooms.is_empty() && map.rooms.len() <= 10);
        for (i, a) in map.rooms.iter().enumerate() {
            assert!(a.x >= 1 && a.y >= 1 && a.x + a.width <= 78 && a.y + a.height <= 22);
            for b in &map.rooms[i + 1..] {
                assert!(!b.intersects(a));
                assert!(a.room_id < b.room_id);
            }
            for y in a.y..a.y + a.height {
                for x in a.x..a.x + a.width {
                    assert!(map.is_walkable(x, y));
                }
            }
        }
        let (cx, cy) = map.rooms.last().unwrap().center();
        assert_eq!(map.get_tile(cx, cy), Some(TileType::StairsDown));
        let spawns = plan_spawns(&map, &mut rng);
        assert!(spawns.len() <= 2 * map.rooms.len());
        for s in spawns {
            if let Spawn::Monster { at, .. } = s {
                assert!(map.rooms[1..].iter().any(|r| r.center() == (at.x, at.y)));
            }
        }
        let start = player_start(&map);
        assert_eq!(start, map.rooms[0].center());
    }
}

#[test]
fn room_lookup_takes_first() {
    let mut map = GameMap::new(30, 30);
    map.rooms.push(Room::new(2, 2, 5, 5, 0));
    map.rooms.push(Room::new(4, 4, 5, 5, 1));
    assert_eq!(map.room_at(5, 5).unwrap().room_id, 0);
    assert_eq!(map.room_at(8, 8).unwrap().room_id, 1);
    assert!(map.room_at(20, 20).is_none());
}

#[test]
fn log_keeps_newest_within_cap() {
    let mut log = GameLog::new(2);
    log.add("one");
    log.add("two");
    log.add("three");
    assert_eq!(log.messages, vec!["two".to_string(), "three".to_string()]);
    let recent: Vec<&String> = log.recent(5);
    assert_eq!(recent, vec!["three", "two"]);
    let mut none = GameLog::new(0);
    none.add("gone");
    assert!(none.messages.is_empty());
}

#[test]
fn moves_attack_step_or_bump() {
    let mut map = GameMap::new(10, 10);
    map.set_tile(2, 2, TileType::Floor);
    map.set_tile(3, 2, TileType::Floor);
    let mut log = GameLog::new(10);
    let monsters = [Position::new(3, 2)];
    assert_eq!(resolve_move(&map, &mut log, Position::new(2, 2), 1, 0, &monsters), MoveOutcome::Attack(0));
    assert_eq!(resolve_move(&map, &mut log, Position::new(3, 2), -1, 0, &[]), MoveOutcome::Step(Position::new(2, 2)));
    assert!(log.messages.is_empty());
    assert_eq!(resolve_move(&map, &mut log, Position::new(2, 2), 0, 1, &[]), MoveOutcome::Bump);
    assert_eq!(log.messages, vec!["You bump into a wall.".to_string()]);
}

#[test]
fn melee_blows_and_deaths_are_logged() {
    let mut log = GameLog::new(10);
    let mut hp = Health::new(5);
    let dmg = resolve_melee("You", "the orc", &CombatStats::new(5, 2), &CombatStats::new(4, 1), &mut hp, &mut log);
    assert_eq!(dmg, 4);
    assert_eq!(hp.current, 1);
    assert_eq!(log.messages, vec!["You hits the orc for 4 damage!".to_string()]);
    let dmg = resolve_melee("Orc", "you", &CombatStats::new(1, 0), &CombatStats::new(0, 3), &mut hp, &mut log);
    assert_eq!(dmg, 0);
    assert_eq!(log.messages[1], "Orc attacks you but does no damage.");
    resolve_melee("You", "the orc", &CombatStats::new(9, 0), &CombatStats::new(0, 0), &mut hp, &mut log);
    assert_eq!(hp.current, 0);
    assert_eq!(log.messages[3], "the orc is slain!");
    assert_eq!(combatant_name(true, false, None, true), "You");
    assert_eq!(combatant_name(false, true, Some("Goblin"), false), "Goblin");
    assert_eq!(combatant_name(false, true, None, false), "something");
    assert_eq!(combatant_name(false, false, Some("x"), true), "Something");
}

#[test]
fn distance_and_health() {
    assert_eq!(Position::new(1, 2).distance(&Position::new(-3, 7)), 9);
    let mut h = Health::new(10);
    h.take_damage(15);
    assert_eq!(h.current, 0);
    assert!(h.is_dead());
    h.heal(30);
    assert_eq!(h.current, 10);
}

#[test]
fn keys_drive_modes_and_moves() {
    let mut state = InputState::default();
    let mut timer = InputTimer::default();
    let mut cursor = Cursor::new(4, 4);
    let out = handle_key(GameMode::Exploring, KeyInput::Char('q'), false, false, &mut state, &mut timer, &mut cursor);
    assert!(out.quit);
    let out = handle_key(GameMode::Exploring, KeyInput::Char('c'), false, true, &mut state, &mut timer, &mut cursor);
    assert!(out.quit && state.ctrl_held);
    let out = handle_key(GameMode::Exploring, KeyInput::Char('x'), false, false, &mut state, &mut timer, &mut cursor);
    assert_eq!(out.next_mode, Some(GameMode::Targeting));
    assert!(cursor.visible);
    let out = handle_key(GameMode::Targeting, KeyInput::Esc, false, false, &mut state, &mut timer, &mut cursor);
    assert_eq!(out.next_mode, Some(GameMode::Exploring));
    assert!(!cursor.visible);
    let out = handle_key(GameMode::Exploring, KeyInput::Char('h'), false, false, &mut state, &mut timer, &mut cursor);
    assert_eq!(out.move_intent, None);
    timer.timer.tick(std::time::Duration::from_millis(150));
    let out = handle_key(GameMode::Exploring, KeyInput::Char('h'), false, false, &mut state, &mut timer, &mut cursor);
    assert_eq!(out.move_intent, Some((-1, 0)));
    let out = handle_key(GameMode::Inventory, KeyInput::Char('i'), false, false, &mut state, &mut timer, &mut cursor);
    assert_eq!(out.next_mode, Some(GameMode::Exploring));
    let mut t = InputTimer::default();
    assert!(!t.try_action_when(false));
    assert!(t.try_action_when(true));
    assert!(!t.try_action_when(true));
}

#[test]
fn locales_and_strings() {
    let mut s = LocaleSettings::default();
    assert!(s.set_locale("en-us").is_ok());
    assert_eq!(s.current_locale, "en-US");
    match s.set_locale("!!") {
        Err(e @ LocaleError::InvalidLocale(_)) => assert_eq!(e.message(), "Invalid locale format: !!"),
        _ => panic!("expected an invalid locale"),
    }
    match s.set_locale("fr-FR") {
        Err(e @ LocaleError::UnsupportedLocale(_)) => assert_eq!(e.message(), "Unsupported locale: fr-FR"),
        _ => panic!("expected an unsupported locale"),
    }
    assert_eq!(s.current_locale, "en-US");
    assert_eq!(LocaleSettings::locale_display_name("ru-RU"), "Русский");
    assert_eq!(LocaleSettings::locale_display_name("xx"), "Unknown");
    let mut loc = Localization::default();
    assert!(!loc.is_loaded());
    loc.load_defaults("en-US");
    assert!(loc.is_loaded());
    let line = loc.get_with_args(
        "combat-hit",
        &[("attacker", "You"), ("defender", "the goblin"), ("damage", "5"), ("type", "slashing")],
    );
    assert_eq!(line, "You hits the goblin for 5 slashing damage.");
    assert_eq!(loc.get_with_args("ctrl-quit", &[]), "q: Quit");
}

#[test]
fn prompts_carry_their_inputs() {
    let p = interpret_action_prompt("lick the wall", "a damp cell");
    assert!(p.starts_with(SYSTEM_PROMPT));
    assert!(p.contains("Current context: a damp cell\nPlayer's action: \"lick the wall\""));
    let d = death_narration_prompt("an orc", -3);
    assert!(d.contains("Cause of death: an orc\nDungeon floor reached: -3\n"));
    let l = lore_discovery_prompt("Key", "a crypt");
    assert!(l.contains("Object: Key\nFound in: a crypt\n"));
    let room = Room::new(1, 2, 7, 5, 12);
    let r = room_description_prompt(&room, &[RoomContent::Monster(MonsterKind::Orc), RoomContent::Item(ItemKind::Chest)]);
    assert!(r.contains("- Room ID: 12\n- Size: 7x5\n- Contents: [Monster: Orc, Item: Chest]"));
    let m = ChatMessage::user("hi");
    assert_eq!((m.role.as_str(), m.content.as_str()), ("user", "hi"));
    let s = ChatMessage::system("be grim");
    assert_eq!((s.role.as_str(), s.content.as_str()), ("system", "be grim"));
}

#[test]
fn flavor_prompts_and_application() {
    let p = monster_flavor_prompt(MonsterType::Skeleton);
    assert!(p.contains("Monster Type: Skeleton (CR 1/4)\nCreature Type: Undead\nSize: Medium\n"));
    let w = weapon_flavor_prompt(WeaponType::Longsword, "in a tomb");
    assert!(w.contains("Weapon Type: Longsword (1dd8 slashing damage)\nContext: in a tomb"));
    let a = armor_flavor_prompt(ArmorType::Plate, "rusted");
    assert!(a.ends_with("Armor Type: Plate (AC 18, Heavy)\nContext: rusted"));
    let mut t = MonsterTemplate::new(MonsterType::Zombie);
    let f = MonsterFlavor {
        name: "Old Tom".to_string(),
        visual_desc: "Grey".to_string(),
        weapon_flavor: Some("Hook".to_string()),
        armor_flavor: None,
        personality_trait: None,
    };
    apply_monster_flavor(&mut t, &f);
    assert_eq!(t.display_name(), "Old Tom");
    assert_eq!(t.weapon_flavor.as_deref(), Some("Hook"));
    assert_eq!(t.monster_type, MonsterType::Zombie);
}

#[test]
fn context_names_room_and_neighbors() {
    let mut map = GameMap::new(30, 30);
    map.rooms.push(Room::new(2, 2, 6, 4, 3));
    let ctx = build_game_context(&Position::new(3, 3), &map, &[("Orc".to_string(), Position::new(4, 3)), ("Key".to_string(), Position::new(5, 5))]);
    assert_eq!(ctx, "Player at (3, 3). Location: Room 3 (6x4). Floor: 1. Nearby: Orc at (4, 3); Key at (5, 5)");
    let ctx = build_game_context(&Position::new(20, 20), &map, &[]);
    assert_eq!(ctx, "Player at (20, 20). Location: Corridor. Floor: 1. Nearby: ");
}

#[test]
fn panels_show_their_text() {
    let w = NarrativeWidget::new("Room", "Dark.").with_atmosphere("dread");
    assert_eq!(w.title_text(), " Room ");
    assert_eq!(w.lines(), vec!["Dark.".to_string(), String::new(), "~ dread ~".to_string()]);
    assert_eq!(HelpWidget::new(true).lines()[0], "-- LOOK MODE --");
    assert_eq!(HelpWidget::default().lines().len(), 5);
    assert_eq!(InventoryWidget::new().lines(), vec!["Your inventory is empty.", "", "Press 'i' or Esc to close."]);
    assert_eq!(tile_appearance(TileType::Door, true), ('+', TileShade::Yellow));
    assert_eq!(tile_appearance(TileType::Door, false), ('+', TileShade::DarkGray));
    let mut map = GameMap::new(5, 5);
    let i = map.xy_idx(1, 1);
    map.revealed[i] = true;
    assert_eq!(cursor_lines(&map, 1, 1), vec!["Position: (1, 1)".to_string(), "Not in view".to_string()]);
    map.visible[i] = true;
    assert_eq!(cursor_lines(&map, 1, 1)[1], "Tile: Wall");
    assert_eq!(cursor_lines(&map, 2, 2)[1], "Unexplored");
    assert_eq!(cursor_lines(&map, 9, 9).len(), 1);
    assert_eq!(stats_lines(7, 30, 2, 0), vec!["HP: 7/30".to_string(), "Floor: 2".to_string(), "Gold: 0".to_string()]);
}

#[test]
fn tooltips_describe_creatures() {
    let mut tip = TooltipState::default();
    let t = MonsterTemplate::new(MonsterType::Ghoul).with_description("Hungry.");
    let scores = AbilityScores::new(13, 15, 10, 7, 10, 6);
    show_monster(&mut tip, "ghoul", Some(&t), Some("Wounded"), Some(12), Some(&scores));
    assert!(tip.visible);
    assert_eq!(tip.title, "Ghoul");
    let texts: Vec<&str> = tip.lines.iter().map(|l| l.text.as_str()).collect();
    assert_eq!(texts, vec!["CR 1 undead", "Wounded", "AC: 12", "STR 13 DEX 15 CON 10", "Hungry."]);
    assert_eq!(tip.lines[2].style, TooltipStyle::Stat);
    show_player(&mut tip, "Player", Some((7, 30)), None);
    assert_eq!(tip.title, "Player");
    assert_eq!(tip.lines.len(), 1);
    assert_eq!(tip.lines[0].text, "HP: 7/30");
}

#[test]
fn pointer_events_update_state() {
    let mut m = MouseState::default();
    let v = GridViewport::default();
    let g = v.screen_to_grid(21, 11);
    assert_eq!(g, Some(Position::new(0, 0)));
    let out = m.apply(PointerEvent::Moved, 21, 11, g, None);
    assert_eq!(out.hover, Some((Position::new(0, 0), None)));
    let out = m.apply(PointerEvent::Moved, 21, 11, g, None);
    assert_eq!(out.hover, None);
    let out = m.apply(PointerEvent::Down(PointerButton::Left), 21, 11, g, None);
    assert_eq!(out.click, Some((Position::new(0, 0), PointerButton::Left)));
    assert!(m.left_pressed);
    m.apply(PointerEvent::Up(PointerButton::Left), 21, 11, g, None);
    assert!(!m.left_pressed);
    assert_eq!(m.screen_position, Some((21, 11)));
}

#[test]
fn gameplay_rules() {
    assert_eq!((monster_health(MonsterKind::Troll), monster_attack(MonsterKind::Troll), monster_defense(MonsterKind::Troll)), (20, 6, 3));
    assert_eq!(monster_for_roll(0), MonsterKind::Orc);
    assert_eq!(monster_for_roll(5), MonsterKind::Demon);
    let log = opening_log();
    assert_eq!(log.max_messages, 100);
    assert_eq!(log.messages[0], "Welcome to NeuroHack. The dungeon awaits...");
    let mut map = GameMap::new(30, 30);
    map.rooms.push(Room::new(2, 2, 6, 4, 7));
    let monsters = [(Position::new(3, 3), MonsterKind::Orc), (Position::new(20, 20), MonsterKind::Troll)];
    let items = [(Position::new(4, 4), ItemKind::Gold)];
    let (last, req) = room_entry(&map, Position::new(3, 3), None, &monsters, &items);
    assert_eq!(last, Some(7));
    let (room, contents) = req.unwrap();
    assert_eq!(room.room_id, 7);
    assert_eq!(contents, vec![RoomContentData::Monster(MonsterKind::Orc), RoomContentData::Item(ItemKind::Gold)]);
    let (last, req) = room_entry(&map, Position::new(3, 3), Some(7), &monsters, &items);
    assert_eq!(last, Some(7));
    assert!(req.is_none());
    let (last, req) = room_entry(&map, Position::new(25, 25), Some(7), &monsters, &items);
    assert!(last.is_none() && req.is_none());
}

#[test]
fn narrative_replies_reach_panel_and_log() {
    let mut panel = CurrentNarrative::default();
    let mut log = GameLog::new(10);
    let desc = Description { text: "Cold stone.".to_string(), atmosphere: "Dread".to_string(), lore: None };
    apply_narrative(&NarrativeResponseKind::RoomDescription(desc), &mut panel, &mut log);
    assert_eq!(panel.title, "Room");
    assert_eq!(panel.atmosphere.as_deref(), Some("Dread"));
    assert!(panel.visible);
    let lore = LoreDiscovery { inscription: Some("Beware".to_string()), history: "Old.".to_string(), warning: None };
    apply_narrative(&NarrativeResponseKind::LoreDiscovery(lore), &mut panel, &mut log);
    let act = ActionInterpretation { success: true, description: "It works.".to_string(), consequence: Some("A door opens.".to_string()), damage_to_player: 0, items_found: vec![] };
    apply_narrative(&NarrativeResponseKind::ActionResult(act), &mut panel, &mut log);
    apply_narrative(&NarrativeResponseKind::Error("down".to_string()), &mut panel, &mut log);
    assert_eq!(log.messages, vec!["Cold stone.", "You read: \"Beware\"", "Old.", "It works.", "A door opens."]);
    let mut hp = Health::new(3);
    assert!(!check_player_death(&hp, &mut log));
    hp.take_damage(3);
    assert!(check_player_death(&hp, &mut log));
    assert_eq!(log.messages.last().unwrap(), "You have died. The dungeon claims another soul...");
}

#[test]
fn widget_builders_and_log_panel() {
    let map = GameMap::new(4, 4);
    let w = MapWidget::new(&map)
        .with_player(Position::new(1, 1))
        .with_cursor(Position::new(2, 2))
        .with_entity(Position::new(3, 3), 'g', RenderColor::Red);
    assert_eq!(w.player_pos(), Some(Position::new(1, 1)));
    assert_eq!(w.cursor_pos(), Some(Position::new(2, 2)));
    assert_eq!(w.entities().len(), 1);
    let w = w.with_entities(vec![]);
    assert!(w.entities().is_empty());
    assert_eq!(w.map().width, 4);
    let mut log = GameLog::new(10);
    for m in ["a", "b", "c", "d"] {
        log.add(m);
    }
    assert_eq!(LogWidget::new(&log).with_max_lines(2).lines(), vec!["c".to_string(), "d".to_string()]);
    assert_eq!(LogWidget::new(&log).lines().len(), 4);
    let s = StatsWidget::new(Health::new(9), 3, 12);
    assert_eq!(s.health().max, 9);
    assert_eq!(s.lines()[2], "Gold: 12");
    let p = Position::new(0, 0);
    assert_eq!(CursorWidget::new(&p, &map).lines(), vec!["Position: (0, 0)".to_string(), "Unexplored".to_string()]);
}

#[test]
fn dice_parse_trims_and_lowercases() {
    assert_eq!(Dice::parse("  2D6+1 "), Some(Dice::new(2, DiceType::D6, 1)));
}

#[test]
fn attack_messages_yield_damage_on_hits() {
    let mut roller = neurohack::dnd::dice::DiceRoller::default();
    let msg = AttackMessage { attacker: Entity::PLACEHOLDER, defender: Entity::PLACEHOLDER, weapon: Some(WeaponType::Dagger), advantage: AttackModifier::Normal };
    let scores = AbilityScores::new(10, 10, 10, 10, 10, 10);
    let profs = Proficiencies::default();
    let level = Level::new(1);
    let ac = ArmorClass::new(10);
    let mut hits = 0;
    for _ in 0..200 {
        let (res, dmg) = process_attack(&mut roller, &msg, &scores, &profs, &level, None, &ac);
        assert_eq!(res.hit, dmg.is_some());
        assert_eq!(res.target_ac, 10);
        if let Some(d) = dmg {
            hits += 1;
            assert_eq!(d.amount, res.damage_total);
            assert_eq!(d.damage_type, DamageType::Piercing);
            assert!(d.amount >= 1 && d.amount <= 8);
        }
    }
    assert!(hits > 0);
}

#[test]
fn frightened_hampers_attacks() {
    assert!(Condition::Frightened.attack_disadvantage());
    let mut effects = StatusEffects::default();
    effects.add(ActiveEffect::new(Condition::Frightened, EffectDuration::Rounds(2)));
    assert!(effects.has_attack_disadvantage());
    assert!(!Condition::Grappled.attack_disadvantage());
}

#[test]
fn weapon_flavor_maps_by_shared_word() {
    let db = WeaponDatabase::default();
    assert_eq!(map_weapon_flavor_to_type("Rusted Pickaxe", &db), Some(WeaponType::WarPick));
    assert_eq!(map_weapon_flavor_to_type("Longsword", &db), Some(WeaponType::Longsword));
    assert_eq!(map_weapon_flavor_to_type("Bone Spear of Dread", &db), Some(WeaponType::Spear));
    assert_eq!(map_weapon_flavor_to_type("Pick", &db), Some(WeaponType::WarPick));
    assert_eq!(map_weapon_flavor_to_type("xyz", &db), None);
}

#[test]
fn spawns_follow_the_draws() {
    let mut map = GameMap::new(40, 30);
    map.rooms.push(Room::new(2, 2, 6, 6, 0));
    map.rooms.push(Room::new(12, 2, 6, 4, 1));
    map.rooms.push(Room::new(22, 10, 5, 5, 2));
    let draws = vec![
        RoomDraw { monster: Some(MonsterKind::Goblin), item: Some(ItemDraw { kind: ItemKind::HealthPotion, dx: -2, dy: 1 }) },
        RoomDraw { monster: None, item: None },
    ];
    let spawns = spawns_from_draws(&map, &draws);
    assert_eq!(
        spawns,
        vec![
            Spawn::Monster { kind: MonsterKind::Goblin, at: Position::new(15, 4) },
            Spawn::Item { kind: ItemKind::HealthPotion, at: Position::new(13, 5) },
        ]
    );
    let draws = vec![
        RoomDraw { monster: None, item: Some(ItemDraw { kind: ItemKind::HealthPotion, dx: 0, dy: 0 }) },
        RoomDraw { monster: Some(MonsterKind::Goblin), item: None },
    ];
    assert_eq!(
        spawns_from_draws(&map, &draws),
        vec![
            Spawn::Item { kind: ItemKind::HealthPotion, at: Position::new(15, 4) },
            Spawn::Monster { kind: MonsterKind::Goblin, at: Position::new(24, 12) },
        ]
    );
}

#[test]
fn dungeon_keeps_the_candidates_that_fit() {
    let mut map = GameMap::new(40, 30);
    let candidates = vec![
        Room::new(2, 2, 5, 5, 0),
        Room::new(4, 4, 5, 5, 1),
        Room::new(20, 12, 5, 5, 2),
        Room::new(7, 20, 4, 4, 3),
    ];
    let flips = vec![false, true, true, false];
    map.dig_dungeon(&candidates, &flips);
    assert_eq!(map.rooms, vec![candidates[0], candidates[2], candidates[3]]);
    // Room 2 (center 22, 14) joined to room 0 (center 4, 4) horizontal leg first:
    // along row 4, then column 22.
    assert!(map.is_walkable(15, 4));
    assert!(map.is_walkable(22, 9));
    assert!(!map.is_walkable(15, 14));
    // Room 3 (center 9, 22) joined to room 2 vertical leg first: along
    // column 22, then row 22.
    assert!(map.is_walkable(22, 20));
    assert!(map.is_walkable(15, 22));
    assert_eq!(map.get_tile(9, 22), Some(TileType::StairsDown));
}

#[test]
fn temporary_hit_points_absorb_at_the_top_of_the_range() {
    let mut hp = HitPoints::new(i32::MAX);
    hp.temp = 1;
    hp.take_damage(0);
    assert_eq!(hp.temp, 1);
    assert_eq!(hp.current, i32::MAX);
    hp.take_damage(3);
    assert_eq!(hp.temp, 0);
    assert_eq!(hp.current, i32::MAX - 2);
}

#[test]
fn save_dc_for_a_huge_score() {
    let mut scores = AbilityScores::default();
    scores.set(Ability::Wisdom, i32::MAX);
    let dc = calculate_save_dc(&scores, &Level::new(1), Ability::Wisdom);
    assert_eq!(dc, 8 + 2 + (i32::MAX - 10) / 2);
}

#[test]
fn dice_parse_trims_unicode_white_space() {
    assert_eq!(Dice::parse("\u{3000}2d6+1\u{a0}"), Some(Dice::new(2, DiceType::D6, 1)));
}

#[test]
fn map_area_draws_revealed_tiles_around_the_player() {
    let mut map = GameMap::new(20, 10);
    map.set_tile(5, 5, TileType::Floor);
    let i = map.xy_idx(5, 5);
    map.revealed[i] = true;
    map.visible[i] = true;
    let j = map.xy_idx(6, 5);
    map.revealed[j] = true;
    let w = MapWidget::new(&map).with_player(Position::new(5, 5));
    // A 10 by 6 area centers (5, 5) at screen cell (5, 3).
    assert_eq!(w.tile_on_screen(5, 3, 10, 6), Some(('.', TileShade::Gray)));
    assert_eq!(w.tile_on_screen(6, 3, 10, 6), Some(('#', TileShade::DarkGray)));
    assert_eq!(w.tile_on_screen(4, 3, 10, 6), None);
    assert_eq!(w.tile_on_screen(0, 0, 10, 6), None);
}

#[test]
fn entities_land_where_the_view_puts_them() {
    let mut map = GameMap::new(20, 10);
    let i = map.xy_idx(6, 5);
    map.visible[i] = true;
    let w = MapWidget::new(&map).with_player(Position::new(5, 5));
    // A 10 by 6 area puts (5, 5) at (5, 3).
    assert_eq!(w.cell_on_screen(Position::new(5, 5), 10, 6), Some((5, 3)));
    assert_eq!(w.cell_on_screen(Position::new(0, 2), 10, 6), Some((0, 0)));
    assert_eq!(w.cell_on_screen(Position::new(-1, 2), 10, 6), None);
    assert_eq!(w.cell_on_screen(Position::new(10, 5), 10, 6), None);
    assert_eq!(w.entity_on_screen(Position::new(6, 5), 10, 6), Some((6, 3)));
    assert_eq!(w.entity_on_screen(Position::new(7, 5), 10, 6), None);
}

#[test]
fn key_steps_follow_the_cooldown() {
    let mut state = InputState::default();
    let mut timer = InputTimer::default();
    let mut cursor = Cursor::new(3, 3);
    let out = handle_key_when(GameMode::Exploring, KeyInput::Char('l'), false, false, true, &mut state, &mut timer, &mut cursor);
    assert_eq!(out.move_intent, Some((1, 0)));
    let out = handle_key_when(GameMode::Exploring, KeyInput::Char('l'), false, false, true, &mut state, &mut timer, &mut cursor);
    assert_eq!(out.move_intent, None);
    timer.reset_action();
    let out = handle_key_when(GameMode::Exploring, KeyInput::Char('h'), false, false, false, &mut state, &mut timer, &mut cursor);
    assert_eq!(out.move_intent, None);
    let out = handle_key_when(GameMode::Targeting, KeyInput::Char('j'), false, false, true, &mut state, &mut timer, &mut cursor);
    assert_eq!(out.next_mode, None);
    assert_eq!((cursor.position.x, cursor.position.y), (3, 4));
}

#[test]
fn dice_text_round_trips_and_reads_any_case() {
    for count in [-3, 0, 1, 7, 100] {
        for die in [DiceType::D4, DiceType::D6, DiceType::D8, DiceType::D10, DiceType::D12, DiceType::D20, DiceType::D100] {
            for m in [i32::MIN, -12, -1, 0, 1, 9, i32::MAX] {
                let d = Dice::new(count, die, m);
                assert_eq!(Dice::parse(&d.to_string()), Some(d));
            }
        }
    }
    assert_eq!(Dice::parse("3D8-2"), Some(Dice::new(3, DiceType::D8, -2)));
}

#[test]
fn rooms_of_negative_size_hold_no_point() {
    let mut map = GameMap::new(30, 30);
    map.rooms.push(Room::new(10, 10, -3, 4, 0));
    map.rooms.push(Room::new(5, 5, 10, 10, 1));
    assert_eq!(map.room_at(9, 11).unwrap().room_id, 1);
    assert!(!Room::new(10, 10, -3, 4, 0).contains(8, 11));
}
