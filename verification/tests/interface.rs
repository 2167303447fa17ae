use neurohack::ai::flavor::map_weapon_flavor_to_type;
use neurohack::dnd::weapons::WeaponDatabase;
use neurohack::game::components::Position;
use neurohack::i18n::{LocaleSettings, Localization};
use neurohack::input::{Cursor, InputTimer};
use neurohack::tui::mouse::GridViewport;

#[test]
fn test_weapon_mapping() {
    let db = WeaponDatabase::default();
    assert!(map_weapon_flavor_to_type("Longsword", &db).is_some());
    assert!(map_weapon_flavor_to_type("Pick", &db).is_some());
}

#[test]
fn test_locale_settings_default() {
    let settings = LocaleSettings::default();
    assert_eq!(settings.current_locale.to_string(), "en-US");
    assert_eq!(settings.available_locales.len(), 2);
}

#[test]
fn test_set_valid_locale() {
    let mut settings = LocaleSettings::default();
    assert!(settings.set_locale("ru-RU").is_ok());
    assert_eq!(settings.current_locale.to_string(), "ru-RU");
}

#[test]
fn test_set_invalid_locale() {
    let mut settings = LocaleSettings::default();
    assert!(settings.set_locale("invalid").is_err());
}

#[test]
fn test_set_unsupported_locale() {
    let mut settings = LocaleSettings::default();
    assert!(settings.set_locale("de-DE").is_err());
}

#[test]
fn test_localization_fallback() {
    let loc = Localization::default();
    assert_eq!(loc.get("unknown-key"), "[unknown-key]");
    assert_eq!(loc.get("ui-dungeon-title"), " Dungeon ");
}

#[test]
fn test_localization_with_args() {
    let mut loc = Localization::default();
    loc.load_defaults("en-US");

    let result = loc.get_with_args(
        "combat-hit",
        &[("attacker", "You"), ("defender", "the goblin"), ("damage", "5"), ("type", "slashing")],
    );

    assert!(result.contains("You"));
    assert!(result.contains("the goblin"));
    assert!(result.contains("5"));
    assert!(result.contains("slashing"));
}

#[test]
fn test_load_english() {
    let mut loc = Localization::default();
    loc.load_defaults("en-US");

    assert_eq!(loc.get("ui-dungeon-title"), " Dungeon ");
    assert_eq!(loc.get("tile-wall"), "Wall");
}

#[test]
fn test_load_russian() {
    let mut loc = Localization::default();
    loc.load_defaults("ru-RU");

    assert_eq!(loc.get("ui-dungeon-title"), " Подземелье ");
    assert_eq!(loc.get("tile-wall"), "Стена");
}

#[test]
fn test_input_timer_cooldown() {
    let mut timer = InputTimer::default();

    timer.timer.tick(std::time::Duration::from_millis(101));
    assert!(timer.timer.is_finished());

    assert!(timer.try_action());
    assert!(!timer.try_action());

    timer.reset_action();
    timer.timer.tick(std::time::Duration::from_millis(101));
    assert!(timer.try_action());
}

#[test]
fn test_cursor_movement() {
    let mut cursor = Cursor::new(5, 5);

    cursor.move_by(1, 0);
    assert_eq!(cursor.position.x, 6);
    assert_eq!(cursor.position.y, 5);

    cursor.move_by(-2, 3);
    assert_eq!(cursor.position.x, 4);
    assert_eq!(cursor.position.y, 8);
}

#[test]
fn test_cursor_snap() {
    let mut cursor = Cursor::new(0, 0);
    let pos = Position::new(10, 20);

    cursor.snap_to(&pos);
    assert_eq!(cursor.position.x, 10);
    assert_eq!(cursor.position.y, 20);
}

#[test]
fn test_screen_to_grid_conversion() {
    let viewport = GridViewport {
        map_offset: (1, 1),
        map_size: (40, 20),
        world_center: Position::new(50, 50),
    };

    let center_screen_x = 1 + 20;
    let center_screen_y = 1 + 10;
    let grid_pos = viewport.screen_to_grid(center_screen_x, center_screen_y);
    assert_eq!(grid_pos, Some(Position::new(50, 50)));

    let grid_pos = viewport.screen_to_grid(1, 1);
    assert_eq!(grid_pos, Some(Position::new(30, 40)));

    let grid_pos = viewport.screen_to_grid(0, 0);
    assert_eq!(grid_pos, None);
}
