use neurohack::dnd::ability::{calculate_modifier, Ability, AbilityScores};
use neurohack::dnd::armor::{ArmorDatabase, ArmorType};
use neurohack::dnd::combat::{calculate_attack_bonus, calculate_save_dc};
use neurohack::dnd::components::{proficiency_bonus, HitPoints, Level, Proficiencies, Skill, SkillRank, Skills};
use neurohack::dnd::dice::{Dice, DiceType};
use neurohack::dnd::effects::{undead_modifiers, ActiveEffect, Condition, EffectDuration, StatusEffects};
use neurohack::dnd::monsters::{ChallengeRating, MonsterDatabase, MonsterType};
use neurohack::dnd::spells::{KnownSpells, SpellId, SpellSchool, SpellSlots};
use neurohack::dnd::weapons::{DamageType, Weapon, WeaponCategory, WeaponDatabase, WeaponProperty, WeaponType};

#[test]
fn test_ability_modifier_calculation() {
    assert_eq!(calculate_modifier(1), -5);
    assert_eq!(calculate_modifier(2), -4);
    assert_eq!(calculate_modifier(3), -4);
    assert_eq!(calculate_modifier(4), -3);
    assert_eq!(calculate_modifier(5), -3);
    assert_eq!(calculate_modifier(8), -1);
    assert_eq!(calculate_modifier(9), -1);
    assert_eq!(calculate_modifier(10), 0);
    assert_eq!(calculate_modifier(11), 0);
    assert_eq!(calculate_modifier(12), 1);
    assert_eq!(calculate_modifier(13), 1);
    assert_eq!(calculate_modifier(14), 2);
    assert_eq!(calculate_modifier(15), 2);
    assert_eq!(calculate_modifier(16), 3);
    assert_eq!(calculate_modifier(17), 3);
    assert_eq!(calculate_modifier(18), 4);
    assert_eq!(calculate_modifier(19), 4);
    assert_eq!(calculate_modifier(20), 5);
    assert_eq!(calculate_modifier(30), 10);
}

#[test]
fn test_ability_scores() {
    let scores = AbilityScores::new(16, 14, 12, 10, 8, 13);

    assert_eq!(scores.str_mod(), 3);
    assert_eq!(scores.dex_mod(), 2);
    assert_eq!(scores.con_mod(), 1);
    assert_eq!(scores.int_mod(), 0);
    assert_eq!(scores.wis_mod(), -1);
    assert_eq!(scores.cha_mod(), 1);
}

#[test]
fn test_standard_array() {
    let order = [
        Ability::Strength,
        Ability::Dexterity,
        Ability::Constitution,
        Ability::Intelligence,
        Ability::Wisdom,
        Ability::Charisma,
    ];
    let scores = AbilityScores::standard_array(order);

    assert_eq!(scores.strength, 15);
    assert_eq!(scores.dexterity, 14);
    assert_eq!(scores.constitution, 13);
    assert_eq!(scores.intelligence, 12);
    assert_eq!(scores.wisdom, 10);
    assert_eq!(scores.charisma, 8);
}

#[test]
fn test_unarmored_ac() {
    let armor = ArmorType::Unarmored.base_data();
    assert_eq!(armor.calculate_ac(2), 12);
    assert_eq!(armor.calculate_ac(-1), 9);
}

#[test]
fn test_light_armor_ac() {
    let leather = ArmorType::Leather.base_data();
    assert_eq!(leather.calculate_ac(3), 14);
}

#[test]
fn test_medium_armor_ac() {
    let chain_shirt = ArmorType::ChainShirt.base_data();
    assert_eq!(chain_shirt.calculate_ac(2), 15);
    assert_eq!(chain_shirt.calculate_ac(4), 15);
    assert_eq!(chain_shirt.calculate_ac(1), 14);
}

#[test]
fn test_heavy_armor_ac() {
    let plate = ArmorType::Plate.base_data();
    assert_eq!(plate.calculate_ac(0), 18);
    assert_eq!(plate.calculate_ac(5), 18);
    assert_eq!(plate.calculate_ac(-2), 18);
}

#[test]
fn test_armor_database() {
    let db = ArmorDatabase::default();
    assert!(db.find_by_name("Plate").is_some());
    assert!(db.find_by_name("leather").is_some());
    assert!(db.find_by_name("xyz").is_none());
}

#[test]
fn test_attack_bonus_calculation() {
    let scores = AbilityScores::new(16, 14, 10, 10, 10, 10);
    let mut profs = Proficiencies::default();
    profs.martial_weapons = true;
    let level = Level::new(5);

    let longsword = Weapon::new(WeaponType::Longsword);
    let bonus = calculate_attack_bonus(&scores, &profs, &level, &longsword);
    assert_eq!(bonus, 6);

    let rapier = Weapon::new(WeaponType::Rapier);
    let bonus = calculate_attack_bonus(&scores, &profs, &level, &rapier);
    assert_eq!(bonus, 6);

    let dex_scores = AbilityScores::new(10, 18, 10, 10, 10, 10);
    let bonus = calculate_attack_bonus(&dex_scores, &profs, &level, &rapier);
    assert_eq!(bonus, 7);
}

#[test]
fn test_save_dc() {
    let scores = AbilityScores::new(10, 10, 14, 16, 10, 10);
    let level = Level::new(5);

    let dc = calculate_save_dc(&scores, &level, Ability::Intelligence);
    assert_eq!(dc, 14);
}

#[test]
fn test_proficiency_bonus() {
    assert_eq!(proficiency_bonus(1), 2);
    assert_eq!(proficiency_bonus(4), 2);
    assert_eq!(proficiency_bonus(5), 3);
    assert_eq!(proficiency_bonus(8), 3);
    assert_eq!(proficiency_bonus(9), 4);
    assert_eq!(proficiency_bonus(17), 6);
    assert_eq!(proficiency_bonus(20), 6);
}

#[test]
fn test_hit_points() {
    let mut hp = HitPoints::new(20);
    assert_eq!(hp.current, 20);
    assert_eq!(hp.max, 20);

    hp.take_damage(5);
    assert_eq!(hp.current, 15);

    hp.heal(3);
    assert_eq!(hp.current, 18);

    hp.heal(100);
    assert_eq!(hp.current, 20);

    hp.add_temp_hp(10);
    hp.take_damage(5);
    assert_eq!(hp.temp, 5);
    assert_eq!(hp.current, 20);

    hp.take_damage(10);
    assert_eq!(hp.temp, 0);
    assert_eq!(hp.current, 15);
}

#[test]
fn test_skill_modifier() {
    let scores = AbilityScores::new(10, 16, 10, 10, 14, 10);
    let mut skills = Skills::default();
    skills.set(Skill::Stealth, SkillRank::Proficient);

    assert_eq!(skills.modifier(Skill::Perception, &scores, 2), 2);
    assert_eq!(skills.modifier(Skill::Stealth, &scores, 2), 5);

    skills.set(Skill::Stealth, SkillRank::Expertise);
    assert_eq!(skills.modifier(Skill::Stealth, &scores, 2), 7);
}

#[test]
fn test_dice_parse() {
    let dice = Dice::parse("2d6").unwrap();
    assert_eq!(dice.count, 2);
    assert_eq!(dice.die_type, DiceType::D6);
    assert_eq!(dice.modifier, 0);

    let dice = Dice::parse("1d8+3").unwrap();
    assert_eq!(dice.count, 1);
    assert_eq!(dice.die_type, DiceType::D8);
    assert_eq!(dice.modifier, 3);

    let dice = Dice::parse("d20-1").unwrap();
    assert_eq!(dice.count, 1);
    assert_eq!(dice.die_type, DiceType::D20);
    assert_eq!(dice.modifier, -1);
}

#[test]
fn test_dice_display() {
    assert_eq!(Dice::simple(2, DiceType::D6).to_string(), "2d6");
    assert_eq!(Dice::new(1, DiceType::D8, 3).to_string(), "1d8+3");
    assert_eq!(Dice::new(1, DiceType::D20, -1).to_string(), "1d20-1");
}

#[test]
fn test_dice_bounds() {
    let dice = Dice::new(2, DiceType::D6, 3);
    assert_eq!(dice.minimum(), 5);
    assert_eq!(dice.maximum(), 15);
}

#[test]
fn test_roll_bounds() {
    let dice = Dice::new(2, DiceType::D6, 0);
    for _ in 0..100 {
        let roll = dice.roll();
        assert!(roll.total >= dice.minimum());
        assert!(roll.total <= dice.maximum());
    }
}

#[test]
fn test_damage_modifiers() {
    let mods = undead_modifiers();
    assert_eq!(mods.apply(10, DamageType::Poison), 0);
    assert_eq!(mods.apply(10, DamageType::Radiant), 20);
    assert_eq!(mods.apply(10, DamageType::Slashing), 10);
}

#[test]
fn test_condition_effects() {
    let poisoned = ActiveEffect::new(Condition::Poisoned, EffectDuration::Rounds(3));
    assert!(poisoned.condition.attack_disadvantage());
    assert!(!poisoned.condition.prevents_actions());
}

#[test]
fn test_status_effects() {
    let mut effects = StatusEffects::default();

    effects.add(ActiveEffect::new(Condition::Poisoned, EffectDuration::Rounds(3)));
    assert!(effects.has_condition(Condition::Poisoned));
    assert!(effects.has_attack_disadvantage());

    effects.remove_condition(Condition::Poisoned);
    assert!(!effects.has_condition(Condition::Poisoned));
}

#[test]
fn test_monster_data() {
    let skeleton = MonsterType::Skeleton.data();
    assert_eq!(skeleton.name, "Skeleton");
    assert_eq!(skeleton.challenge_rating, ChallengeRating::Quarter);
    assert_eq!(skeleton.armor_class, 13);
    assert!(skeleton.damage_vulnerabilities.contains(&DamageType::Bludgeoning));
    assert!(skeleton.damage_immunities.contains(&DamageType::Poison));
}

#[test]
fn test_monster_database() {
    let db = MonsterDatabase::default();
    let cr_quarter = db.find_by_cr(ChallengeRating::Quarter);
    assert!(cr_quarter.len() >= 3);
}

#[test]
fn test_hit_dice() {
    let skeleton = MonsterType::Skeleton.data();
    assert_eq!(skeleton.hit_dice.count, 2);
    assert_eq!(skeleton.hit_dice.die_type, DiceType::D8);
    assert_eq!(skeleton.hit_dice.modifier, 4);
}

#[test]
fn test_spell_data() {
    let fireball = SpellId::Fireball.data();
    assert_eq!(fireball.name, "Fireball");
    assert_eq!(fireball.level, 3);
    assert_eq!(fireball.school, SpellSchool::Evocation);
}

#[test]
fn test_spell_slots() {
    let mut slots = SpellSlots::for_full_caster(5);
    assert!(slots.has_slot(1));
    assert!(slots.has_slot(3));
    assert!(!slots.has_slot(4));

    assert!(slots.use_slot(3));
    assert!(slots.use_slot(3));
    assert!(!slots.use_slot(3));

    slots.restore_all();
    assert!(slots.has_slot(3));
}

#[test]
fn test_known_spells() {
    let mut known = KnownSpells::default();
    known.add(SpellId::FireBolt);
    known.add(SpellId::MagicMissile);
    known.add(SpellId::Fireball);

    assert!(known.knows(SpellId::FireBolt));
    assert!(known.knows(SpellId::Fireball));
    assert!(!known.knows(SpellId::Shield));

    assert_eq!(known.cantrips().len(), 1);
    assert_eq!(known.spells_of_level(1).len(), 1);
    assert_eq!(known.spells_of_level(3).len(), 1);
}

#[test]
fn test_cantrip_scaling() {
    assert_eq!(SpellId::cantrip_dice_count(1), 1);
    assert_eq!(SpellId::cantrip_dice_count(5), 2);
    assert_eq!(SpellId::cantrip_dice_count(11), 3);
    assert_eq!(SpellId::cantrip_dice_count(17), 4);
}

#[test]
fn test_weapon_data() {
    let longsword = WeaponType::Longsword.base_data();
    assert_eq!(longsword.name, "Longsword");
    assert_eq!(longsword.category, WeaponCategory::Martial);
    assert_eq!(longsword.damage.count, 1);
    assert_eq!(longsword.damage.die_type, DiceType::D8);
    assert!(longsword.has_property(WeaponProperty::Versatile));
    assert!(longsword.versatile_damage.is_some());
}

#[test]
fn test_weapon_database() {
    let db = WeaponDatabase::default();
    assert!(db.find_by_name("Longsword").is_some());
    assert!(db.find_by_name("sword").is_some());
    assert!(db.find_by_name("xyz").is_none());
}

#[test]
fn test_finesse_weapon() {
    let rapier = WeaponType::Rapier.base_data();
    assert!(rapier.has_property(WeaponProperty::Finesse));
    assert_eq!(rapier.attack_ability(), Ability::Dexterity);
}
