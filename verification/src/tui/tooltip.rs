//! Tooltips: what hovering over a creature tells about it.

use vstd::prelude::*;

use crate::dnd::ability::AbilityScores;
use crate::dnd::monsters::{cr_text, monster_cr, monster_creature_type, monster_name, CreatureType, MonsterTemplate};
use crate::text::{decimal, owned, push_int};

verus! {

/// Style for tooltip lines.
#[derive(Debug, Clone, Copy, PartialEq, Eq, Structural)]
pub enum TooltipStyle {
    Normal,
    Header,
    Stat,
    Warning,
    Good,
}

impl Default for TooltipStyle {
    fn default() -> (s: Self)
        ensures
            s == TooltipStyle::Normal,
    {
        TooltipStyle::Normal
    }
}

/// A line in the tooltip with optional styling.
#[derive(Debug, Clone)]
pub struct TooltipLine {
    pub text: String,
    pub style: TooltipStyle,
}

/// A tooltip line as text and style.
pub open spec fn line_view(l: TooltipLine) -> (Seq<char>, TooltipStyle) {
    (l.text@, l.style)
}

impl TooltipLine {
    pub fn normal(text: &str) -> (l: Self)
        ensures
            line_view(l) == (text@, TooltipStyle::Normal),
    {
        Self { text: owned(text), style: TooltipStyle::Normal }
    }

    pub fn header(text: &str) -> (l: Self)
        ensures
            line_view(l) == (text@, TooltipStyle::Header),
    {
        Self { text: owned(text), style: TooltipStyle::Header }
    }

    pub fn stat(text: &str) -> (l: Self)
        ensures
            line_view(l) == (text@, TooltipStyle::Stat),
    {
        Self { text: owned(text), style: TooltipStyle::Stat }
    }
}

/// Current tooltip state.
#[derive(Debug)]
pub struct TooltipState {
    /// Whether the tooltip is visible.
    pub visible: bool,
    /// Title of the tooltip (entity name).
    pub title: String,
    /// Lines of tooltip content.
    pub lines: Vec<TooltipLine>,
    /// Screen position for the tooltip (near mouse).
    pub screen_position: (u16, u16),
}

impl Default for TooltipState {
    fn default() -> (s: Self)
        ensures
            !s.visible,
            s.title@.len() == 0,
            s.lines@.len() == 0,
            s.screen_position == (0u16, 0u16),
    {
        Self { visible: false, title: String::new(), lines: Vec::new(), screen_position: (0, 0) }
    }
}

/// Lowercase name of a creature type.
pub open spec fn creature_type_text(t: CreatureType) -> Seq<char> {
    match t {
        CreatureType::Aberration => "aberration"@,
        CreatureType::Beast => "beast"@,
        CreatureType::Celestial => "celestial"@,
        CreatureType::Construct => "construct"@,
        CreatureType::Dragon => "dragon"@,
        CreatureType::Elemental => "elemental"@,
        CreatureType::Fey => "fey"@,
        CreatureType::Fiend => "fiend"@,
        CreatureType::Giant => "giant"@,
        CreatureType::Humanoid => "humanoid"@,
        CreatureType::Monstrosity => "monstrosity"@,
        CreatureType::Ooze => "ooze"@,
        CreatureType::Plant => "plant"@,
        CreatureType::Undead => "undead"@,
    }
}

fn creature_type_name(t: CreatureType) -> (s: &'static str)
    ensures
        s@ == creature_type_text(t),
{
    match t {
        CreatureType::Aberration => "aberration",
        CreatureType::Beast => "beast",
        CreatureType::Celestial => "celestial",
        CreatureType::Construct => "construct",
        CreatureType::Dragon => "dragon",
        CreatureType::Elemental => "elemental",
        CreatureType::Fey => "fey",
        CreatureType::Fiend => "fiend",
        CreatureType::Giant => "giant",
        CreatureType::Humanoid => "humanoid",
        CreatureType::Monstrosity => "monstrosity",
        CreatureType::Ooze => "ooze",
        CreatureType::Plant => "plant",
        CreatureType::Undead => "undead",
    }
}

/// The text of a tooltip line of "AC: n".
pub open spec fn ac_text(ac: int) -> Seq<char> {
    "AC: "@ + decimal(ac)
}

/// The tooltip lines of a hovered monster: its challenge rating and
/// creature type (with a template), how hurt it looks, its armor class,
/// its physical scores, and the template's description.
pub open spec fn monster_lines(
    template: Option<MonsterTemplate>,
    hp_desc: Option<Seq<char>>,
    ac: Option<i32>,
    abilities: Option<AbilityScores>,
) -> Seq<(Seq<char>, TooltipStyle)> {
    let kind = match template {
        Some(t) => seq![
            ("CR "@ + cr_text(monster_cr(t.monster_type)) + " "@ + creature_type_text(
                monster_creature_type(t.monster_type),
            ), TooltipStyle::Normal),
        ],
        None => Seq::empty(),
    };
    let hurt = match hp_desc {
        Some(d) => seq![(d, TooltipStyle::Stat)],
        None => Seq::empty(),
    };
    let armor = match ac {
        Some(a) => seq![(ac_text(a as int), TooltipStyle::Stat)],
        None => Seq::empty(),
    };
    let scores = match abilities {
        Some(ab) => seq![
            ("STR "@ + decimal(ab.strength as int) + " DEX "@ + decimal(ab.dexterity as int)
                + " CON "@ + decimal(ab.constitution as int), TooltipStyle::Stat),
        ],
        None => Seq::empty(),
    };
    let flavor = match template {
        Some(t) => match t.visual_description {
            Some(d) => seq![(d@, TooltipStyle::Normal)],
            None => Seq::empty(),
        },
        None => Seq::empty(),
    };
    kind + hurt + armor + scores + flavor
}

/// The title of a hovered monster's tooltip: the template's display name,
/// else the entity's name.
pub open spec fn monster_title(template: Option<MonsterTemplate>, name: Seq<char>) -> Seq<char> {
    match template {
        Some(t) => match t.custom_name {
            Some(n) => n@,
            None => monster_name(t.monster_type),
        },
        None => name,
    }
}

/// Fill the tooltip for a hovered monster; `hp_desc` tells how hurt it looks.
pub fn show_monster(
    tooltip: &mut TooltipState,
    name: &str,
    template: Option<&MonsterTemplate>,
    hp_desc: Option<&str>,
    ac: Option<i32>,
    abilities: Option<&AbilityScores>,
)
    ensures
        final(tooltip).visible,
        final(tooltip).title@ == monster_title(
            match template {
                Some(t) => Some(*t),
                None => None,
            },
            name@,
        ),
        final(tooltip).lines@.map_values(|l: TooltipLine| line_view(l)) == monster_lines(
            match template {
                Some(t) => Some(*t),
                None => None,
            },
            match hp_desc {
                Some(d) => Some(d@),
                None => None,
            },
            ac,
            match abilities {
                Some(a) => Some(*a),
                None => None,
            },
        ),
        final(tooltip).screen_position == old(tooltip).screen_position,
{
    tooltip.visible = true;
    tooltip.title = match template {
        Some(t) => t.display_name(),
        None => owned(name),
    };
    let mut lines: Vec<TooltipLine> = Vec::new();
    let ghost mut expect: Seq<(Seq<char>, TooltipStyle)> = Seq::empty();
    if let Some(t) = template {
        let data = t.data();
        let mut s = owned("CR ");
        s.append(data.challenge_rating.display());
        s.append(" ");
        s.append(creature_type_name(data.creature_type));
        lines.push(TooltipLine::normal(s.as_str()));
    }
    if let Some(d) = hp_desc {
        lines.push(TooltipLine::stat(d));
    }
    if let Some(a) = ac {
        let mut s = owned("AC: ");
        push_int(&mut s, a as i128);
        lines.push(TooltipLine::stat(s.as_str()));
    }
    if let Some(ab) = abilities {
        let mut s = owned("STR ");
        push_int(&mut s, ab.strength as i128);
        s.append(" DEX ");
        push_int(&mut s, ab.dexterity as i128);
        s.append(" CON ");
        push_int(&mut s, ab.constitution as i128);
        lines.push(TooltipLine::stat(s.as_str()));
    }
    if let Some(t) = template {
        if let Some(desc) = &t.visual_description {
            lines.push(TooltipLine::normal(desc.as_str()));
        }
    }
    assert(lines@.map_values(|l: TooltipLine| line_view(l)) =~= monster_lines(
        match template {
            Some(t) => Some(*t),
            None => None,
        },
        match hp_desc {
            Some(d) => Some(d@),
            None => None,
        },
        ac,
        match abilities {
            Some(a) => Some(*a),
            None => None,
        },
    ));
    tooltip.lines = lines;
}

/// The tooltip lines of the player: hit points and armor class, when known.
pub open spec fn player_lines(hp: Option<(i32, i32)>, ac: Option<i32>) -> Seq<(Seq<char>, TooltipStyle)> {
    (match hp {
        Some((cur, max)) => seq![
            ("HP: "@ + decimal(cur as int) + "/"@ + decimal(max as int), TooltipStyle::Stat),
        ],
        None => Seq::empty(),
    }) + (match ac {
        Some(a) => seq![(ac_text(a as int), TooltipStyle::Stat)],
        None => Seq::empty(),
    })
}

/// Fill the tooltip for the hovered player; `hp` is current and maximum.
pub fn show_player(tooltip: &mut TooltipState, name: &str, hp: Option<(i32, i32)>, ac: Option<i32>)
    ensures
        final(tooltip).visible,
        final(tooltip).title@ == name@,
        final(tooltip).lines@.map_values(|l: TooltipLine| line_view(l)) == player_lines(hp, ac),
        final(tooltip).screen_position == old(tooltip).screen_position,
{
    tooltip.visible = true;
    tooltip.title = owned(name);
    let mut lines: Vec<TooltipLine> = Vec::new();
    if let Some((cur, max)) = hp {
        let mut s = owned("HP: ");
        push_int(&mut s, cur as i128);
        s.append("/");
        push_int(&mut s, max as i128);
        lines.push(TooltipLine::stat(s.as_str()));
    }
    if let Some(a) = ac {
        let mut s = owned("AC: ");
        push_int(&mut s, a as i128);
        lines.push(TooltipLine::stat(s.as_str()));
    }
    assert(lines@.map_values(|l: TooltipLine| line_view(l)) =~= player_lines(hp, ac));
    tooltip.lines = lines;
}

} // verus!
