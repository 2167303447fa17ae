//! Input handling with an action cooldown and a unified cursor.
//!
//! Holding a movement key makes the terminal repeat it faster than the
//! game's pace; an `InputTimer` lets one action through per period. The
//! `Cursor` serves both the mouse and the keyboard look mode.

use vstd::prelude::*;

use bevy::ecs::entity::Entity;

use crate::game::components::Position;
use crate::screens::GameMode;

verus! {

/// `bevy::time::Timer`, carried through opaque.
#[verifier::external_type_specification]
#[verifier::external_body]
pub struct ExTimer(bevy::time::Timer);

/// `Timer::new` with `Duration::from_millis(ms)` and `TimerMode::Repeating`:
/// a repeating timer of that period, not yet ticked. Nothing is stated of
/// its state.
#[verifier::external_body]
fn repeating_timer(ms: u64) -> bevy::time::Timer {
    bevy::time::Timer::new(std::time::Duration::from_millis(ms), bevy::time::TimerMode::Repeating)
}

/// `Timer::is_finished`: whether the timer reached its period on the last
/// tick. Its value rests on the ticks the timer received; nothing is stated.
#[verifier::external_body]
fn timer_is_finished(timer: &bevy::time::Timer) -> bool {
    timer.is_finished()
}

/// Resource for managing input cooldowns to prevent jitter when holding keys.
pub struct InputTimer {
    /// Timer that controls how often movement/actions can be processed.
    pub timer: bevy::time::Timer,
    /// Whether an action was processed this period.
    pub action_taken: bool,
}

impl Default for InputTimer {
    /// A 100 ms repeating cooldown, no action taken yet.
    fn default() -> (t: Self)
        ensures
            !t.action_taken,
    {
        Self { timer: repeating_timer(100), action_taken: false }
    }
}

impl InputTimer {
    /// Let an action through when the period has elapsed (`finished`) and
    /// none was taken in it yet; mark it taken.
    pub fn try_action_when(&mut self, finished: bool) -> (ok: bool)
        ensures
            ok == (finished && !old(self).action_taken),
            final(self).action_taken == (old(self).action_taken || ok),
            final(self).timer == old(self).timer,
    {
        if finished && !self.action_taken {
            self.action_taken = true;
            true
        } else {
            false
        }
    }

    /// Check if an action can be performed and mark it as taken. Whether
    /// the period has elapsed comes from the timer; an action already taken
    /// in the period is never let through again.
    pub fn try_action(&mut self) -> (ok: bool)
        ensures
            ok ==> !old(self).action_taken,
            final(self).action_taken == (old(self).action_taken || ok),
            final(self).timer == old(self).timer,
    {
        let finished = timer_is_finished(&self.timer);
        self.try_action_when(finished)
    }

    /// Reset the action taken flag (called when the period elapses).
    pub fn reset_action(&mut self)
        ensures
            !final(self).action_taken,
            final(self).timer == old(self).timer,
    {
        self.action_taken = false;
    }
}

/// Unified cursor resource for inspecting entities on the map: moved by
/// the mouse, by the keyboard in look mode, and snapped to the player
/// while exploring.
#[derive(Debug, Clone, Copy)]
pub struct Cursor {
    /// Current grid position of the cursor.
    pub position: Position,
    /// Whether the cursor is currently visible.
    pub visible: bool,
    /// Entity at the cursor position (if any).
    pub target_entity: Option<Entity>,
}

impl Default for Cursor {
    fn default() -> (c: Self)
        ensures
            c.position == (Position { x: 0, y: 0 }),
            !c.visible,
            c.target_entity is None,
    {
        Self { position: Position::new(0, 0), visible: false, target_entity: None }
    }
}

impl Cursor {
    /// Create a new cursor at the given position.
    pub fn new(x: i32, y: i32) -> (c: Self)
        ensures
            c.position == (Position { x, y }),
            !c.visible,
            c.target_entity is None,
    {
        Self { position: Position::new(x, y), visible: false, target_entity: None }
    }

    /// Move the cursor by a delta.
    pub fn move_by(&mut self, dx: i32, dy: i32)
        requires
            i32::MIN <= old(self).position.x + dx <= i32::MAX,
            i32::MIN <= old(self).position.y + dy <= i32::MAX,
        ensures
            final(self).position.x == old(self).position.x + dx,
            final(self).position.y == old(self).position.y + dy,
            final(self).visible == old(self).visible,
            final(self).target_entity == old(self).target_entity,
    {
        self.position.x = self.position.x + dx;
        self.position.y = self.position.y + dy;
    }

    /// Set the cursor position directly.
    pub fn set_position(&mut self, x: i32, y: i32)
        ensures
            final(self).position == (Position { x, y }),
            final(self).visible == old(self).visible,
            final(self).target_entity == old(self).target_entity,
    {
        self.position.x = x;
        self.position.y = y;
    }

    /// Snap the cursor to a specific position (usually the player).
    pub fn snap_to(&mut self, pos: &Position)
        ensures
            final(self).position == *pos,
            final(self).visible == old(self).visible,
            final(self).target_entity == old(self).target_entity,
    {
        self.position = *pos;
    }
}

/// Tracks the current input state and modifiers.
#[derive(Debug, Clone, Copy)]
pub struct InputState {
    /// Whether shift is held (for running/fast movement).
    pub shift_held: bool,
    /// Whether control is held (for special commands).
    pub ctrl_held: bool,
    /// Last direction pressed (for repeated movement).
    pub last_direction: Option<(i32, i32)>,
}

impl Default for InputState {
    fn default() -> (s: Self)
        ensures
            !s.shift_held,
            !s.ctrl_held,
            s.last_direction is None,
    {
        Self { shift_held: false, ctrl_held: false, last_direction: None }
    }
}

/// A key press, as far as the game reads it.
#[derive(Debug, Clone, Copy, PartialEq, Eq, Structural)]
pub enum KeyInput {
    Char(char),
    Left,
    Right,
    Up,
    Down,
    Esc,
    Enter,
    Other,
}

/// The step a movement key stands for: hjkl and the arrows for the four
/// directions, yubn for the diagonals.
pub open spec fn key_step(key: KeyInput) -> Option<(i32, i32)> {
    match key {
        KeyInput::Char('h') | KeyInput::Left => Some((-1i32, 0i32)),
        KeyInput::Char('j') | KeyInput::Down => Some((0i32, 1i32)),
        KeyInput::Char('k') | KeyInput::Up => Some((0i32, -1i32)),
        KeyInput::Char('l') | KeyInput::Right => Some((1i32, 0i32)),
        KeyInput::Char('y') => Some((-1i32, -1i32)),
        KeyInput::Char('u') => Some((1i32, -1i32)),
        KeyInput::Char('b') => Some((-1i32, 1i32)),
        KeyInput::Char('n') => Some((1i32, 1i32)),
        _ => None,
    }
}

/// The movement keys and their steps: h and Left go one column left, l
/// and Right one column right, k and Up one row up, j and Down one row
/// down, y up-left, u up-right, b down-left, n down-right; no other key
/// moves. Opposite keys give opposite steps.
pub proof fn lemma_movement_keys(key: KeyInput)
    ensures
        (key_step(key) == Some((-1i32, 0i32))) <==> (key == KeyInput::Char('h') || key
            == KeyInput::Left),
        (key_step(key) == Some((1i32, 0i32))) <==> (key == KeyInput::Char('l') || key
            == KeyInput::Right),
        (key_step(key) == Some((0i32, -1i32))) <==> (key == KeyInput::Char('k') || key
            == KeyInput::Up),
        (key_step(key) == Some((0i32, 1i32))) <==> (key == KeyInput::Char('j') || key
            == KeyInput::Down),
        (key_step(key) == Some((-1i32, -1i32))) <==> key == KeyInput::Char('y'),
        (key_step(key) == Some((1i32, -1i32))) <==> key == KeyInput::Char('u'),
        (key_step(key) == Some((-1i32, 1i32))) <==> key == KeyInput::Char('b'),
        (key_step(key) == Some((1i32, 1i32))) <==> key == KeyInput::Char('n'),
        key_step(key) is None <==> !(key == KeyInput::Char('h') || key == KeyInput::Left || key
            == KeyInput::Char('l') || key == KeyInput::Right || key == KeyInput::Char('k') || key
            == KeyInput::Up || key == KeyInput::Char('j') || key == KeyInput::Down || key
            == KeyInput::Char('y') || key == KeyInput::Char('u') || key == KeyInput::Char('b')
            || key == KeyInput::Char('n')),
        key_step(KeyInput::Up) matches Some(u) && key_step(KeyInput::Down) matches Some(d) && u.0
            == -d.0 && u.1 == -d.1,
        key_step(KeyInput::Left) matches Some(l) && key_step(KeyInput::Right) matches Some(r)
            && l.0 == -r.0 && l.1 == -r.1,
{
}

/// The step of a movement key.
pub fn movement_for(key: KeyInput) -> (d: Option<(i32, i32)>)
    ensures
        d == key_step(key),
{
    match key {
        KeyInput::Char('h') | KeyInput::Left => Some((-1, 0)),
        KeyInput::Char('j') | KeyInput::Down => Some((0, 1)),
        KeyInput::Char('k') | KeyInput::Up => Some((0, -1)),
        KeyInput::Char('l') | KeyInput::Right => Some((1, 0)),
        KeyInput::Char('y') => Some((-1, -1)),
        KeyInput::Char('u') => Some((1, -1)),
        KeyInput::Char('b') => Some((-1, 1)),
        KeyInput::Char('n') => Some((1, 1)),
        _ => None,
    }
}

/// What a key press asks of the game.
#[derive(Debug, Clone, Copy)]
pub struct KeyOutcome {
    /// Leave the game (and stop reading keys).
    pub quit: bool,
    /// Switch to this mode.
    pub next_mode: Option<GameMode>,
    /// Move the player by this step.
    pub move_intent: Option<(i32, i32)>,
}

/// Nothing to do.
pub open spec fn no_outcome() -> KeyOutcome {
    KeyOutcome { quit: false, next_mode: None, move_intent: None }
}

/// What handling a key does, given the state, cooldown and cursor before
/// (`s0`, `t0`, `c0`) and after (`s1`, `t1`, `c1`) and the outcome: the
/// rules `handle_key` describes, with a movement let through exactly when
/// the action flag went from unset to set.
pub open spec fn handles_key(
    mode: GameMode,
    key: KeyInput,
    shift: bool,
    ctrl: bool,
    s0: InputState,
    s1: InputState,
    t0: InputTimer,
    t1: InputTimer,
    c0: Cursor,
    c1: Cursor,
    out: KeyOutcome,
) -> bool {
    let took = t1.action_taken && !t0.action_taken;
    let quits = (ctrl && key == KeyInput::Char('c')) || key == KeyInput::Char('q');
    &&& s1.shift_held == shift
    &&& s1.ctrl_held == ctrl
    &&& s1.last_direction == s0.last_direction
    &&& t1.timer == t0.timer
    &&& t1.action_taken == (t0.action_taken || took)
    &&& c1.target_entity == c0.target_entity
    &&& if quits {
        out == (KeyOutcome { quit: true, next_mode: None, move_intent: None }) && c1 == c0 && !took
    } else if key == KeyInput::Esc {
        !took && c1.position == c0.position && if mode != GameMode::Exploring {
            out == (KeyOutcome {
                quit: false,
                next_mode: Some(GameMode::Exploring),
                move_intent: None,
            }) && !c1.visible
        } else {
            out == no_outcome() && c1.visible == c0.visible
        }
    } else {
        match mode {
            GameMode::Exploring => c1.position == c0.position && match key_step(key) {
                Some(d) => out == (KeyOutcome {
                    quit: false,
                    next_mode: None,
                    move_intent: if took {
                        Some(d)
                    } else {
                        None
                    },
                }) && c1.visible == c0.visible,
                None => !took && if key == KeyInput::Char('x') {
                    out == (KeyOutcome {
                        quit: false,
                        next_mode: Some(GameMode::Targeting),
                        move_intent: None,
                    }) && c1.visible
                } else if key == KeyInput::Char('i') {
                    out == (KeyOutcome {
                        quit: false,
                        next_mode: Some(GameMode::Inventory),
                        move_intent: None,
                    }) && c1.visible == c0.visible
                } else {
                    out == no_outcome() && c1.visible == c0.visible
                },
            },
            GameMode::Targeting => match key_step(key) {
                Some(d) => out == no_outcome() && c1.visible == c0.visible && c1.position == if took {
                    Position { x: (c0.position.x + d.0) as i32, y: (c0.position.y + d.1) as i32 }
                } else {
                    c0.position
                },
                None => !took && c1.position == c0.position && if key == KeyInput::Enter || key
                    == KeyInput::Char(' ') || key == KeyInput::Char('x') {
                    out == (KeyOutcome {
                        quit: false,
                        next_mode: Some(GameMode::Exploring),
                        move_intent: None,
                    }) && !c1.visible
                } else {
                    out == no_outcome() && c1.visible == c0.visible
                },
            },
            GameMode::Inventory => !took && c1 == c0 && if key == KeyInput::Char('i') {
                out == (KeyOutcome {
                    quit: false,
                    next_mode: Some(GameMode::Exploring),
                    move_intent: None,
                })
            } else {
                out == no_outcome()
            },
        }
    }
}

/// Whether a key asks for a step that goes through the cooldown: a
/// movement key, while exploring or looking, that does not quit.
pub open spec fn key_asks_step(mode: GameMode, key: KeyInput, ctrl: bool) -> bool {
    &&& !((ctrl && key == KeyInput::Char('c')) || key == KeyInput::Char('q'))
    &&& key != KeyInput::Esc
    &&& (mode == GameMode::Exploring || mode == GameMode::Targeting)
    &&& key_step(key) is Some
}

/// Handle one key press, the cooldown's period having elapsed or not
/// (`finished`): as `handles_key` says, a step going through exactly when
/// the key asks for one, the period has elapsed and no action was taken
/// in it yet.
pub fn handle_key_when(
    mode: GameMode,
    key: KeyInput,
    shift: bool,
    ctrl: bool,
    finished: bool,
    state: &mut InputState,
    timer: &mut InputTimer,
    cursor: &mut Cursor,
) -> (out: KeyOutcome)
    requires
        mode == GameMode::Targeting ==> (match key_step(key) {
            Some(d) => i32::MIN <= old(cursor).position.x + d.0 <= i32::MAX && i32::MIN <= old(
                cursor,
            ).position.y + d.1 <= i32::MAX,
            None => true,
        }),
    ensures
        handles_key(
            mode,
            key,
            shift,
            ctrl,
            *old(state),
            *final(state),
            *old(timer),
            *final(timer),
            *old(cursor),
            *final(cursor),
            out,
        ),
        (final(timer).action_taken && !old(timer).action_taken) == (key_asks_step(mode, key, ctrl)
            && finished && !old(timer).action_taken),
{
    state.shift_held = shift;
    state.ctrl_held = ctrl;
    let none = KeyOutcome { quit: false, next_mode: None, move_intent: None };
    if (ctrl && key == KeyInput::Char('c')) || key == KeyInput::Char('q') {
        return KeyOutcome { quit: true, next_mode: None, move_intent: None };
    }
    if key == KeyInput::Esc {
        if mode != GameMode::Exploring {
            cursor.visible = false;
            return KeyOutcome { quit: false, next_mode: Some(GameMode::Exploring), move_intent: None };
        }
        return none;
    }
    match mode {
        GameMode::Exploring => {
            if let Some(d) = movement_for(key) {
                if timer.try_action_when(finished) {
                    return KeyOutcome { quit: false, next_mode: None, move_intent: Some(d) };
                }
                return none;
            }
            if key == KeyInput::Char('x') {
                cursor.visible = true;
                KeyOutcome { quit: false, next_mode: Some(GameMode::Targeting), move_intent: None }
            } else if key == KeyInput::Char('i') {
                KeyOutcome { quit: false, next_mode: Some(GameMode::Inventory), move_intent: None }
            } else {
                none
            }
        },
        GameMode::Targeting => {
            if let Some(d) = movement_for(key) {
                if timer.try_action_when(finished) {
                    cursor.move_by(d.0, d.1);
                }
                return none;
            }
            if key == KeyInput::Enter || key == KeyInput::Char(' ') || key == KeyInput::Char('x') {
                cursor.visible = false;
                KeyOutcome { quit: false, next_mode: Some(GameMode::Exploring), move_intent: None }
            } else {
                none
            }
        },
        GameMode::Inventory => {
            if key == KeyInput::Char('i') {
                KeyOutcome { quit: false, next_mode: Some(GameMode::Exploring), move_intent: None }
            } else {
                none
            }
        },
    }
}

/// Handle one key press in a game mode. Ctrl-C and `q` quit in any mode;
/// Esc returns to exploring (hiding the cursor). While exploring, a
/// movement key asks to move the player when the cooldown lets it through,
/// `x` enters look mode (showing the cursor) and `i` opens the inventory.
/// In look mode a movement key moves the cursor when the cooldown lets it
/// through, and Enter, Space or `x` go back to exploring. In the inventory
/// `i` closes it. The modifier flags are recorded first.
pub fn handle_key(
    mode: GameMode,
    key: KeyInput,
    shift: bool,
    ctrl: bool,
    state: &mut InputState,
    timer: &mut InputTimer,
    cursor: &mut Cursor,
) -> (out: KeyOutcome)
    requires
        mode == GameMode::Targeting ==> (match key_step(key) {
            Some(d) => i32::MIN <= old(cursor).position.x + d.0 <= i32::MAX && i32::MIN <= old(
                cursor,
            ).position.y + d.1 <= i32::MAX,
            None => true,
        }),
    ensures
        handles_key(
            mode,
            key,
            shift,
            ctrl,
            *old(state),
            *final(state),
            *old(timer),
            *final(timer),
            *old(cursor),
            *final(cursor),
            out,
        ),
{
    let finished = timer_is_finished(&timer.timer);
    handle_key_when(mode, key, shift, ctrl, finished, state, timer, cursor)
}

} // verus!
