//! Localization: the current locale and the game's strings in English
//! (the default) and Russian, with English fallbacks and `{$var}`
//! placeholders.

use vstd::prelude::*;

use crate::seqs::{first_where, lemma_first_where_ends, lemma_first_where_step};
use crate::text::{owned, replace_all, str_eq, str_replace};

verus! {

/// The canonical form of a locale tag as `unic_langid` writes it, or
/// none when the tag does not parse.
pub uninterp spec fn canonical_locale(tag: Seq<char>) -> Option<Seq<char>>;

/// `LanguageIdentifier::from_str`, then its `Display`: the canonical text
/// of a locale tag, or nothing when it does not parse. The result is
/// named, not stated.
#[verifier::external_body]
fn canonical_tag(tag: &str) -> (r: Option<String>)
    ensures
        match r {
            Some(c) => canonical_locale(tag@) == Some(c@),
            None => canonical_locale(tag@) is None,
        },
{
    match tag.parse::<unic_langid::LanguageIdentifier>() {
        Ok(id) => Some(id.to_string()),
        Err(_) => None,
    }
}

/// Errors related to localization.
#[derive(Debug, Clone)]
pub enum LocaleError {
    /// The tag is not a locale identifier.
    InvalidLocale(String),
    /// The locale is not one the game offers.
    UnsupportedLocale(String),
}

/// The text of a locale error.
pub open spec fn locale_error_text(e: LocaleError) -> Seq<char> {
    match e {
        LocaleError::InvalidLocale(s) => "Invalid locale format: "@ + s@,
        LocaleError::UnsupportedLocale(s) => "Unsupported locale: "@ + s@,
    }
}

impl LocaleError {
    /// The error's message.
    pub fn message(&self) -> (s: String)
        ensures
            s@ == locale_error_text(*self),
    {
        match self {
            LocaleError::InvalidLocale(tag) => {
                let mut s = owned("Invalid locale format: ");
                s.append(tag.as_str());
                s
            },
            LocaleError::UnsupportedLocale(tag) => {
                let mut s = owned("Unsupported locale: ");
                s.append(tag.as_str());
                s
            },
        }
    }
}

/// Settings for the current locale; locales are held in canonical form.
#[derive(Debug, Clone)]
pub struct LocaleSettings {
    /// Current locale identifier (e.g., "en-US", "ru-RU").
    pub current_locale: String,
    /// Available locales.
    pub available_locales: Vec<String>,
}

/// The texts of a list of strings.
pub open spec fn string_texts(v: Seq<String>) -> Seq<Seq<char>> {
    v.map_values(|s: String| s@)
}

impl Default for LocaleSettings {
    /// English is current; English and Russian are offered.
    fn default() -> (s: Self)
        ensures
            s.current_locale@ == "en-US"@,
            string_texts(s.available_locales@) == seq!["en-US"@, "ru-RU"@],
    {
        let s = Self {
            current_locale: owned("en-US"),
            available_locales: vec![owned("en-US"), owned("ru-RU")],
        };
        assert(string_texts(s.available_locales@) =~= seq!["en-US"@, "ru-RU"@]);
        s
    }
}

/// Whether a list of locales holds `tag`.
fn offers(list: &Vec<String>, tag: &str) -> (b: bool)
    ensures
        b == string_texts(list@).contains(tag@),
{
    let mut i: usize = 0;
    while i < list.len()
        invariant
            i <= list@.len(),
            forall|j: int| 0 <= j < i ==> list@[j]@ != tag@,
        decreases list@.len() - i,
    {
        if str_eq(list[i].as_str(), tag) {
            assert(string_texts(list@)[i as int] == tag@);
            return true;
        }
        i = i + 1;
    }
    proof {
        if string_texts(list@).contains(tag@) {
            let k = choose|k: int| 0 <= k < list@.len() && string_texts(list@)[k] == tag@;
            assert(list@[k]@ == tag@);
        }
    }
    false
}

impl LocaleSettings {
    /// Switch to the locale whose tag parsed to `parsed` (none when it did
    /// not parse): an unparsable tag is invalid, a locale not offered is
    /// unsupported, and either error leaves the settings as they were.
    pub fn set_parsed_locale(&mut self, locale: &str, parsed: Option<String>) -> (r: Result<
        (),
        LocaleError,
    >)
        ensures
            match parsed {
                None => r matches Err(LocaleError::InvalidLocale(t)) && t@ == locale@
                    && final(self).current_locale == old(self).current_locale,
                Some(c) => if string_texts(old(self).available_locales@).contains(c@) {
                    r is Ok && final(self).current_locale@ == c@
                } else {
                    r matches Err(LocaleError::UnsupportedLocale(t)) && t@ == locale@
                        && final(self).current_locale == old(self).current_locale
                },
            },
            final(self).available_locales == old(self).available_locales,
    {
        match parsed {
            None => Err(LocaleError::InvalidLocale(owned(locale))),
            Some(c) => {
                if offers(&self.available_locales, c.as_str()) {
                    self.current_locale = c;
                    Ok(())
                } else {
                    Err(LocaleError::UnsupportedLocale(owned(locale)))
                }
            },
        }
    }

    /// Set the current locale from a tag such as "ru-RU".
    pub fn set_locale(&mut self, locale: &str) -> (r: Result<(), LocaleError>)
        ensures
            match canonical_locale(locale@) {
                None => r matches Err(LocaleError::InvalidLocale(t)) && t@ == locale@
                    && final(self).current_locale == old(self).current_locale,
                Some(c) => if string_texts(old(self).available_locales@).contains(c) {
                    r is Ok && final(self).current_locale@ == c
                } else {
                    r matches Err(LocaleError::UnsupportedLocale(t)) && t@ == locale@
                        && final(self).current_locale == old(self).current_locale
                },
            },
            final(self).available_locales == old(self).available_locales,
    {
        let parsed = canonical_tag(locale);
        self.set_parsed_locale(locale, parsed)
    }

    /// Get locale display name.
    pub fn locale_display_name(locale: &str) -> (s: &'static str)
        ensures
            s@ == if locale@ == "en-US"@ {
                "English"@
            } else if locale@ == "ru-RU"@ {
                "Русский"@
            } else {
                "Unknown"@
            },
    {
        if str_eq(locale, "en-US") {
            "English"
        } else if str_eq(locale, "ru-RU") {
            "Русский"
        } else {
            "Unknown"
        }
    }
}

/// The texts of a list of string pairs.
pub open spec fn pair_texts(v: Seq<(&str, &str)>) -> Seq<(Seq<char>, Seq<char>)> {
    v.map_values(|p: (&str, &str)| (p.0@, p.1@))
}

/// The built-in English strings, by key.
pub open spec fn english_table() -> Seq<(Seq<char>, Seq<char>)> {
    seq![
        ("ui-dungeon-title"@, " Dungeon "@),
        ("ui-messages-title"@, " Messages "@),
        ("ui-status-title"@, " Status "@),
        ("ui-controls-title"@, " Controls "@),
        ("ui-look-title"@, " Look "@),
        ("ui-inventory-title"@, " Inventory "@),
        ("ui-hp-label"@, "HP"@),
        ("ui-floor-label"@, "Floor"@),
        ("ui-gold-label"@, "Gold"@),
        ("ui-look-mode-header"@, "-- LOOK MODE --"@),
        ("ui-position-label"@, "Position"@),
        ("ui-tile-label"@, "Tile"@),
        ("ui-not-in-view"@, "Not in view"@),
        ("ui-unexplored"@, "Unexplored"@),
        ("tile-wall"@, "Wall"@),
        ("tile-floor"@, "Floor"@),
        ("tile-door"@, "Door"@),
        ("tile-stairs-down"@, "Stairs Down"@),
        ("tile-stairs-up"@, "Stairs Up"@),
        ("ctrl-move"@, "hjkl/arrows: Move"@),
        ("ctrl-move-cursor"@, "hjkl/arrows: Move cursor"@),
        ("ctrl-wait"@, ".: Wait"@),
        ("ctrl-look"@, "x: Look mode"@),
        ("ctrl-select"@, "Enter/Space: Select"@),
        ("ctrl-exit-look"@, "x/Esc: Exit look mode"@),
        ("ctrl-inventory"@, "i: Inventory"@),
        ("ctrl-quit"@, "q: Quit"@),
        ("inv-empty"@, "Your inventory is empty."@),
        ("inv-close-hint"@, "Press 'i' or Esc to close."@),
        ("combat-bump-wall"@, "You bump into a wall."@),
        ("combat-fumble"@, "{$attacker} swings wildly at {$defender} but completely misses!"@),
        ("combat-critical"@, "{$attacker} lands a CRITICAL HIT on {$defender}! {$damage} {$type} damage!"@),
        ("combat-hit"@, "{$attacker} hits {$defender} for {$damage} {$type} damage."@),
        ("combat-miss"@, "{$attacker} attacks {$defender} but misses. ({$roll} vs AC {$ac})"@),
        ("combat-slain"@, "{$target} is slain!"@),
        ("entity-you"@, "You"@),
        ("entity-you-lowercase"@, "you"@),
        ("entity-something"@, "Something"@),
        ("entity-something-lowercase"@, "something"@),
    ]
}

/// The built-in Russian strings, by key.
pub open spec fn russian_table() -> Seq<(Seq<char>, Seq<char>)> {
    seq![
        ("ui-dungeon-title"@, " Подземелье "@),
        ("ui-messages-title"@, " Сообщения "@),
        ("ui-status-title"@, " Статус "@),
        ("ui-controls-title"@, " Управление "@),
        ("ui-look-title"@, " Осмотр "@),
        ("ui-inventory-title"@, " Инвентарь "@),
        ("ui-hp-label"@, "ОЗ"@),
        ("ui-floor-label"@, "Этаж"@),
        ("ui-gold-label"@, "Золото"@),
        ("ui-look-mode-header"@, "-- РЕЖИМ ОСМОТРА --"@),
        ("ui-position-label"@, "Позиция"@),
        ("ui-tile-label"@, "Клетка"@),
        ("ui-not-in-view"@, "Не видно"@),
        ("ui-unexplored"@, "Неизведано"@),
        ("tile-wall"@, "Стена"@),
        ("tile-floor"@, "Пол"@),
        ("tile-door"@, "Дверь"@),
        ("tile-stairs-down"@, "Лестница вниз"@),
        ("tile-stairs-up"@, "Лестница вверх"@),
        ("ctrl-move"@, "hjkl/стрелки: Движение"@),
        ("ctrl-move-cursor"@, "hjkl/стрелки: Курсор"@),
        ("ctrl-wait"@, ".: Ждать"@),
        ("ctrl-look"@, "x: Осмотр"@),
        ("ctrl-select"@, "Enter/Пробел: Выбрать"@),
        ("ctrl-exit-look"@, "x/Esc: Выйти из осмотра"@),
        ("ctrl-inventory"@, "i: Инвентарь"@),
        ("ctrl-quit"@, "q: Выход"@),
        ("inv-empty"@, "Ваш инвентарь пуст."@),
        ("inv-close-hint"@, "Нажмите 'i' или Esc чтобы закрыть."@),
        ("combat-bump-wall"@, "Вы врезались в стену."@),
        ("combat-fumble"@, "{$attacker} промахивается по {$defender}!"@),
        ("combat-critical"@, "{$attacker} наносит КРИТИЧЕСКИЙ УДАР по {$defender}! {$damage} ед. урона ({$type})!"@),
        ("combat-hit"@, "{$attacker} попадает по {$defender}: {$damage} ед. урона ({$type})."@),
        ("combat-miss"@, "{$attacker} атакует {$defender}, но промахивается. ({$roll} против КЗ {$ac})"@),
        ("combat-slain"@, "{$target} повержен!"@),
        ("entity-you"@, "Вы"@),
        ("entity-you-lowercase"@, "вас"@),
        ("entity-something"@, "Нечто"@),
        ("entity-something-lowercase"@, "нечто"@),
    ]
}

/// The built-in English strings.
fn english_pairs() -> (r: Vec<(&'static str, &'static str)>)
    ensures
        pair_texts(r@) == english_table(),
{
    let r = vec![
        ("ui-dungeon-title", " Dungeon "),
        ("ui-messages-title", " Messages "),
        ("ui-status-title", " Status "),
        ("ui-controls-title", " Controls "),
        ("ui-look-title", " Look "),
        ("ui-inventory-title", " Inventory "),
        ("ui-hp-label", "HP"),
        ("ui-floor-label", "Floor"),
        ("ui-gold-label", "Gold"),
        ("ui-look-mode-header", "-- LOOK MODE --"),
        ("ui-position-label", "Position"),
        ("ui-tile-label", "Tile"),
        ("ui-not-in-view", "Not in view"),
        ("ui-unexplored", "Unexplored"),
        ("tile-wall", "Wall"),
        ("tile-floor", "Floor"),
        ("tile-door", "Door"),
        ("tile-stairs-down", "Stairs Down"),
        ("tile-stairs-up", "Stairs Up"),
        ("ctrl-move", "hjkl/arrows: Move"),
        ("ctrl-move-cursor", "hjkl/arrows: Move cursor"),
        ("ctrl-wait", ".: Wait"),
        ("ctrl-look", "x: Look mode"),
        ("ctrl-select", "Enter/Space: Select"),
        ("ctrl-exit-look", "x/Esc: Exit look mode"),
        ("ctrl-inventory", "i: Inventory"),
        ("ctrl-quit", "q: Quit"),
        ("inv-empty", "Your inventory is empty."),
        ("inv-close-hint", "Press 'i' or Esc to close."),
        ("combat-bump-wall", "You bump into a wall."),
        ("combat-fumble", "{$attacker} swings wildly at {$defender} but completely misses!"),
        ("combat-critical", "{$attacker} lands a CRITICAL HIT on {$defender}! {$damage} {$type} damage!"),
        ("combat-hit", "{$attacker} hits {$defender} for {$damage} {$type} damage."),
        ("combat-miss", "{$attacker} attacks {$defender} but misses. ({$roll} vs AC {$ac})"),
        ("combat-slain", "{$target} is slain!"),
        ("entity-you", "You"),
        ("entity-you-lowercase", "you"),
        ("entity-something", "Something"),
        ("entity-something-lowercase", "something"),
    ];
    assert(pair_texts(r@) =~= english_table());
    r
}

/// The built-in Russian strings.
fn russian_pairs() -> (r: Vec<(&'static str, &'static str)>)
    ensures
        pair_texts(r@) == russian_table(),
{
    let r = vec![
        ("ui-dungeon-title", " Подземелье "),
        ("ui-messages-title", " Сообщения "),
        ("ui-status-title", " Статус "),
        ("ui-controls-title", " Управление "),
        ("ui-look-title", " Осмотр "),
        ("ui-inventory-title", " Инвентарь "),
        ("ui-hp-label", "ОЗ"),
        ("ui-floor-label", "Этаж"),
        ("ui-gold-label", "Золото"),
        ("ui-look-mode-header", "-- РЕЖИМ ОСМОТРА --"),
        ("ui-position-label", "Позиция"),
        ("ui-tile-label", "Клетка"),
        ("ui-not-in-view", "Не видно"),
        ("ui-unexplored", "Неизведано"),
        ("tile-wall", "Стена"),
        ("tile-floor", "Пол"),
        ("tile-door", "Дверь"),
        ("tile-stairs-down", "Лестница вниз"),
        ("tile-stairs-up", "Лестница вверх"),
        ("ctrl-move", "hjkl/стрелки: Движение"),
        ("ctrl-move-cursor", "hjkl/стрелки: Курсор"),
        ("ctrl-wait", ".: Ждать"),
        ("ctrl-look", "x: Осмотр"),
        ("ctrl-select", "Enter/Пробел: Выбрать"),
        ("ctrl-exit-look", "x/Esc: Выйти из осмотра"),
        ("ctrl-inventory", "i: Инвентарь"),
        ("ctrl-quit", "q: Выход"),
        ("inv-empty", "Ваш инвентарь пуст."),
        ("inv-close-hint", "Нажмите 'i' или Esc чтобы закрыть."),
        ("combat-bump-wall", "Вы врезались в стену."),
        ("combat-fumble", "{$attacker} промахивается по {$defender}!"),
        ("combat-critical", "{$attacker} наносит КРИТИЧЕСКИЙ УДАР по {$defender}! {$damage} ед. урона ({$type})!"),
        ("combat-hit", "{$attacker} попадает по {$defender}: {$damage} ед. урона ({$type})."),
        ("combat-miss", "{$attacker} атакует {$defender}, но промахивается. ({$roll} против КЗ {$ac})"),
        ("combat-slain", "{$target} повержен!"),
        ("entity-you", "Вы"),
        ("entity-you-lowercase", "вас"),
        ("entity-something", "Нечто"),
        ("entity-something-lowercase", "нечто"),
    ];
    assert(pair_texts(r@) =~= russian_table());
    r
}

/// A pair whose key is `key`.
pub open spec fn keyed(key: Seq<char>) -> spec_fn((Seq<char>, Seq<char>)) -> bool {
    |p: (Seq<char>, Seq<char>)| p.0 == key
}

/// The value of the first pair with key `key`.
pub open spec fn lookup(pairs: Seq<(Seq<char>, Seq<char>)>, key: Seq<char>) -> Option<Seq<char>> {
    match first_where(pairs, keyed(key)) {
        Some(p) => Some(p.1),
        None => None,
    }
}

/// The built-in English text of a key, or the key in brackets.
pub open spec fn fallback_text(key: Seq<char>) -> Seq<char> {
    match lookup(english_table(), key) {
        Some(v) => v,
        None => "["@ + key + "]"@,
    }
}

/// A text with each `{$name}` placeholder of `args` replaced by its
/// value, one argument after the other.
pub open spec fn substituted(text: Seq<char>, args: Seq<(Seq<char>, Seq<char>)>) -> Seq<char>
    decreases args.len(),
{
    if args.len() == 0 {
        text
    } else {
        replace_all(
            substituted(text, args.drop_last()),
            "{$"@ + args.last().0 + "}"@,
            args.last().1,
        )
    }
}

/// The first value of `key` among string pairs.
fn find_pair(pairs: &Vec<(String, String)>, key: &str) -> (r: Option<String>)
    ensures
        match r {
            Some(v) => lookup(pairs@.map_values(|p: (String, String)| (p.0@, p.1@)), key@)
                == Some(v@),
            None => lookup(pairs@.map_values(|p: (String, String)| (p.0@, p.1@)), key@) is None,
        },
{
    let ghost s = pairs@.map_values(|p: (String, String)| (p.0@, p.1@));
    proof {
        lemma_first_where_ends(s, keyed(key@));
    }
    let mut i: usize = 0;
    while i < pairs.len()
        invariant
            i <= pairs@.len(),
            s == pairs@.map_values(|p: (String, String)| (p.0@, p.1@)),
            first_where(s, keyed(key@)) == first_where(s.subrange(i as int, s.len() as int), keyed(key@)),
        decreases pairs@.len() - i,
    {
        proof {
            lemma_first_where_step(s, keyed(key@), i as int);
        }
        if str_eq(pairs[i].0.as_str(), key) {
            return Some(pairs[i].1.clone());
        }
        i = i + 1;
    }
    proof {
        lemma_first_where_ends(s, keyed(key@));
    }
    None
}

/// The first value of `key` in a built-in table.
fn find_builtin(pairs: &Vec<(&'static str, &'static str)>, key: &str) -> (r: Option<&'static str>)
    ensures
        match r {
            Some(v) => lookup(pair_texts(pairs@), key@) == Some(v@),
            None => lookup(pair_texts(pairs@), key@) is None,
        },
{
    let ghost s = pair_texts(pairs@);
    proof {
        lemma_first_where_ends(s, keyed(key@));
    }
    let mut i: usize = 0;
    while i < pairs.len()
        invariant
            i <= pairs@.len(),
            s == pair_texts(pairs@),
            first_where(s, keyed(key@)) == first_where(s.subrange(i as int, s.len() as int), keyed(key@)),
        decreases pairs@.len() - i,
    {
        proof {
            lemma_first_where_step(s, keyed(key@), i as int);
        }
        if str_eq(pairs[i].0, key) {
            return Some(pairs[i].1);
        }
        i = i + 1;
    }
    proof {
        lemma_first_where_ends(s, keyed(key@));
    }
    None
}

/// Resource for accessing localized strings, with a fallback to English
/// and the bracketed key when a string is missing.
#[derive(Debug, Clone)]
pub struct Localization {
    /// Translations for the current locale.
    translations: Vec<(String, String)>,
    /// Whether translations have been loaded.
    loaded: bool,
}

impl View for Localization {
    /// The loaded strings by key, and whether a locale was loaded.
    type V = (Seq<(Seq<char>, Seq<char>)>, bool);

    closed spec fn view(&self) -> (Seq<(Seq<char>, Seq<char>)>, bool) {
        (self.translations@.map_values(|p: (String, String)| (p.0@, p.1@)), self.loaded)
    }
}

/// The text of a key: its translation when loaded, else the fallback.
pub open spec fn localized(strings: Seq<(Seq<char>, Seq<char>)>, key: Seq<char>) -> Seq<char> {
    match lookup(strings, key) {
        Some(v) => v,
        None => fallback_text(key),
    }
}

impl Default for Localization {
    fn default() -> (l: Self)
        ensures
            l@.0 == Seq::<(Seq<char>, Seq<char>)>::empty(),
            !l@.1,
    {
        let l = Self { translations: Vec::new(), loaded: false };
        assert(l@.0 =~= Seq::<(Seq<char>, Seq<char>)>::empty());
        l
    }
}

impl Localization {
    /// Whether a locale's strings were loaded.
    pub fn is_loaded(&self) -> (b: bool)
        ensures
            b == self@.1,
    {
        self.loaded
    }

    /// Get a localized string by key; a missing one comes from the
    /// built-in English strings, or is the key in brackets.
    pub fn get(&self, key: &str) -> (s: String)
        ensures
            s@ == localized(self@.0, key@),
    {
        match find_pair(&self.translations, key) {
            Some(v) => v,
            None => self.fallback(key),
        }
    }

    /// Get a localized string with each `{$name}` placeholder replaced by
    /// the value given for `name`, in the order the arguments come.
    pub fn get_with_args(&self, key: &str, args: &[(&str, &str)]) -> (s: String)
        ensures
            s@ == substituted(
                localized(self@.0, key@),
                args@.map_values(|p: (&str, &str)| (p.0@, p.1@)),
            ),
    {
        let ghost a = args@.map_values(|p: (&str, &str)| (p.0@, p.1@));
        let mut result = self.get(key);
        let mut i: usize = 0;
        while i < args.len()
            invariant
                i <= args@.len(),
                a == args@.map_values(|p: (&str, &str)| (p.0@, p.1@)),
                result@ == substituted(localized(self@.0, key@), a.take(i as int)),
            decreases args@.len() - i,
        {
            let (var, value) = args[i];
            let mut placeholder = owned("{$");
            placeholder.append(var);
            placeholder.append("}");
            proof {
                reveal_strlit("{$");
                assert(placeholder@.len() > 0);
                assert(a.take(i + 1).drop_last() =~= a.take(i as int));
            }
            result = str_replace(result.as_str(), placeholder.as_str(), value);
            i = i + 1;
        }
        proof {
            assert(a.take(args@.len() as int) =~= a);
        }
        result
    }

    /// Fallback for missing translations: the built-in English text, or
    /// the key in brackets.
    fn fallback(&self, key: &str) -> (s: String)
        ensures
            s@ == fallback_text(key@),
    {
        match find_builtin(&english_pairs(), key) {
            Some(v) => owned(v),
            None => {
                let mut s = owned("[");
                s.append(key);
                s.append("]");
                s
            },
        }
    }

    /// Load the built-in strings of a locale (canonical tag): Russian for
    /// "ru-RU", English otherwise.
    pub fn load_defaults(&mut self, locale: &str)
        ensures
            final(self)@.0 == if locale@ == "ru-RU"@ {
                russian_table()
            } else {
                english_table()
            },
            final(self)@.1,
    {
        let table = if str_eq(locale, "ru-RU") {
            russian_pairs()
        } else {
            english_pairs()
        };
        let mut t: Vec<(String, String)> = Vec::new();
        let mut i: usize = 0;
        while i < table.len()
            invariant
                i <= table@.len(),
                t@.map_values(|p: (String, String)| (p.0@, p.1@)) == pair_texts(table@).take(i as int),
            decreases table@.len() - i,
        {
            let (k, v) = table[i];
            let ghost before = t@;
            let pair = (owned(k), owned(v));
            t.push(pair);
            proof {
                assert(pair_texts(table@)[i as int] == (k@, v@));
                assert(t@.map_values(|p: (String, String)| (p.0@, p.1@)) =~= before.map_values(
                    |p: (String, String)| (p.0@, p.1@),
                ).push((k@, v@)));
                assert(pair_texts(table@).take(i + 1) =~= pair_texts(table@).take(i as int).push(
                    (k@, v@),
                ));
            }
            i = i + 1;
        }
        proof {
            assert(pair_texts(table@).take(table@.len() as int) =~= pair_texts(table@));
        }
        self.translations = t;
        self.loaded = true;
    }
}

/// The built-in fallback is the English table: every key reads the same
/// before any locale is loaded as after the English strings are loaded,
/// its English text where the table has the key and the key in brackets
/// where it has not.
pub proof fn lemma_fallback_is_english(key: Seq<char>)
    ensures
        localized(Seq::empty(), key) == localized(english_table(), key),
        localized(english_table(), key) == match lookup(english_table(), key) {
            Some(v) => v,
            None => "["@ + key + "]"@,
        },
{
    lemma_fallback_and_plain_text(key, Seq::empty());
}

/// Before any locale is loaded every key reads as its built-in English
/// fallback, and substituting no arguments leaves a text as it is.
pub proof fn lemma_fallback_and_plain_text(key: Seq<char>, text: Seq<char>)
    ensures
        localized(Seq::empty(), key) == fallback_text(key),
        substituted(text, Seq::empty()) == text,
{
    lemma_first_where_ends(Seq::<(Seq<char>, Seq<char>)>::empty(), keyed(key));
    assert(Seq::<(Seq<char>, Seq<char>)>::empty().subrange(0, 0) =~= Seq::<(Seq<char>, Seq<char>)>::empty());
}

} // verus!
