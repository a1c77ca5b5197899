//! Theme selection at run time: the registered themes by name, the theme
//! preferences, the events that changes give rise to and the requests to
//! save the preferences. The front end delivers the events to its listeners
//! and writes the preferences where it keeps them.

use vstd::prelude::*;
use vstd::string::*;
use crate::assoc::{
    fold_pairs, lemma_fold_absent, lemma_fold_dom, lemma_fold_lookup, lemma_fold_push, lemma_fold_remove,
    lemma_push_unique, unique_keys,
};
use crate::text::{str_eq, strings_view, text_contains, text_contains_spec};
use crate::theme::{is_dark_theme, is_high_contrast_theme, is_light_theme, variant_name, AppTheme, ThemeVariant};

verus! {

/// The theme preferences.
#[derive(Debug, Clone)]
pub struct ThemePreference {
    pub current_theme: String,
    pub auto_switch: bool,
    pub light_theme: String,
    pub dark_theme: String,
    pub high_contrast_mode: bool,
    pub custom_themes: Vec<String>,
    pub follow_system: bool,
}

/// The theme preferences with their texts as character sequences.
pub struct PreferenceView {
    pub current_theme: Seq<char>,
    pub auto_switch: bool,
    pub light_theme: Seq<char>,
    pub dark_theme: Seq<char>,
    pub high_contrast_mode: bool,
    pub custom_themes: Seq<Seq<char>>,
    pub follow_system: bool,
}

impl View for ThemePreference {
    type V = PreferenceView;

    open spec fn view(&self) -> PreferenceView {
        PreferenceView {
            current_theme: self.current_theme@,
            auto_switch: self.auto_switch,
            light_theme: self.light_theme@,
            dark_theme: self.dark_theme@,
            high_contrast_mode: self.high_contrast_mode,
            custom_themes: self.custom_themes@.map_values(|s: String| s@),
            follow_system: self.follow_system,
        }
    }
}

/// The default preferences: the dark theme, `light` and `dark` as the light
/// and dark themes, nothing automatic.
pub open spec fn default_preferences() -> PreferenceView {
    PreferenceView {
        current_theme: "dark"@,
        auto_switch: false,
        light_theme: "light"@,
        dark_theme: "dark"@,
        high_contrast_mode: false,
        custom_themes: Seq::empty(),
        follow_system: false,
    }
}

impl Default for ThemePreference {
    fn default() -> (r: Self)
        ensures
            r@ == default_preferences(),
    {
        let r = ThemePreference {
            current_theme: "dark".to_owned(),
            auto_switch: false,
            light_theme: "light".to_owned(),
            dark_theme: "dark".to_owned(),
            high_contrast_mode: false,
            custom_themes: Vec::new(),
            follow_system: false,
        };
        assert(r.custom_themes@.map_values(|s: String| s@) =~= Seq::<Seq<char>>::empty());
        r
    }
}

/// What changed in the theme system.
#[derive(Debug, Clone)]
pub enum ThemeEvent {
    ThemeChanged { old_theme: String, new_theme: String },
    ThemeLoaded { theme_name: String },
    ThemeRegistered { theme_name: String },
    ThemeUnregistered { theme_name: String },
    PreferencesChanged,
    SystemThemeChanged { is_dark: bool },
    HighContrastToggled { enabled: bool },
}

/// A theme event with its texts as character sequences.
pub enum ThemeEventView {
    ThemeChanged { old_theme: Seq<char>, new_theme: Seq<char> },
    ThemeLoaded { theme_name: Seq<char> },
    ThemeRegistered { theme_name: Seq<char> },
    ThemeUnregistered { theme_name: Seq<char> },
    PreferencesChanged,
    SystemThemeChanged { is_dark: bool },
    HighContrastToggled { enabled: bool },
}

impl View for ThemeEvent {
    type V = ThemeEventView;

    open spec fn view(&self) -> ThemeEventView {
        match self {
            ThemeEvent::ThemeChanged { old_theme, new_theme } => ThemeEventView::ThemeChanged {
                old_theme: old_theme@,
                new_theme: new_theme@,
            },
            ThemeEvent::ThemeLoaded { theme_name } => ThemeEventView::ThemeLoaded { theme_name: theme_name@ },
            ThemeEvent::ThemeRegistered { theme_name } => ThemeEventView::ThemeRegistered { theme_name: theme_name@ },
            ThemeEvent::ThemeUnregistered { theme_name } => ThemeEventView::ThemeUnregistered {
                theme_name: theme_name@,
            },
            ThemeEvent::PreferencesChanged => ThemeEventView::PreferencesChanged,
            ThemeEvent::SystemThemeChanged { is_dark } => ThemeEventView::SystemThemeChanged { is_dark: *is_dark },
            ThemeEvent::HighContrastToggled { enabled } => ThemeEventView::HighContrastToggled { enabled: *enabled },
        }
    }
}

/// The views of a sequence of events.
pub open spec fn events_of(s: Seq<ThemeEvent>) -> Seq<ThemeEventView> {
    s.map_values(|e: ThemeEvent| e@)
}

/// The faults of the theme system.
#[derive(Debug, Clone, PartialEq, Eq)]
pub enum ThemeError {
    ThemeNotFound(String),
    ThemeAlreadyExists(String),
    CannotRemoveDefaultTheme(String),
    NoThemesAvailable,
    FileError(String),
    SerializationError(String),
}

/// The message of a fault.
pub open spec fn theme_error_message(e: ThemeError) -> Seq<char> {
    match e {
        ThemeError::ThemeNotFound(name) => "Theme '"@ + name@ + "' not found"@,
        ThemeError::ThemeAlreadyExists(name) => "Theme '"@ + name@ + "' already exists"@,
        ThemeError::CannotRemoveDefaultTheme(name) => "Cannot remove default theme '"@ + name@ + "'"@,
        ThemeError::NoThemesAvailable => "No themes available"@,
        ThemeError::FileError(msg) => "File error: "@ + msg@,
        ThemeError::SerializationError(msg) => "Serialization error: "@ + msg@,
    }
}

fn concat2(a: &str, b: &str) -> (r: String)
    ensures
        r@ == a@ + b@,
{
    let mut s = a.to_owned();
    s.append(b);
    s
}

impl ThemeError {
    /// The message of the fault.
    pub fn to_string(&self) -> (r: String)
        ensures
            r@ == theme_error_message(*self),
    {
        match self {
            ThemeError::ThemeNotFound(name) => {
                let s = concat2("Theme '", name.as_str());
                concat2(s.as_str(), "' not found")
            },
            ThemeError::ThemeAlreadyExists(name) => {
                let s = concat2("Theme '", name.as_str());
                concat2(s.as_str(), "' already exists")
            },
            ThemeError::CannotRemoveDefaultTheme(name) => {
                let s = concat2("Cannot remove default theme '", name.as_str());
                concat2(s.as_str(), "'")
            },
            ThemeError::NoThemesAvailable => "No themes available".to_owned(),
            ThemeError::FileError(msg) => concat2("File error: ", msg.as_str()),
            ThemeError::SerializationError(msg) => concat2("Serialization error: ", msg.as_str()),
        }
    }
}

/// The names and themes of a registry's entries.
pub open spec fn named_themes(s: Seq<(String, AppTheme)>) -> Seq<(Seq<char>, AppTheme)> {
    s.map_values(|p: (String, AppTheme)| (p.0@, p.1))
}

/// Whether the preset themes are registered under their names.
pub open spec fn has_presets(m: Map<Seq<char>, AppTheme>) -> bool {
    &&& m.contains_key("light"@) && is_light_theme(m["light"@])
    &&& m.contains_key("dark"@) && is_dark_theme(m["dark"@])
    &&& m.contains_key("high_contrast"@) && is_high_contrast_theme(m["high_contrast"@])
}

/// Whether a name is one of the preset themes' names.
pub open spec fn is_preset_name(name: Seq<char>) -> bool {
    name == "light"@ || name == "dark"@ || name == "high_contrast"@
}

/// Themes by name in the order they were registered. It is well formed
/// when each name occurs once and the presets are among them.
struct ThemeRegistry {
    entries: Vec<(String, AppTheme)>,
}

impl ThemeRegistry {
    spec fn inv(&self) -> bool {
        &&& unique_keys(named_themes(self.entries@))
        &&& has_presets(fold_pairs(named_themes(self.entries@)))
    }

    closed spec fn map_view(&self) -> Map<Seq<char>, AppTheme> {
        fold_pairs(named_themes(self.entries@))
    }

    closed spec fn names_view(&self) -> Seq<Seq<char>> {
        named_themes(self.entries@).map_values(|p: (Seq<char>, AppTheme)| p.0)
    }

    proof fn lemma_facts(&self)
        requires
            self.inv(),
        ensures
            has_presets(self.map_view()),
            self.names_view().no_duplicates(),
            self.map_view().dom() == self.names_view().to_set(),
            self.names_view().len() >= 2,
    {
        let s = named_themes(self.entries@);
        let n = self.names_view();
        assert(n.no_duplicates()) by {
            assert forall|i: int, j: int| 0 <= i < n.len() && 0 <= j < n.len() && i != j implies n[i] != n[j] by {
                if i < j {
                    assert(s[i].0 != s[j].0);
                } else {
                    assert(s[j].0 != s[i].0);
                }
            }
        }
        assert forall|k: Seq<char>| self.map_view().contains_key(k) <==> n.to_set().contains(k) by {
            lemma_fold_dom(s, k);
            if self.map_view().contains_key(k) {
                let i = choose|i: int| 0 <= i < s.len() && s[i].0 == k;
                assert(n[i] == k);
            }
            if n.to_set().contains(k) {
                let i = choose|i: int| 0 <= i < n.len() && n[i] == k;
                assert(s[i].0 == k);
            }
        }
        assert(self.map_view().dom() =~= n.to_set());
        lemma_fold_dom(s, "light"@);
        lemma_fold_dom(s, "dark"@);
        let i = choose|i: int| 0 <= i < s.len() && s[i].0 == "light"@;
        let j = choose|i: int| 0 <= i < s.len() && s[i].0 == "dark"@;
        assert("light"@ != "dark"@) by {
            reveal_strlit("light");
            reveal_strlit("dark");
            assert("light"@.len() != "dark"@.len());
        }
        assert(i != j);
    }

    fn with_presets() -> (r: Self)
        ensures
            r.map_view() == map![
                "light"@ => r.map_view()["light"@],
                "dark"@ => r.map_view()["dark"@],
                "high_contrast"@ => r.map_view()["high_contrast"@],
            ],
            r.names_view() == seq!["light"@, "dark"@, "high_contrast"@],
            has_presets(r.map_view()),
            r.inv(),
    {
        let mut entries: Vec<(String, AppTheme)> = Vec::new();
        entries.push(("light".to_owned(), AppTheme::light()));
        entries.push(("dark".to_owned(), AppTheme::dark()));
        entries.push(("high_contrast".to_owned(), AppTheme::high_contrast()));
        let ghost s = named_themes(entries@);
        proof {
            reveal_strlit("light");
            reveal_strlit("dark");
            reveal_strlit("high_contrast");
            assert("light"@.len() == 5 && "dark"@.len() == 4 && "high_contrast"@.len() == 13);
            assert(unique_keys(s));
            lemma_fold_lookup(s, 0);
            lemma_fold_lookup(s, 1);
            lemma_fold_lookup(s, 2);
            assert forall|k: Seq<char>| fold_pairs(s).contains_key(k) implies k == "light"@ || k == "dark"@
                || k == "high_contrast"@ by {
                lemma_fold_dom(s, k);
            }
        }
        let r = ThemeRegistry { entries };
        assert(r.names_view() =~= seq!["light"@, "dark"@, "high_contrast"@]);
        assert(r.map_view() =~= map![
            "light"@ => r.map_view()["light"@],
            "dark"@ => r.map_view()["dark"@],
            "high_contrast"@ => r.map_view()["high_contrast"@],
        ]);
        r
    }

    fn find(&self, name: &str) -> (r: Option<usize>)
        requires
            self.inv(),
        ensures
            match r {
                Some(i) => i < self.entries@.len() && named_themes(self.entries@)[i as int].0 == name@
                    && self.map_view().contains_key(name@)
                    && self.map_view()[name@] == self.entries@[i as int].1,
                None => !self.map_view().contains_key(name@),
            },
    {
        let ghost s = named_themes(self.entries@);
        let mut i: usize = 0;
        while i < self.entries.len()
            invariant
                i <= self.entries@.len(),
                s == named_themes(self.entries@),
                unique_keys(s),
                forall|j: int| 0 <= j < i ==> s[j].0 != name@,
            decreases self.entries@.len() - i,
        {
            if str_eq(self.entries[i].0.as_str(), name) {
                proof {
                    lemma_fold_lookup(s, i as int);
                }
                return Some(i);
            }
            i += 1;
        }
        proof {
            lemma_fold_absent(s, name@);
        }
        None
    }

    fn get(&self, name: &str) -> (r: Option<&AppTheme>)
        requires
            self.inv(),
        ensures
            match r {
                Some(t) => self.map_view().contains_key(name@) && *t == self.map_view()[name@],
                None => !self.map_view().contains_key(name@),
            },
    {
        match self.find(name) {
            Some(i) => Some(&self.entries[i].1),
            None => None,
        }
    }

    fn names(&self) -> (r: Vec<String>)
        ensures
            strings_view(r@) == self.names_view(),
    {
        let mut out: Vec<String> = Vec::new();
        let mut i: usize = 0;
        while i < self.entries.len()
            invariant
                i <= self.entries@.len(),
                self.names_view().len() == self.entries@.len(),
                out@.len() == i,
                strings_view(out@) == self.names_view().take(i as int),
            decreases self.entries@.len() - i,
        {
            let ghost before = out@;
            let name = self.entries[i].0.clone();
            out.push(name);
            assert(out@ == before.push(name));
            assert(self.names_view()[i as int] == name@);
            assert forall|k: int| 0 <= k < i + 1 implies #[trigger] strings_view(out@)[k]
                == self.names_view().take(i + 1)[k] by {
                if k < i {
                    assert(out@[k] == before[k]);
                    assert(strings_view(before)[k] == self.names_view().take(i as int)[k]);
                }
            }
            assert(strings_view(out@) =~= self.names_view().take(i + 1));
            i += 1;
        }
        assert(self.names_view().take(i as int) =~= self.names_view());
        out
    }

    fn insert_new(&mut self, name: String, theme: AppTheme)
        requires
            old(self).inv(),
            !old(self).map_view().contains_key(name@),
        ensures
            final(self).inv(),
            final(self).map_view() == old(self).map_view().insert(name@, theme),
            final(self).names_view() == old(self).names_view().push(name@),
    {
        let ghost s = named_themes(self.entries@);
        let ghost n = name@;
        proof {
            assert forall|i: int| 0 <= i < s.len() implies s[i].0 != n by {
                if s[i].0 == n {
                    lemma_fold_lookup(s, i);
                }
            }
            lemma_fold_push(s, (n, theme));
            lemma_push_unique(s, (n, theme));
        }
        proof {
            assert("light"@ != n && "dark"@ != n && "high_contrast"@ != n);
            assert(named_themes(self.entries@.push((name, theme))) =~= s.push((n, theme)));
        }
        self.entries.push((name, theme));
        assert(self.names_view() =~= old(self).names_view().push(n));
    }

    fn remove(&mut self, name: &str) -> (r: bool)
        requires
            old(self).inv(),
            !is_preset_name(name@),
        ensures
            final(self).inv(),
            r ==> exists|i: int| 0 <= i < old(self).names_view().len() && old(self).names_view()[i] == name@
                && final(self).names_view() == old(self).names_view().remove(i),
            !r ==> *final(self) == *old(self),
            r == old(self).map_view().contains_key(name@),
            final(self).map_view() == old(self).map_view().remove(name@),
    {
        let ghost s = named_themes(self.entries@);
        match self.find(name) {
            Some(i) => {
                proof {
                    lemma_fold_remove(s, i as int);
                    assert(named_themes(self.entries@.remove(i as int)) =~= s.remove(i as int));
                }
                self.entries.remove(i);
                assert(self.names_view() =~= old(self).names_view().remove(i as int));
                assert(old(self).names_view()[i as int] == name@);
                true
            },
            None => {
                assert(self.map_view() =~= self.map_view().remove(name@));
                false
            },
        }
    }
}

/// The theme reached by cycling from `cur`: the one after it in the list
/// of names, or the second when `cur` is not among them.
pub open spec fn cycle_target(names: Seq<Seq<char>>, cur: Seq<char>) -> Seq<char> {
    let i = if names.contains(cur) { names.index_of(cur) } else { 0 };
    names[(i + 1) % (names.len() as int)]
}

/// The theme that toggling between light and dark goes to from a variant.
pub open spec fn light_dark_target(p: PreferenceView, v: ThemeVariant) -> Seq<char> {
    match v {
        ThemeVariant::Light => p.dark_theme,
        ThemeVariant::Dark => p.light_theme,
        ThemeVariant::HighContrast => p.dark_theme,
        ThemeVariant::Custom(_) => p.light_theme,
    }
}

/// The theme that toggling high contrast goes to, given the new state of
/// the mode.
pub open spec fn high_contrast_target(p: PreferenceView, v: ThemeVariant, enabled: bool) -> Seq<char> {
    if enabled {
        "high_contrast"@
    } else {
        match v {
            ThemeVariant::HighContrast => p.dark_theme,
            _ => p.current_theme,
        }
    }
}

/// The theme manager: the current theme, the registered themes, the
/// preferences, the events not yet delivered and whether the preferences
/// are to be saved.
pub struct ThemeManager {
    current_theme: AppTheme,
    registry: ThemeRegistry,
    preferences: ThemePreference,
    events: Vec<ThemeEvent>,
    save_requested: bool,
}

impl ThemeManager {
    /// The registry holds each name once and the presets.
    pub closed spec fn wf(&self) -> bool {
        self.registry.inv()
    }

    /// The current theme.
    pub closed spec fn current_view(&self) -> AppTheme {
        self.current_theme
    }

    /// The registered themes by name.
    pub closed spec fn themes_view(&self) -> Map<Seq<char>, AppTheme> {
        self.registry.map_view()
    }

    /// The names of the registered themes, in the order they were registered.
    pub closed spec fn names_view(&self) -> Seq<Seq<char>> {
        self.registry.names_view()
    }

    /// The preferences.
    pub closed spec fn prefs_view(&self) -> PreferenceView {
        self.preferences@
    }

    /// The events not yet delivered, oldest first.
    pub closed spec fn events_view(&self) -> Seq<ThemeEventView> {
        events_of(self.events@)
    }

    /// Whether the preferences are to be saved.
    pub closed spec fn save_view(&self) -> bool {
        self.save_requested
    }

    /// What a well-formed manager holds: the presets, each name once, and at
    /// least two themes.
    pub proof fn lemma_wf(&self)
        requires
            self.wf(),
        ensures
            has_presets(self.themes_view()),
            self.names_view().no_duplicates(),
            self.themes_view().dom() == self.names_view().to_set(),
            self.names_view().len() >= 2,
    {
        self.registry.lemma_facts();
    }

    /// A manager with the preset themes `light`, `dark` and `high_contrast`,
    /// the dark theme current and the default preferences.
    pub fn new() -> (r: Self)
        ensures
            r.wf(),
            is_dark_theme(r.current_view()),
            r.names_view() == seq!["light"@, "dark"@, "high_contrast"@],
            r.themes_view().dom() == set!["light"@, "dark"@, "high_contrast"@],
            has_presets(r.themes_view()),
            r.prefs_view() == default_preferences(),
            r.events_view().len() == 0,
            !r.save_view(),
    {
        let r = ThemeManager {
            current_theme: AppTheme::dark(),
            registry: ThemeRegistry::with_presets(),
            preferences: ThemePreference::default(),
            events: Vec::new(),
            save_requested: false,
        };
        assert(r.themes_view().dom() =~= set!["light"@, "dark"@, "high_contrast"@]);
        assert(events_of(r.events@) =~= Seq::<ThemeEventView>::empty());
        r
    }

    /// The current theme.
    pub fn current_theme(&self) -> (r: &AppTheme)
        ensures
            *r == self.current_view(),
    {
        &self.current_theme
    }

    /// The preferences.
    pub fn preferences(&self) -> (r: &ThemePreference)
        ensures
            r@ == self.prefs_view(),
    {
        &self.preferences
    }

    fn emit_event(&mut self, event: ThemeEvent)
        ensures
            final(self).events_view() == old(self).events_view().push(event@),
            final(self).current_theme == old(self).current_theme,
            final(self).registry == old(self).registry,
            final(self).preferences == old(self).preferences,
            final(self).save_requested == old(self).save_requested,
    {
        let ghost e = event@;
        self.events.push(event);
        assert(events_of(self.events@) =~= events_of(old(self).events@).push(e));
    }

    /// Make the named theme current. It must be registered; the preferences
    /// then record it, a change event is emitted and a save requested.
    pub fn set_theme(&mut self, theme_name: &str) -> (r: Result<(), ThemeError>)
        requires
            old(self).wf(),
        ensures
            final(self).wf(),
            r is Ok <==> old(self).themes_view().contains_key(theme_name@),
            final(self).themes_view() == old(self).themes_view(),
            final(self).names_view() == old(self).names_view(),
            r is Ok ==> final(self).current_view() == old(self).themes_view()[theme_name@]
                && final(self).prefs_view() == (PreferenceView { current_theme: theme_name@, ..old(self).prefs_view() })
                && final(self).events_view() == old(self).events_view().push(ThemeEventView::ThemeChanged {
                    old_theme: old(self).prefs_view().current_theme,
                    new_theme: theme_name@,
                })
                && final(self).save_view(),
            r is Err ==> *final(self) == *old(self)
                && r->Err_0 == ThemeError::ThemeNotFound(r->Err_0->ThemeNotFound_0)
                && r->Err_0->ThemeNotFound_0@ == theme_name@,
    {
        let theme = match self.registry.get(theme_name) {
            Some(t) => t.clone(),
            None => {
                return Err(ThemeError::ThemeNotFound(theme_name.to_owned()));
            },
        };
        let old_theme = self.preferences.current_theme.clone();
        self.current_theme = theme;
        self.preferences.current_theme = theme_name.to_owned();
        self.emit_event(ThemeEvent::ThemeChanged { old_theme, new_theme: theme_name.to_owned() });
        self.save_requested = true;
        Ok(())
    }

    /// Whether a theme of that name is registered.
    pub fn has_theme(&self, name: &str) -> (r: bool)
        requires
            self.wf(),
        ensures
            r == self.themes_view().contains_key(name@),
    {
        self.registry.get(name).is_some()
    }

    /// The theme of that name, if registered.
    pub fn get_theme(&self, name: &str) -> (r: Option<&AppTheme>)
        requires
            self.wf(),
        ensures
            match r {
                Some(t) => self.themes_view().contains_key(name@) && *t == self.themes_view()[name@],
                None => !self.themes_view().contains_key(name@),
            },
    {
        self.registry.get(name)
    }

    /// The registered themes with their names, in the order they were
    /// registered.
    pub fn list_themes(&self) -> (r: Vec<(String, &AppTheme)>)
        requires
            self.wf(),
        ensures
            r@.len() == self.names_view().len(),
            forall|i: int| 0 <= i < r@.len() ==> #[trigger] r@[i].0@ == self.names_view()[i]
                && *r@[i].1 == self.themes_view()[self.names_view()[i]],
    {
        let ghost s = named_themes(self.registry.entries@);
        let mut out: Vec<(String, &AppTheme)> = Vec::new();
        let mut i: usize = 0;
        while i < self.registry.entries.len()
            invariant
                i <= self.registry.entries@.len(),
                s == named_themes(self.registry.entries@),
                unique_keys(s),
                out@.len() == i,
                self.names_view().len() == s.len(),
                forall|k: int| 0 <= k < i ==> #[trigger] out@[k].0@ == self.names_view()[k]
                    && *out@[k].1 == self.themes_view()[self.names_view()[k]],
            decreases self.registry.entries@.len() - i,
        {
            proof {
                lemma_fold_lookup(s, i as int);
            }
            let entry = &self.registry.entries[i];
            out.push((entry.0.clone(), &entry.1));
            i += 1;
        }
        out
    }

    /// Make the next registered theme current: the one after the current
    /// theme's name, or the second when the current name is not registered.
    /// With at least two themes always registered, the current name changes.
    pub fn cycle_theme(&mut self) -> (r: Result<(), ThemeError>)
        requires
            old(self).wf(),
        ensures
            final(self).wf(),
            r is Ok,
            final(self).prefs_view().current_theme == cycle_target(
                old(self).names_view(),
                old(self).prefs_view().current_theme,
            ),
            final(self).prefs_view().current_theme != old(self).prefs_view().current_theme,
            final(self).current_view() == old(self).themes_view()[final(self).prefs_view().current_theme],
            final(self).themes_view() == old(self).themes_view(),
            final(self).names_view() == old(self).names_view(),
            final(self).events_view() == old(self).events_view().push(ThemeEventView::ThemeChanged {
                old_theme: old(self).prefs_view().current_theme,
                new_theme: final(self).prefs_view().current_theme,
            }),
    {
        proof {
            self.lemma_wf();
        }
        let names = self.registry.names();
        let ghost nv = self.names_view();
        let ghost cur = self.preferences.current_theme@;
        if names.len() == 0 {
            return Err(ThemeError::NoThemesAvailable);
        }
        let mut current_index: usize = 0;
        let mut i: usize = 0;
        let mut found = false;
        while i < names.len()
            invariant
                strings_view(names@) == nv,
                nv.no_duplicates(),
                i <= names@.len(),
                cur == self.preferences.current_theme@,
                !found ==> current_index == 0 && forall|k: int| 0 <= k < i ==> nv[k] != cur,
                found ==> current_index < names@.len() && nv[current_index as int] == cur,
            decreases names@.len() - i,
        {
            if !found && str_eq(names[i].as_str(), self.preferences.current_theme.as_str()) {
                current_index = i;
                found = true;
            }
            i += 1;
        }
        proof {
            if found {
                assert(nv.contains(cur));
                assert(nv.index_of(cur) == current_index) by {
                    let j = nv.index_of(cur);
                    if j != current_index {
                        assert(nv[j] == nv[current_index as int]);
                    }
                }
            } else {
                assert(!nv.contains(cur));
            }
        }
        let next_index = (current_index + 1) % names.len();
        let next = &names[next_index];
        proof {
            assert(nv[next_index as int] == next@);
            assert(nv.to_set().contains(next@));
            if found {
                assert(names@.len() == nv.len());
                assert(next_index != current_index) by {
                    if current_index + 1 < names@.len() {
                        vstd::arithmetic::div_mod::lemma_small_mod((current_index + 1) as nat, names@.len());
                    } else {
                        vstd::arithmetic::div_mod::lemma_mod_self_0(names@.len() as int);
                    }
                }
            } else {
                assert(nv[next_index as int] != cur);
            }
        }
        let r = self.set_theme(next.as_str());
        r
    }

    /// Switch between the light and dark themes of the preferences: from a
    /// light or custom theme to the dark one, from a dark theme to the light
    /// one, and from high contrast to the dark one.
    pub fn toggle_light_dark(&mut self) -> (r: Result<(), ThemeError>)
        requires
            old(self).wf(),
        ensures
            final(self).wf(),
            ({
                let target = light_dark_target(old(self).prefs_view(), old(self).current_view().variant);
                &&& r is Ok <==> old(self).themes_view().contains_key(target)
                &&& r is Ok ==> final(self).current_view() == old(self).themes_view()[target]
                    && final(self).prefs_view() == (PreferenceView { current_theme: target, ..old(self).prefs_view() })
                    && final(self).events_view() == old(self).events_view().push(ThemeEventView::ThemeChanged {
                        old_theme: old(self).prefs_view().current_theme,
                        new_theme: target,
                    })
                &&& r is Err ==> *final(self) == *old(self)
            }),
            final(self).themes_view() == old(self).themes_view(),
            final(self).names_view() == old(self).names_view(),
    {
        let target = match self.current_theme.variant {
            ThemeVariant::Light => self.preferences.dark_theme.clone(),
            ThemeVariant::Dark => self.preferences.light_theme.clone(),
            ThemeVariant::HighContrast => self.preferences.dark_theme.clone(),
            ThemeVariant::Custom(_) => self.preferences.light_theme.clone(),
        };
        self.set_theme(target.as_str())
    }

    /// Toggle the high contrast mode: when it turns on, the high contrast
    /// theme becomes current; when it turns off, the dark theme of the
    /// preferences if the current theme is high contrast, else the theme the
    /// preferences name as current. The mode changes and its event is
    /// emitted whatever becomes of the switch.
    pub fn toggle_high_contrast(&mut self) -> (r: Result<(), ThemeError>)
        requires
            old(self).wf(),
        ensures
            final(self).wf(),
            ({
                let enabled = !old(self).prefs_view().high_contrast_mode;
                let target = high_contrast_target(old(self).prefs_view(), old(self).current_view().variant, enabled);
                let toggled = PreferenceView { high_contrast_mode: enabled, ..old(self).prefs_view() };
                let events = old(self).events_view().push(ThemeEventView::HighContrastToggled { enabled });
                &&& r is Ok <==> old(self).themes_view().contains_key(target)
                &&& r is Ok ==> final(self).current_view() == old(self).themes_view()[target]
                    && final(self).prefs_view() == (PreferenceView { current_theme: target, ..toggled })
                    && final(self).events_view() == events.push(ThemeEventView::ThemeChanged {
                        old_theme: old(self).prefs_view().current_theme,
                        new_theme: target,
                    })
                &&& r is Err ==> final(self).current_view() == old(self).current_view()
                    && final(self).prefs_view() == toggled
                    && final(self).events_view() == events
            }),
            final(self).themes_view() == old(self).themes_view(),
            final(self).names_view() == old(self).names_view(),
    {
        let new_state = !self.preferences.high_contrast_mode;
        self.preferences.high_contrast_mode = new_state;
        let target = if new_state {
            "high_contrast".to_owned()
        } else {
            match self.current_theme.variant {
                ThemeVariant::HighContrast => self.preferences.dark_theme.clone(),
                _ => self.preferences.current_theme.clone(),
            }
        };
        proof {
            reveal_strlit("high_contrast");
        }
        self.emit_event(ThemeEvent::HighContrastToggled { enabled: new_state });
        self.set_theme(target.as_str())
    }
}

impl ThemeManager {
    /// Register a theme under a new name: it joins the custom themes of the
    /// preferences, an event is emitted and a save requested. A name already
    /// registered is refused.
    pub fn register_theme(&mut self, name: String, theme: AppTheme) -> (r: Result<(), ThemeError>)
        requires
            old(self).wf(),
        ensures
            final(self).wf(),
            r is Ok <==> !old(self).themes_view().contains_key(name@),
            r is Ok ==> final(self).themes_view() == old(self).themes_view().insert(name@, theme)
                && final(self).names_view() == old(self).names_view().push(name@)
                && final(self).prefs_view() == (PreferenceView {
                    custom_themes: old(self).prefs_view().custom_themes.push(name@),
                    ..old(self).prefs_view()
                })
                && final(self).current_view() == old(self).current_view()
                && final(self).events_view() == old(self).events_view().push(
                    ThemeEventView::ThemeRegistered { theme_name: name@ },
                )
                && final(self).save_view(),
            r is Err ==> *final(self) == *old(self) && r->Err_0 == ThemeError::ThemeAlreadyExists(name),
    {
        if self.registry.get(name.as_str()).is_some() {
            return Err(ThemeError::ThemeAlreadyExists(name));
        }
        let ghost customs = self.preferences@.custom_themes;
        self.registry.insert_new(name.clone(), theme);
        let copy = name.clone();
        self.preferences.custom_themes.push(copy);
        assert(self.preferences@.custom_themes =~= customs.push(name@));
        self.emit_event(ThemeEvent::ThemeRegistered { theme_name: name });
        self.save_requested = true;
        Ok(())
    }

    /// Remove a registered theme. The presets cannot be removed. The name
    /// leaves the custom themes of the preferences; if it was the current
    /// theme, the dark theme becomes current. An event is emitted and a save
    /// requested.
    pub fn unregister_theme(&mut self, name: &str) -> (r: Result<(), ThemeError>)
        requires
            old(self).wf(),
        ensures
            final(self).wf(),
            is_preset_name(name@) ==> *final(self) == *old(self)
                && r->Err_0 == ThemeError::CannotRemoveDefaultTheme(r->Err_0->CannotRemoveDefaultTheme_0)
                && r->Err_0->CannotRemoveDefaultTheme_0@ == name@,
            !is_preset_name(name@) && !old(self).themes_view().contains_key(name@) ==> *final(self) == *old(self)
                && r->Err_0 == ThemeError::ThemeNotFound(r->Err_0->ThemeNotFound_0)
                && r->Err_0->ThemeNotFound_0@ == name@,
            r is Ok <==> !is_preset_name(name@) && old(self).themes_view().contains_key(name@),
            r is Ok ==> ({
                let customs = old(self).prefs_view().custom_themes.filter(|t: Seq<char>| t != name@);
                let was_current = old(self).prefs_view().current_theme == name@;
                &&& final(self).themes_view() == old(self).themes_view().remove(name@)
                &&& final(self).save_view()
                &&& was_current ==> is_dark_theme(final(self).current_view())
                    && final(self).prefs_view() == (PreferenceView {
                        custom_themes: customs,
                        current_theme: "dark"@,
                        ..old(self).prefs_view()
                    })
                    && final(self).events_view() == old(self).events_view().push(ThemeEventView::ThemeChanged {
                        old_theme: name@,
                        new_theme: "dark"@,
                    }).push(ThemeEventView::ThemeUnregistered { theme_name: name@ })
                &&& !was_current ==> final(self).current_view() == old(self).current_view()
                    && final(self).prefs_view() == (PreferenceView { custom_themes: customs, ..old(self).prefs_view() })
                    && final(self).events_view() == old(self).events_view().push(
                        ThemeEventView::ThemeUnregistered { theme_name: name@ },
                    )
            }),
    {
        proof {
            reveal_strlit("light");
            reveal_strlit("dark");
            reveal_strlit("high_contrast");
        }
        if str_eq(name, "light") || str_eq(name, "dark") || str_eq(name, "high_contrast") {
            return Err(ThemeError::CannotRemoveDefaultTheme(name.to_owned()));
        }
        if !self.registry.remove(name) {
            return Err(ThemeError::ThemeNotFound(name.to_owned()));
        }
        let ghost customs = self.preferences@.custom_themes;
        let mut kept: Vec<String> = Vec::new();
        let mut i: usize = 0;
        while i < self.preferences.custom_themes.len()
            invariant
                i <= self.preferences.custom_themes@.len(),
                customs == strings_view(self.preferences.custom_themes@),
                strings_view(kept@) == customs.take(i as int).filter(|t: Seq<char>| t != name@),
            decreases self.preferences.custom_themes@.len() - i,
        {
            let t = &self.preferences.custom_themes[i];
            assert(customs.take(i + 1).drop_last() =~= customs.take(i as int));
            reveal(Seq::filter);
            if !str_eq(t.as_str(), name) {
                let ghost before = kept@;
                kept.push(t.clone());
                assert(strings_view(kept@) =~= strings_view(before).push(t@));
            }
            i += 1;
        }
        assert(customs.take(i as int) =~= customs);
        self.preferences.custom_themes = kept;
        if str_eq(self.preferences.current_theme.as_str(), name) {
            proof {
                self.lemma_wf();
            }
            let _ = self.set_theme("dark");
        }
        self.emit_event(ThemeEvent::ThemeUnregistered { theme_name: name.to_owned() });
        self.save_requested = true;
        Ok(())
    }

    /// Replace the preferences. If they name a registered theme as current,
    /// it becomes current (with its change event). A preferences event is
    /// emitted and a save requested.
    pub fn update_preferences(&mut self, preferences: ThemePreference) -> (r: Result<(), ThemeError>)
        requires
            old(self).wf(),
        ensures
            final(self).wf(),
            r is Ok,
            final(self).prefs_view() == preferences@,
            final(self).themes_view() == old(self).themes_view(),
            final(self).names_view() == old(self).names_view(),
            final(self).save_view(),
            old(self).themes_view().contains_key(preferences@.current_theme) ==> final(self).current_view()
                == old(self).themes_view()[preferences@.current_theme] && final(self).events_view()
                == old(self).events_view().push(ThemeEventView::ThemeChanged {
                    old_theme: preferences@.current_theme,
                    new_theme: preferences@.current_theme,
                }).push(ThemeEventView::PreferencesChanged),
            !old(self).themes_view().contains_key(preferences@.current_theme) ==> final(self).current_view()
                == old(self).current_view() && final(self).events_view() == old(self).events_view().push(
                    ThemeEventView::PreferencesChanged,
                ),
    {
        self.preferences = preferences;
        let current = self.preferences.current_theme.clone();
        if self.has_theme(current.as_str()) {
            let _ = self.set_theme(current.as_str());
        }
        self.emit_event(ThemeEvent::PreferencesChanged);
        self.save_requested = true;
        Ok(())
    }

    /// Follow a change of the system's theme, when the preferences ask for
    /// it: the dark or light theme of the preferences becomes current after
    /// a system event is emitted.
    pub fn handle_system_theme_change(&mut self, is_dark: bool) -> (r: Result<(), ThemeError>)
        requires
            old(self).wf(),
        ensures
            final(self).wf(),
            final(self).themes_view() == old(self).themes_view(),
            final(self).names_view() == old(self).names_view(),
            !old(self).prefs_view().follow_system ==> r is Ok && *final(self) == *old(self),
            old(self).prefs_view().follow_system ==> ({
                let target = if is_dark { old(self).prefs_view().dark_theme } else { old(self).prefs_view().light_theme };
                let events = old(self).events_view().push(ThemeEventView::SystemThemeChanged { is_dark });
                &&& r is Ok <==> old(self).themes_view().contains_key(target)
                &&& r is Ok ==> final(self).current_view() == old(self).themes_view()[target]
                    && final(self).prefs_view() == (PreferenceView { current_theme: target, ..old(self).prefs_view() })
                    && final(self).events_view() == events.push(ThemeEventView::ThemeChanged {
                        old_theme: old(self).prefs_view().current_theme,
                        new_theme: target,
                    })
                &&& r is Err ==> final(self).current_view() == old(self).current_view()
                    && final(self).prefs_view() == old(self).prefs_view()
                    && final(self).events_view() == events
            }),
    {
        if self.preferences.follow_system {
            let target = if is_dark {
                self.preferences.dark_theme.clone()
            } else {
                self.preferences.light_theme.clone()
            };
            self.emit_event(ThemeEvent::SystemThemeChanged { is_dark });
            self.set_theme(target.as_str())
        } else {
            Ok(())
        }
    }

    /// Take in preferences that were read back: if they name a registered
    /// theme as current, it becomes current and a load event is emitted.
    pub fn apply_loaded_preferences(&mut self, preferences: ThemePreference)
        requires
            old(self).wf(),
        ensures
            final(self).wf(),
            final(self).prefs_view() == preferences@,
            final(self).themes_view() == old(self).themes_view(),
            final(self).names_view() == old(self).names_view(),
            final(self).save_view() == old(self).save_view(),
            old(self).themes_view().contains_key(preferences@.current_theme) ==> final(self).current_view()
                == old(self).themes_view()[preferences@.current_theme] && final(self).events_view()
                == old(self).events_view().push(
                    ThemeEventView::ThemeLoaded { theme_name: preferences@.current_theme },
                ),
            !old(self).themes_view().contains_key(preferences@.current_theme) ==> final(self).current_view()
                == old(self).current_view() && final(self).events_view() == old(self).events_view(),
    {
        self.preferences = preferences;
        let theme_name = self.preferences.current_theme.clone();
        match self.registry.get(theme_name.as_str()) {
            Some(t) => {
                let theme = t.clone();
                self.current_theme = theme;
                self.emit_event(ThemeEvent::ThemeLoaded { theme_name });
            },
            None => {},
        }
    }

    /// Hand over the events not yet delivered, oldest first.
    pub fn take_events(&mut self) -> (r: Vec<ThemeEvent>)
        requires
            old(self).wf(),
        ensures
            final(self).wf(),
            events_of(r@) == old(self).events_view(),
            final(self).events_view().len() == 0,
            final(self).current_view() == old(self).current_view(),
            final(self).themes_view() == old(self).themes_view(),
            final(self).names_view() == old(self).names_view(),
            final(self).prefs_view() == old(self).prefs_view(),
            final(self).save_view() == old(self).save_view(),
    {
        let mut out: Vec<ThemeEvent> = Vec::new();
        std::mem::swap(&mut out, &mut self.events);
        assert(events_of(self.events@) =~= Seq::<ThemeEventView>::empty());
        out
    }

    /// Whether the preferences are to be saved; the request is then cleared.
    pub fn take_save_request(&mut self) -> (r: bool)
        requires
            old(self).wf(),
        ensures
            final(self).wf(),
            r == old(self).save_view(),
            !final(self).save_view(),
            final(self).current_view() == old(self).current_view(),
            final(self).themes_view() == old(self).themes_view(),
            final(self).names_view() == old(self).names_view(),
            final(self).prefs_view() == old(self).prefs_view(),
            final(self).events_view() == old(self).events_view(),
    {
        let r = self.save_requested;
        self.save_requested = false;
        r
    }

    /// A short description of a theme: its name, variant and description as
    /// a JSON object.
    pub fn export_theme(&self, theme: &AppTheme) -> (r: Result<String, ThemeError>)
        ensures
            r is Ok,
            r->Ok_0@ == "{\"name\":\""@ + theme.name@ + "\",\"variant\":\""@ + variant_name(theme.variant)
                + "\",\"description\":\""@ + theme.description@ + "\"}"@,
    {
        let mut s = "{\"name\":\"".to_owned();
        s.append(theme.name.as_str());
        s.append("\",\"variant\":\"");
        let v = theme.variant.to_string();
        s.append(v.as_str());
        s.append("\",\"description\":\"");
        s.append(theme.description.as_str());
        s.append("\"}");
        Ok(s)
    }

    /// A preset theme chosen by what a description mentions: the dark theme
    /// if it holds `Dark`, else the high contrast theme if it holds `High`,
    /// else the light theme.
    pub fn import_theme(&mut self, theme_str: &str) -> (r: Result<AppTheme, ThemeError>)
        ensures
            *final(self) == *old(self),
            r is Ok,
            text_contains_spec(theme_str@, "Dark"@) ==> is_dark_theme(r->Ok_0),
            !text_contains_spec(theme_str@, "Dark"@) && text_contains_spec(theme_str@, "High"@) ==> is_high_contrast_theme(
                r->Ok_0,
            ),
            !text_contains_spec(theme_str@, "Dark"@) && !text_contains_spec(theme_str@, "High"@) ==> is_light_theme(
                r->Ok_0,
            ),
    {
        if text_contains(theme_str, "Dark") {
            Ok(AppTheme::dark())
        } else if text_contains(theme_str, "High") {
            Ok(AppTheme::high_contrast())
        } else {
            Ok(AppTheme::light())
        }
    }
}

/// The system's theme, as far as it can be told here: it cannot, so this
/// is always `None`.
pub fn detect_system_theme() -> (r: Option<bool>)
    ensures
        r is None,
{
    None
}

impl Default for ThemeManager {
    fn default() -> (r: Self)
        ensures
            r.wf(),
            is_dark_theme(r.current_view()),
            r.names_view() == seq!["light"@, "dark"@, "high_contrast"@],
            r.prefs_view() == default_preferences(),
            r.events_view().len() == 0,
            !r.save_view(),
    {
        ThemeManager::new()
    }
}

/// Registering a theme under a new name and then removing that name leaves
/// the registered themes as they were.
pub proof fn lemma_register_then_unregister(themes: Map<Seq<char>, AppTheme>, name: Seq<char>, theme: AppTheme)
    requires
        !themes.contains_key(name),
    ensures
        themes.insert(name, theme).remove(name) == themes,
{
    assert(themes.insert(name, theme).remove(name) =~= themes);
}

} // verus!
