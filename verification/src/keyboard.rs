//! Key actions, key bindings for the navigation modes, the key mapper and
//! the navigation history of focused components.

use vstd::prelude::*;
use crate::component::{ComponentId, ComponentResult, NavigationDirection};
use crate::keys::{KeyCode, KeyEvent, KeyModifiers};

verus! {

/// Key action that can be performed by components.
#[derive(Debug, Clone, PartialEq, Eq, Hash)]
pub enum KeyAction {
    // Navigation actions
    NavigateUp,
    NavigateDown,
    NavigateLeft,
    NavigateRight,
    NavigateNext,
    NavigatePrevious,
    NavigateFirst,
    NavigateLast,
    // Focus actions
    FocusNext,
    FocusPrevious,
    FocusFirst,
    FocusLast,
    // Component actions
    Activate,
    Cancel,
    Submit,
    Escape,
    Enter,
    Space,
    Tab,
    BackTab,
    // Editing actions
    Insert(char),
    Delete,
    Backspace,
    Clear,
    SelectAll,
    Cut,
    Copy,
    Paste,
    // Application actions
    Quit,
    Help,
    Menu,
    Settings,
    Refresh,
    // Custom actions
    Custom(String),
}

/// The mathematical value of a key action: a custom action is known by its text.
pub enum ActionView {
    NavigateUp,
    NavigateDown,
    NavigateLeft,
    NavigateRight,
    NavigateNext,
    NavigatePrevious,
    NavigateFirst,
    NavigateLast,
    FocusNext,
    FocusPrevious,
    FocusFirst,
    FocusLast,
    Activate,
    Cancel,
    Submit,
    Escape,
    Enter,
    Space,
    Tab,
    BackTab,
    Insert(char),
    Delete,
    Backspace,
    Clear,
    SelectAll,
    Cut,
    Copy,
    Paste,
    Quit,
    Help,
    Menu,
    Settings,
    Refresh,
    Custom(Seq<char>),
}

impl View for KeyAction {
    type V = ActionView;

    open spec fn view(&self) -> ActionView {
        match self {
            KeyAction::NavigateUp => ActionView::NavigateUp,
            KeyAction::NavigateDown => ActionView::NavigateDown,
            KeyAction::NavigateLeft => ActionView::NavigateLeft,
            KeyAction::NavigateRight => ActionView::NavigateRight,
            KeyAction::NavigateNext => ActionView::NavigateNext,
            KeyAction::NavigatePrevious => ActionView::NavigatePrevious,
            KeyAction::NavigateFirst => ActionView::NavigateFirst,
            KeyAction::NavigateLast => ActionView::NavigateLast,
            KeyAction::FocusNext => ActionView::FocusNext,
            KeyAction::FocusPrevious => ActionView::FocusPrevious,
            KeyAction::FocusFirst => ActionView::FocusFirst,
            KeyAction::FocusLast => ActionView::FocusLast,
            KeyAction::Activate => ActionView::Activate,
            KeyAction::Cancel => ActionView::Cancel,
            KeyAction::Submit => ActionView::Submit,
            KeyAction::Escape => ActionView::Escape,
            KeyAction::Enter => ActionView::Enter,
            KeyAction::Space => ActionView::Space,
            KeyAction::Tab => ActionView::Tab,
            KeyAction::BackTab => ActionView::BackTab,
            KeyAction::Insert(c) => ActionView::Insert(*c),
            KeyAction::Delete => ActionView::Delete,
            KeyAction::Backspace => ActionView::Backspace,
            KeyAction::Clear => ActionView::Clear,
            KeyAction::SelectAll => ActionView::SelectAll,
            KeyAction::Cut => ActionView::Cut,
            KeyAction::Copy => ActionView::Copy,
            KeyAction::Paste => ActionView::Paste,
            KeyAction::Quit => ActionView::Quit,
            KeyAction::Help => ActionView::Help,
            KeyAction::Menu => ActionView::Menu,
            KeyAction::Settings => ActionView::Settings,
            KeyAction::Refresh => ActionView::Refresh,
            KeyAction::Custom(s) => ActionView::Custom(s@),
        }
    }
}

/// The navigation direction of an action, where it has one.
pub open spec fn navigation_direction_spec(a: ActionView) -> Option<NavigationDirection> {
    match a {
        ActionView::NavigateUp => Some(NavigationDirection::Up),
        ActionView::NavigateDown => Some(NavigationDirection::Down),
        ActionView::NavigateLeft => Some(NavigationDirection::Left),
        ActionView::NavigateRight => Some(NavigationDirection::Right),
        ActionView::NavigateNext | ActionView::FocusNext => Some(NavigationDirection::Next),
        ActionView::NavigatePrevious | ActionView::FocusPrevious => Some(NavigationDirection::Previous),
        ActionView::NavigateFirst | ActionView::FocusFirst => Some(NavigationDirection::First),
        ActionView::NavigateLast | ActionView::FocusLast => Some(NavigationDirection::Last),
        _ => None,
    }
}

/// Whether an action edits text.
pub open spec fn is_editing_spec(a: ActionView) -> bool {
    match a {
        ActionView::Insert(_) | ActionView::Delete | ActionView::Backspace | ActionView::Clear
        | ActionView::SelectAll | ActionView::Cut | ActionView::Copy | ActionView::Paste => true,
        _ => false,
    }
}

impl KeyAction {
    /// Convert to navigation direction if applicable.
    pub fn to_navigation_direction(&self) -> (r: Option<NavigationDirection>)
        ensures
            r == navigation_direction_spec(self@),
    {
        match self {
            KeyAction::NavigateUp => Some(NavigationDirection::Up),
            KeyAction::NavigateDown => Some(NavigationDirection::Down),
            KeyAction::NavigateLeft => Some(NavigationDirection::Left),
            KeyAction::NavigateRight => Some(NavigationDirection::Right),
            KeyAction::NavigateNext | KeyAction::FocusNext => Some(NavigationDirection::Next),
            KeyAction::NavigatePrevious | KeyAction::FocusPrevious => Some(NavigationDirection::Previous),
            KeyAction::NavigateFirst | KeyAction::FocusFirst => Some(NavigationDirection::First),
            KeyAction::NavigateLast | KeyAction::FocusLast => Some(NavigationDirection::Last),
            _ => None,
        }
    }

    /// Check if this is a navigation action.
    pub fn is_navigation(&self) -> (r: bool)
        ensures
            r == navigation_direction_spec(self@).is_some(),
    {
        self.to_navigation_direction().is_some()
    }

    /// Check if this is an editing action.
    pub fn is_editing(&self) -> (r: bool)
        ensures
            r == is_editing_spec(self@),
    {
        match self {
            KeyAction::Insert(_) | KeyAction::Delete | KeyAction::Backspace | KeyAction::Clear
            | KeyAction::SelectAll | KeyAction::Cut | KeyAction::Copy | KeyAction::Paste => true,
            _ => false,
        }
    }

    /// A copy of this action.
    pub fn duplicate(&self) -> (r: KeyAction)
        ensures
            r@ == self@,
    {
        match self {
            KeyAction::NavigateUp => KeyAction::NavigateUp,
            KeyAction::NavigateDown => KeyAction::NavigateDown,
            KeyAction::NavigateLeft => KeyAction::NavigateLeft,
            KeyAction::NavigateRight => KeyAction::NavigateRight,
            KeyAction::NavigateNext => KeyAction::NavigateNext,
            KeyAction::NavigatePrevious => KeyAction::NavigatePrevious,
            KeyAction::NavigateFirst => KeyAction::NavigateFirst,
            KeyAction::NavigateLast => KeyAction::NavigateLast,
            KeyAction::FocusNext => KeyAction::FocusNext,
            KeyAction::FocusPrevious => KeyAction::FocusPrevious,
            KeyAction::FocusFirst => KeyAction::FocusFirst,
            KeyAction::FocusLast => KeyAction::FocusLast,
            KeyAction::Activate => KeyAction::Activate,
            KeyAction::Cancel => KeyAction::Cancel,
            KeyAction::Submit => KeyAction::Submit,
            KeyAction::Escape => KeyAction::Escape,
            KeyAction::Enter => KeyAction::Enter,
            KeyAction::Space => KeyAction::Space,
            KeyAction::Tab => KeyAction::Tab,
            KeyAction::BackTab => KeyAction::BackTab,
            KeyAction::Insert(c) => KeyAction::Insert(*c),
            KeyAction::Delete => KeyAction::Delete,
            KeyAction::Backspace => KeyAction::Backspace,
            KeyAction::Clear => KeyAction::Clear,
            KeyAction::SelectAll => KeyAction::SelectAll,
            KeyAction::Cut => KeyAction::Cut,
            KeyAction::Copy => KeyAction::Copy,
            KeyAction::Paste => KeyAction::Paste,
            KeyAction::Quit => KeyAction::Quit,
            KeyAction::Help => KeyAction::Help,
            KeyAction::Menu => KeyAction::Menu,
            KeyAction::Settings => KeyAction::Settings,
            KeyAction::Refresh => KeyAction::Refresh,
            KeyAction::Custom(s) => KeyAction::Custom(s.clone()),
        }
    }
}

/// Key binding that maps a key with modifiers to an action.
#[derive(Debug, Clone, PartialEq, Eq, Hash)]
pub struct KeyBinding {
    pub key: KeyCode,
    pub modifiers: KeyModifiers,
    pub action: KeyAction,
}

impl View for KeyBinding {
    type V = (KeyCode, KeyModifiers, ActionView);

    open spec fn view(&self) -> (KeyCode, KeyModifiers, ActionView) {
        (self.key, self.modifiers, self.action@)
    }
}

impl KeyBinding {
    /// A binding of `key` without modifiers.
    pub fn new(key: KeyCode, action: KeyAction) -> (r: Self)
        ensures
            r.key == key,
            r.modifiers.bits == 0,
            r.action == action,
    {
        KeyBinding { key, modifiers: KeyModifiers::empty(), action }
    }

    /// A binding of `key` with `modifiers`.
    pub fn with_modifiers(key: KeyCode, modifiers: KeyModifiers, action: KeyAction) -> (r: Self)
        ensures
            r.key == key,
            r.modifiers == modifiers,
            r.action == action,
    {
        KeyBinding { key, modifiers, action }
    }

    /// A copy of this binding.
    pub fn duplicate(&self) -> (r: KeyBinding)
        ensures
            r@ == self@,
    {
        KeyBinding { key: self.key, modifiers: self.modifiers, action: self.action.duplicate() }
    }

    /// Check if this binding matches a key event.
    pub fn matches(&self, event: &KeyEvent) -> (r: bool)
        ensures
            r == (self.key == event.code && self.modifiers == event.modifiers),
    {
        self.key == event.code && self.modifiers == event.modifiers
    }
}

/// Navigation mode for different navigation styles.
#[derive(Debug, Clone, Copy, PartialEq, Eq, Structural)]
pub enum NavigationMode {
    /// Standard tab-based navigation
    Normal,
    /// Vim-style hjkl navigation
    Vim,
    /// Emacs-style navigation
    Emacs,
    /// Custom navigation scheme
    Custom,
}

pub open spec fn none_mods() -> KeyModifiers {
    KeyModifiers { bits: 0 }
}

pub open spec fn ctrl_mods() -> KeyModifiers {
    KeyModifiers { bits: 2 }
}

pub open spec fn shift_mods() -> KeyModifiers {
    KeyModifiers { bits: 1 }
}

/// The standard bindings, in order.
pub open spec fn normal_bindings_spec() -> Seq<(KeyCode, KeyModifiers, ActionView)> {
    seq![
        (KeyCode::Up, none_mods(), ActionView::NavigateUp),
        (KeyCode::Down, none_mods(), ActionView::NavigateDown),
        (KeyCode::Left, none_mods(), ActionView::NavigateLeft),
        (KeyCode::Right, none_mods(), ActionView::NavigateRight),
        (KeyCode::Tab, none_mods(), ActionView::FocusNext),
        (KeyCode::BackTab, none_mods(), ActionView::FocusPrevious),
        (KeyCode::Enter, none_mods(), ActionView::Activate),
        (KeyCode::Esc, none_mods(), ActionView::Escape),
        (KeyCode::Delete, none_mods(), ActionView::Delete),
        (KeyCode::Backspace, none_mods(), ActionView::Backspace),
        (KeyCode::Char('c'), ctrl_mods(), ActionView::Quit),
        (KeyCode::Char('h'), ctrl_mods(), ActionView::Help),
        (KeyCode::Char('r'), ctrl_mods(), ActionView::Refresh),
        (KeyCode::Char('p'), ctrl_mods(), ActionView::Menu),
        (KeyCode::Char('a'), ctrl_mods(), ActionView::SelectAll),
        (KeyCode::Char('x'), ctrl_mods(), ActionView::Cut),
        (KeyCode::Char('c'), ctrl_mods(), ActionView::Copy),
        (KeyCode::Char('v'), ctrl_mods(), ActionView::Paste),
    ]
}

/// The bindings that vim mode adds to the standard ones, in order.
pub open spec fn vim_extra_spec() -> Seq<(KeyCode, KeyModifiers, ActionView)> {
    seq![
        (KeyCode::Char('h'), none_mods(), ActionView::NavigateLeft),
        (KeyCode::Char('j'), none_mods(), ActionView::NavigateDown),
        (KeyCode::Char('k'), none_mods(), ActionView::NavigateUp),
        (KeyCode::Char('l'), none_mods(), ActionView::NavigateRight),
        (KeyCode::Char('g'), none_mods(), ActionView::NavigateFirst),
        (KeyCode::Char('g'), shift_mods(), ActionView::NavigateLast),
        (KeyCode::Char('i'), none_mods(), ActionView::Custom("insert_mode"@)),
        (KeyCode::Char('a'), none_mods(), ActionView::Custom("append_mode"@)),
        (KeyCode::Char('o'), none_mods(), ActionView::Custom("open_line"@)),
        (KeyCode::Char('x'), none_mods(), ActionView::Delete),
        (KeyCode::Char('d'), none_mods(), ActionView::Custom("delete_line"@)),
        (KeyCode::Char('y'), none_mods(), ActionView::Copy),
        (KeyCode::Char('p'), none_mods(), ActionView::Paste),
    ]
}

/// The bindings that emacs mode adds to the standard ones, in order.
pub open spec fn emacs_extra_spec() -> Seq<(KeyCode, KeyModifiers, ActionView)> {
    seq![
        (KeyCode::Char('p'), ctrl_mods(), ActionView::NavigateUp),
        (KeyCode::Char('n'), ctrl_mods(), ActionView::NavigateDown),
        (KeyCode::Char('b'), ctrl_mods(), ActionView::NavigateLeft),
        (KeyCode::Char('f'), ctrl_mods(), ActionView::NavigateRight),
        (KeyCode::Char('a'), ctrl_mods(), ActionView::NavigateFirst),
        (KeyCode::Char('e'), ctrl_mods(), ActionView::NavigateLast),
        (KeyCode::Char('d'), ctrl_mods(), ActionView::Delete),
        (KeyCode::Char('k'), ctrl_mods(), ActionView::Custom("kill_line"@)),
        (KeyCode::Char('w'), ctrl_mods(), ActionView::Cut),
        (KeyCode::Char('y'), ctrl_mods(), ActionView::Paste),
    ]
}

/// The default bindings of a navigation mode, in order.
pub open spec fn default_bindings_spec(mode: NavigationMode) -> Seq<(KeyCode, KeyModifiers, ActionView)> {
    match mode {
        NavigationMode::Normal => normal_bindings_spec(),
        NavigationMode::Vim => normal_bindings_spec() + vim_extra_spec(),
        NavigationMode::Emacs => normal_bindings_spec() + emacs_extra_spec(),
        NavigationMode::Custom => Seq::empty(),
    }
}

/// The views of a sequence of bindings.
pub open spec fn bindings_view(s: Seq<KeyBinding>) -> Seq<(KeyCode, KeyModifiers, ActionView)> {
    s.map_values(|b: KeyBinding| b@)
}

fn push_binding(v: &mut Vec<KeyBinding>, key: KeyCode, modifiers: KeyModifiers, action: KeyAction)
    ensures
        bindings_view(final(v)@) == bindings_view(old(v)@).push((key, modifiers, action@)),
{
    let ghost old_v = v@;
    v.push(KeyBinding { key, modifiers, action });
    assert(bindings_view(v@) =~= bindings_view(old_v).push((key, modifiers, action@)));
}

fn custom(text: &str) -> (r: KeyAction)
    ensures
        r@ == ActionView::Custom(text@),
{
    KeyAction::Custom(text.to_owned())
}

/// Standard navigation key bindings.
pub fn normal_key_bindings() -> (r: Vec<KeyBinding>)
    ensures
        bindings_view(r@) == normal_bindings_spec(),
{
    let mut v: Vec<KeyBinding> = Vec::new();
    assert(bindings_view(v@) =~= Seq::empty());
    push_binding(&mut v, KeyCode::Up, KeyModifiers::empty(), KeyAction::NavigateUp);
    push_binding(&mut v, KeyCode::Down, KeyModifiers::empty(), KeyAction::NavigateDown);
    push_binding(&mut v, KeyCode::Left, KeyModifiers::empty(), KeyAction::NavigateLeft);
    push_binding(&mut v, KeyCode::Right, KeyModifiers::empty(), KeyAction::NavigateRight);
    push_binding(&mut v, KeyCode::Tab, KeyModifiers::empty(), KeyAction::FocusNext);
    push_binding(&mut v, KeyCode::BackTab, KeyModifiers::empty(), KeyAction::FocusPrevious);
    push_binding(&mut v, KeyCode::Enter, KeyModifiers::empty(), KeyAction::Activate);
    push_binding(&mut v, KeyCode::Esc, KeyModifiers::empty(), KeyAction::Escape);
    push_binding(&mut v, KeyCode::Delete, KeyModifiers::empty(), KeyAction::Delete);
    push_binding(&mut v, KeyCode::Backspace, KeyModifiers::empty(), KeyAction::Backspace);
    push_binding(&mut v, KeyCode::Char('c'), KeyModifiers::control(), KeyAction::Quit);
    push_binding(&mut v, KeyCode::Char('h'), KeyModifiers::control(), KeyAction::Help);
    push_binding(&mut v, KeyCode::Char('r'), KeyModifiers::control(), KeyAction::Refresh);
    push_binding(&mut v, KeyCode::Char('p'), KeyModifiers::control(), KeyAction::Menu);
    push_binding(&mut v, KeyCode::Char('a'), KeyModifiers::control(), KeyAction::SelectAll);
    push_binding(&mut v, KeyCode::Char('x'), KeyModifiers::control(), KeyAction::Cut);
    push_binding(&mut v, KeyCode::Char('c'), KeyModifiers::control(), KeyAction::Copy);
    push_binding(&mut v, KeyCode::Char('v'), KeyModifiers::control(), KeyAction::Paste);
    assert(bindings_view(v@) =~= normal_bindings_spec());
    v
}

/// Vim-style navigation key bindings: the standard ones, then hjkl and friends.
pub fn vim_key_bindings() -> (r: Vec<KeyBinding>)
    ensures
        bindings_view(r@) == normal_bindings_spec() + vim_extra_spec(),
{
    let mut v = normal_key_bindings();
    let ghost base = bindings_view(v@);
    push_binding(&mut v, KeyCode::Char('h'), KeyModifiers::empty(), KeyAction::NavigateLeft);
    push_binding(&mut v, KeyCode::Char('j'), KeyModifiers::empty(), KeyAction::NavigateDown);
    push_binding(&mut v, KeyCode::Char('k'), KeyModifiers::empty(), KeyAction::NavigateUp);
    push_binding(&mut v, KeyCode::Char('l'), KeyModifiers::empty(), KeyAction::NavigateRight);
    push_binding(&mut v, KeyCode::Char('g'), KeyModifiers::empty(), KeyAction::NavigateFirst);
    push_binding(&mut v, KeyCode::Char('g'), KeyModifiers::shift(), KeyAction::NavigateLast);
    push_binding(&mut v, KeyCode::Char('i'), KeyModifiers::empty(), custom("insert_mode"));
    push_binding(&mut v, KeyCode::Char('a'), KeyModifiers::empty(), custom("append_mode"));
    push_binding(&mut v, KeyCode::Char('o'), KeyModifiers::empty(), custom("open_line"));
    push_binding(&mut v, KeyCode::Char('x'), KeyModifiers::empty(), KeyAction::Delete);
    push_binding(&mut v, KeyCode::Char('d'), KeyModifiers::empty(), custom("delete_line"));
    push_binding(&mut v, KeyCode::Char('y'), KeyModifiers::empty(), KeyAction::Copy);
    push_binding(&mut v, KeyCode::Char('p'), KeyModifiers::empty(), KeyAction::Paste);
    assert(bindings_view(v@) =~= normal_bindings_spec() + vim_extra_spec());
    v
}

/// Emacs-style navigation key bindings: the standard ones, then the control chords.
pub fn emacs_key_bindings() -> (r: Vec<KeyBinding>)
    ensures
        bindings_view(r@) == normal_bindings_spec() + emacs_extra_spec(),
{
    let mut v = normal_key_bindings();
    push_binding(&mut v, KeyCode::Char('p'), KeyModifiers::control(), KeyAction::NavigateUp);
    push_binding(&mut v, KeyCode::Char('n'), KeyModifiers::control(), KeyAction::NavigateDown);
    push_binding(&mut v, KeyCode::Char('b'), KeyModifiers::control(), KeyAction::NavigateLeft);
    push_binding(&mut v, KeyCode::Char('f'), KeyModifiers::control(), KeyAction::NavigateRight);
    push_binding(&mut v, KeyCode::Char('a'), KeyModifiers::control(), KeyAction::NavigateFirst);
    push_binding(&mut v, KeyCode::Char('e'), KeyModifiers::control(), KeyAction::NavigateLast);
    push_binding(&mut v, KeyCode::Char('d'), KeyModifiers::control(), KeyAction::Delete);
    push_binding(&mut v, KeyCode::Char('k'), KeyModifiers::control(), custom("kill_line"));
    push_binding(&mut v, KeyCode::Char('w'), KeyModifiers::control(), KeyAction::Cut);
    push_binding(&mut v, KeyCode::Char('y'), KeyModifiers::control(), KeyAction::Paste);
    assert(bindings_view(v@) =~= normal_bindings_spec() + emacs_extra_spec());
    v
}

/// Default key bindings for different navigation modes.
pub fn default_key_bindings(mode: NavigationMode) -> (r: Vec<KeyBinding>)
    ensures
        bindings_view(r@) == default_bindings_spec(mode),
{
    match mode {
        NavigationMode::Normal => normal_key_bindings(),
        NavigationMode::Vim => vim_key_bindings(),
        NavigationMode::Emacs => emacs_key_bindings(),
        NavigationMode::Custom => {
            let v: Vec<KeyBinding> = Vec::new();
            assert(bindings_view(v@) =~= Seq::empty());
            v
        },
    }
}

/// The lookup key of a binding view.
pub open spec fn key_of(b: (KeyCode, KeyModifiers, ActionView)) -> (KeyCode, KeyModifiers) {
    (b.0, b.1)
}

/// The map that inserting the bindings one after the other gives:
/// a later binding for the same key replaces an earlier one.
pub open spec fn fold_bindings(s: Seq<(KeyCode, KeyModifiers, ActionView)>) -> Map<(KeyCode, KeyModifiers), ActionView>
    decreases s.len(),
{
    if s.len() == 0 {
        Map::empty()
    } else {
        fold_bindings(s.drop_last()).insert(key_of(s.last()), s.last().2)
    }
}

/// No two bindings share a key.
pub open spec fn keys_unique(s: Seq<(KeyCode, KeyModifiers, ActionView)>) -> bool {
    forall|i: int, j: int| 0 <= i < j < s.len() ==> key_of(s[i]) != key_of(s[j])
}

proof fn lemma_fold_absent(s: Seq<(KeyCode, KeyModifiers, ActionView)>, k: (KeyCode, KeyModifiers))
    requires
        forall|i: int| 0 <= i < s.len() ==> key_of(s[i]) != k,
    ensures
        !fold_bindings(s).contains_key(k),
    decreases s.len(),
{
    if s.len() > 0 {
        lemma_fold_absent(s.drop_last(), k);
    }
}

proof fn lemma_fold_lookup(s: Seq<(KeyCode, KeyModifiers, ActionView)>, i: int)
    requires
        keys_unique(s),
        0 <= i < s.len(),
    ensures
        fold_bindings(s).contains_key(key_of(s[i])),
        fold_bindings(s)[key_of(s[i])] == s[i].2,
    decreases s.len(),
{
    if i < s.len() - 1 {
        lemma_fold_lookup(s.drop_last(), i);
    }
}

proof fn lemma_fold_update(s: Seq<(KeyCode, KeyModifiers, ActionView)>, i: int, b: (KeyCode, KeyModifiers, ActionView))
    requires
        keys_unique(s),
        0 <= i < s.len(),
        key_of(b) == key_of(s[i]),
    ensures
        fold_bindings(s.update(i, b)) == fold_bindings(s).insert(key_of(b), b.2),
        keys_unique(s.update(i, b)),
    decreases s.len(),
{
    let t = s.update(i, b);
    if i == s.len() - 1 {
        assert(t.drop_last() =~= s.drop_last());
        assert(fold_bindings(t) =~= fold_bindings(s).insert(key_of(b), b.2));
    } else {
        lemma_fold_update(s.drop_last(), i, b);
        assert(t.drop_last() =~= s.drop_last().update(i, b));
        assert(fold_bindings(t) =~= fold_bindings(s).insert(key_of(b), b.2));
    }
}

proof fn lemma_fold_push(s: Seq<(KeyCode, KeyModifiers, ActionView)>, b: (KeyCode, KeyModifiers, ActionView))
    ensures
        fold_bindings(s.push(b)) == fold_bindings(s).insert(key_of(b), b.2),
{
    assert(s.push(b).drop_last() =~= s);
}

proof fn lemma_fold_remove(s: Seq<(KeyCode, KeyModifiers, ActionView)>, i: int)
    requires
        keys_unique(s),
        0 <= i < s.len(),
    ensures
        fold_bindings(s.remove(i)) == fold_bindings(s).remove(key_of(s[i])),
        keys_unique(s.remove(i)),
    decreases s.len(),
{
    let t = s.remove(i);
    if i == s.len() - 1 {
        assert(t =~= s.drop_last());
        assert forall|j: int| 0 <= j < t.len() implies key_of(t[j]) != key_of(s[i]) by {
            assert(t[j] == s[j]);
        }
        lemma_fold_absent(t, key_of(s[i]));
        assert(fold_bindings(t) =~= fold_bindings(s).remove(key_of(s[i])));
    } else {
        lemma_fold_remove(s.drop_last(), i);
        assert(t.drop_last() =~= s.drop_last().remove(i));
        assert(t.last() == s.last());
        assert(fold_bindings(t) =~= fold_bindings(s).remove(key_of(s[i])));
    }
}

/// Key mapper that converts key events to actions.
#[derive(Debug)]
pub struct KeyMapper {
    bindings: Vec<KeyBinding>,
    navigation_mode: NavigationMode,
}

impl View for KeyMapper {
    type V = Map<(KeyCode, KeyModifiers), ActionView>;

    closed spec fn view(&self) -> Map<(KeyCode, KeyModifiers), ActionView> {
        fold_bindings(bindings_view(self.bindings@))
    }
}

/// What a key event maps to, given the bindings.
pub open spec fn map_key_spec(m: Map<(KeyCode, KeyModifiers), ActionView>, event: KeyEvent) -> Option<ActionView> {
    if m.contains_key((event.code, event.modifiers)) {
        Some(m[(event.code, event.modifiers)])
    } else if event.modifiers.bits == 0 && event.code is Char {
        Some(ActionView::Insert(event.code->Char_0))
    } else {
        None
    }
}

/// The view of an optional action.
pub open spec fn opt_action_view(a: Option<KeyAction>) -> Option<ActionView> {
    match a {
        Some(x) => Some(x@),
        None => None,
    }
}

impl KeyMapper {
    /// No two stored bindings share a key.
    pub closed spec fn wf(&self) -> bool {
        keys_unique(bindings_view(self.bindings@))
    }

    /// The navigation mode whose defaults were loaded last.
    pub closed spec fn mode(&self) -> NavigationMode {
        self.navigation_mode
    }

    fn find_index(&self, key: KeyCode, modifiers: KeyModifiers) -> (r: Option<usize>)
        ensures
            match r {
                Some(i) => i < self.bindings@.len() && key_of(bindings_view(self.bindings@)[i as int]) == (key, modifiers),
                None => forall|i: int| 0 <= i < self.bindings@.len() ==> key_of(bindings_view(self.bindings@)[i]) != (key, modifiers),
            },
    {
        let mut i: usize = 0;
        while i < self.bindings.len()
            invariant
                i <= self.bindings@.len(),
                forall|j: int| 0 <= j < i ==> key_of(bindings_view(self.bindings@)[j]) != (key, modifiers),
            decreases self.bindings@.len() - i,
        {
            if self.bindings[i].key == key && self.bindings[i].modifiers == modifiers {
                return Some(i);
            }
            i += 1;
        }
        None
    }

    /// Create a new key mapper with default bindings for the specified mode.
    pub fn new(mode: NavigationMode) -> (r: Self)
        ensures
            r.wf(),
            r@ == fold_bindings(default_bindings_spec(mode)),
            r.mode() == mode,
    {
        let defaults = default_key_bindings(mode);
        let mut mapper = KeyMapper { bindings: Vec::new(), navigation_mode: mode };
        assert(bindings_view(mapper.bindings@) =~= Seq::empty());
        assert(bindings_view(defaults@).take(0) =~= Seq::empty());
        let mut i: usize = 0;
        while i < defaults.len()
            invariant
                i <= defaults@.len(),
                mapper.wf(),
                mapper.navigation_mode == mode,
                mapper@ == fold_bindings(bindings_view(defaults@).take(i as int)),
                bindings_view(defaults@) == default_bindings_spec(mode),
            decreases defaults@.len() - i,
        {
            mapper.add_binding(defaults[i].duplicate());
            assert(bindings_view(defaults@).take(i + 1).drop_last() =~= bindings_view(defaults@).take(i as int));
            i += 1;
        }
        assert(bindings_view(defaults@).take(i as int) =~= bindings_view(defaults@));
        mapper
    }

    /// Add a custom key binding; it replaces any binding of the same key.
    pub fn add_binding(&mut self, binding: KeyBinding)
        requires
            old(self).wf(),
        ensures
            final(self).wf(),
            final(self)@ == old(self)@.insert((binding.key, binding.modifiers), binding.action@),
            final(self).mode() == old(self).mode(),
    {
        let ghost s = bindings_view(self.bindings@);
        let ghost b = binding@;
        match self.find_index(binding.key, binding.modifiers) {
            Some(i) => {
                proof {
                    lemma_fold_update(s, i as int, b);
                }
                self.bindings.set(i, binding);
                assert(bindings_view(self.bindings@) =~= s.update(i as int, b));
            },
            None => {
                self.bindings.push(binding);
                assert(bindings_view(self.bindings@) =~= s.push(b));
                proof {
                    lemma_fold_push(s, b);
                }
            },
        }
    }

    /// Remove a key binding.
    pub fn remove_binding(&mut self, key: KeyCode, modifiers: KeyModifiers)
        requires
            old(self).wf(),
        ensures
            final(self).wf(),
            final(self)@ == old(self)@.remove((key, modifiers)),
            final(self).mode() == old(self).mode(),
    {
        let ghost s = bindings_view(self.bindings@);
        match self.find_index(key, modifiers) {
            Some(i) => {
                proof {
                    lemma_fold_remove(s, i as int);
                }
                self.bindings.remove(i);
                assert(bindings_view(self.bindings@) =~= s.remove(i as int));
            },
            None => {
                proof {
                    lemma_fold_absent(s, (key, modifiers));
                }
                assert(self@ =~= self@.remove((key, modifiers)));
            },
        }
    }

    /// Map a key event to an action: its binding if it has one, else a
    /// character typed without modifiers inserts that character.
    pub fn map_key(&self, event: &KeyEvent) -> (r: Option<KeyAction>)
        requires
            self.wf(),
        ensures
            opt_action_view(r) == map_key_spec(self@, *event),
    {
        match self.find_index(event.code, event.modifiers) {
            Some(i) => {
                proof {
                    lemma_fold_lookup(bindings_view(self.bindings@), i as int);
                }
                Some(self.bindings[i].action.duplicate())
            },
            None => {
                proof {
                    lemma_fold_absent(bindings_view(self.bindings@), (event.code, event.modifiers));
                }
                if event.modifiers.is_empty() {
                    if let KeyCode::Char(c) = event.code {
                        return Some(KeyAction::Insert(c));
                    }
                }
                None
            },
        }
    }

    /// Get all current bindings, one per key.
    pub fn bindings(&self) -> (r: &Vec<KeyBinding>)
        requires
            self.wf(),
        ensures
            keys_unique(bindings_view(r@)),
            fold_bindings(bindings_view(r@)) == self@,
    {
        &self.bindings
    }

    /// Change navigation mode and reload bindings.
    pub fn set_navigation_mode(&mut self, mode: NavigationMode)
        ensures
            final(self).wf(),
            final(self)@ == fold_bindings(default_bindings_spec(mode)),
            final(self).mode() == mode,
    {
        *self = KeyMapper::new(mode);
    }

    /// Get current navigation mode.
    pub fn navigation_mode(&self) -> (r: &NavigationMode)
        ensures
            *r == self.mode(),
    {
        &self.navigation_mode
    }
}

impl Default for KeyMapper {
    fn default() -> (r: Self)
        ensures
            r.wf(),
            r@ == fold_bindings(default_bindings_spec(NavigationMode::Normal)),
            r.mode() == NavigationMode::Normal,
    {
        KeyMapper::new(NavigationMode::Normal)
    }
}

/// The texts of a sequence of identifiers.
pub open spec fn ids_view(s: Seq<ComponentId>) -> Seq<Seq<char>> {
    s.map_values(|c: ComponentId| c@)
}

/// The text of an optional identifier.
pub open spec fn opt_id_view(c: Option<ComponentId>) -> Option<Seq<char>> {
    match c {
        Some(x) => Some(x@),
        None => None,
    }
}

/// The entries of `h` other than `id`, in order.
pub open spec fn without(h: Seq<Seq<char>>, id: Seq<char>) -> Seq<Seq<char>> {
    h.filter(|x: Seq<char>| x != id)
}

/// The history after recording `id`: any earlier entry of `id` is removed,
/// `id` goes to the end, and the oldest entry is dropped when the history
/// grows beyond `max`.
pub open spec fn history_after_add(h: Seq<Seq<char>>, id: Seq<char>, max: nat) -> Seq<Seq<char>> {
    let pushed = without(h, id).push(id);
    if pushed.len() > max {
        pushed.drop_first()
    } else {
        pushed
    }
}

/// No entry occurs twice.
pub open spec fn no_duplicates(h: Seq<Seq<char>>) -> bool {
    forall|i: int, j: int| 0 <= i < j < h.len() ==> h[i] != h[j]
}

/// Navigation context for components.
#[derive(Debug, Clone)]
pub struct NavigationContext {
    /// Current component in focus.
    pub current_component: Option<ComponentId>,
    /// Navigation history.
    pub history: Vec<ComponentId>,
    /// Maximum history size.
    pub max_history: usize,
    /// Whether navigation wrapping is enabled.
    pub wrap_navigation: bool,
    /// Navigation mode (normal, vim-style, etc.).
    pub navigation_mode: NavigationMode,
}

proof fn lemma_filter_step(h: Seq<Seq<char>>, id: Seq<char>, i: int)
    requires
        0 <= i < h.len(),
    ensures
        without(h.take(i + 1), id) == (if h[i] != id {
            without(h.take(i), id).push(h[i])
        } else {
            without(h.take(i), id)
        }),
{
    reveal_with_fuel(Seq::filter, 1);
    assert(h.take(i + 1).drop_last() =~= h.take(i));
}

/// Recording an entry keeps the history free of duplicates, bounded by
/// `max`, and ends it with that entry.
pub proof fn lemma_history_after_add(h: Seq<Seq<char>>, id: Seq<char>, max: nat)
    requires
        no_duplicates(h),
        max >= 1,
    ensures
        no_duplicates(history_after_add(h, id, max)),
        h.len() <= max ==> history_after_add(h, id, max).len() <= max,
        history_after_add(h, id, max).last() == id,
        history_after_add(h, id, max).contains(id),
{
    let f = without(h, id);
    lemma_filter_subset(h, id);
    
    let pushed = f.push(id);
    assert forall|i: int, j: int| 0 <= i < j < pushed.len() implies pushed[i] != pushed[j] by {
        if j == pushed.len() - 1 {
            assert(f[i] != id);
        } else {
            lemma_filter_no_dup(h, id);
        }
    }
    let r = history_after_add(h, id, max);
    if pushed.len() > max {
        assert(r == pushed.drop_first());
        assert forall|i: int, j: int| 0 <= i < j < r.len() implies r[i] != r[j] by {
            assert(r[i] == pushed[i + 1]);
            assert(r[j] == pushed[j + 1]);
        }
        assert(r[r.len() - 1] == pushed[pushed.len() - 1]);
    }
    assert(r[r.len() - 1] == id);
}

proof fn lemma_filter_subset(h: Seq<Seq<char>>, id: Seq<char>)
    ensures
        forall|i: int| 0 <= i < without(h, id).len()
            ==> h.contains(#[trigger] without(h, id)[i]) && without(h, id)[i] != id,
    decreases h.len(),
{
    reveal_with_fuel(Seq::filter, 1);
    if h.len() > 0 {
        let d = h.drop_last();
        lemma_filter_subset(d, id);
        let fd = without(d, id);
        let f = without(h, id);
        assert forall|i: int| 0 <= i < f.len() implies h.contains(#[trigger] f[i]) && f[i] != id by {
            if i < fd.len() {
                assert(f[i] == fd[i]);
                assert(d.contains(fd[i]));
                let k = choose|k: int| 0 <= k < d.len() && d[k] == fd[i];
                assert(h[k] == fd[i]);
            } else {
                assert(f[i] == h[h.len() - 1]);
            }
        }
    }
}

proof fn lemma_filter_no_dup(h: Seq<Seq<char>>, id: Seq<char>)
    requires
        no_duplicates(h),
    ensures
        no_duplicates(without(h, id)),
    decreases h.len(),
{
    reveal_with_fuel(Seq::filter, 1);
    if h.len() > 0 {
        let d = h.drop_last();
        assert forall|i: int, j: int| 0 <= i < j < d.len() implies d[i] != d[j] by {
            assert(d[i] == h[i] && d[j] == h[j]);
        }
        lemma_filter_no_dup(d, id);
        lemma_filter_subset(d, id);
        let fd = without(d, id);
        if h.last() != id {
            let f = fd.push(h.last());
            assert forall|i: int, j: int| 0 <= i < j < f.len() implies f[i] != f[j] by {
                if j == f.len() - 1 {
                    assert(d.contains(fd[i]));
                    let k = choose|k: int| 0 <= k < d.len() && d[k] == fd[i];
                    assert(h[k] == fd[i]);
                    assert(h[h.len() - 1] == h.last());
                }
            }
        }
    }
}

impl NavigationContext {
    /// The text of the current component, if any.
    pub open spec fn current_view(&self) -> Option<Seq<char>> {
        opt_id_view(self.current_component)
    }

    /// The texts of the history, oldest first.
    pub open spec fn history_view(&self) -> Seq<Seq<char>> {
        ids_view(self.history@)
    }

    /// An empty context: no current component, no history, room for 50
    /// entries, wrapping on, normal navigation.
    pub fn new() -> (r: Self)
        ensures
            r.current_component is None,
            r.history@.len() == 0,
            r.max_history == 50,
            r.wrap_navigation,
            r.navigation_mode == NavigationMode::Normal,
    {
        NavigationContext {
            current_component: None,
            history: Vec::new(),
            max_history: 50,
            wrap_navigation: true,
            navigation_mode: NavigationMode::Normal,
        }
    }

    /// Set current component; a different previous current component goes
    /// to the history.
    pub fn set_current(&mut self, component_id: ComponentId)
        ensures
            final(self).current_view() == Some(component_id@),
            final(self).history_view() == (match old(self).current_view() {
                Some(c) => if c != component_id@ {
                    history_after_add(old(self).history_view(), c, old(self).max_history as nat)
                } else {
                    old(self).history_view()
                },
                None => old(self).history_view(),
            }),
            final(self).max_history == old(self).max_history,
            final(self).wrap_navigation == old(self).wrap_navigation,
            final(self).navigation_mode == old(self).navigation_mode,
    {
        let previous = match &self.current_component {
            Some(current) => if !current.same_as(&component_id) {
                Some(current.duplicate())
            } else {
                None
            },
            None => None,
        };
        if let Some(p) = previous {
            self.add_to_history(p);
        }
        self.current_component = Some(component_id);
    }

    /// Go back to the previous component: the last history entry becomes
    /// current and is returned.
    pub fn go_back(&mut self) -> (r: Option<ComponentId>)
        ensures
            old(self).history@.len() == 0 ==> {
                &&& r is None
                &&& final(self).current_component == old(self).current_component
                &&& final(self).history_view() == old(self).history_view()
            },
            old(self).history@.len() > 0 ==> {
                &&& opt_id_view(r) == Some(old(self).history_view().last())
                &&& final(self).current_view() == Some(old(self).history_view().last())
                &&& final(self).history_view() == old(self).history_view().drop_last()
            },
            final(self).max_history == old(self).max_history,
            final(self).wrap_navigation == old(self).wrap_navigation,
            final(self).navigation_mode == old(self).navigation_mode,
    {
        let ghost h = self.history_view();
        let ghost hv = self.history@;
        if let Some(previous) = self.history.pop() {
            assert(ids_view(self.history@) =~= h.drop_last());
            assert(previous@ == h.last()) by {
                assert(hv.last() == previous);
            }
            self.current_component = Some(previous.duplicate());
            Some(previous)
        } else {
            None
        }
    }

    /// Add component to navigation history.
    fn add_to_history(&mut self, component_id: ComponentId)
        ensures
            final(self).history_view() == history_after_add(
                old(self).history_view(),
                component_id@,
                old(self).max_history as nat,
            ),
            final(self).current_component == old(self).current_component,
            final(self).max_history == old(self).max_history,
            final(self).wrap_navigation == old(self).wrap_navigation,
            final(self).navigation_mode == old(self).navigation_mode,
    {
        let ghost h = self.history_view();
        let ghost id = component_id@;
        let mut kept: Vec<ComponentId> = Vec::new();
        let mut i: usize = 0;
        assert(ids_view(kept@) =~= without(h.take(0), id));
        while i < self.history.len()
            invariant
                i <= self.history@.len(),
                h == ids_view(self.history@),
                id == component_id@,
                ids_view(kept@) == without(h.take(i as int), id),
            decreases self.history@.len() - i,
        {
            proof {
                lemma_filter_step(h, id, i as int);
            }
            if !self.history[i].same_as(&component_id) {
                let ghost before = kept@;
                kept.push(self.history[i].duplicate());
                assert(ids_view(kept@) =~= ids_view(before).push(h[i as int]));
            }
            i += 1;
        }
        assert(h.take(i as int) =~= h);
        let ghost before = kept@;
        kept.push(component_id);
        assert(ids_view(kept@) =~= ids_view(before).push(id));
        let ghost pushed = ids_view(kept@);
        assert(pushed == without(h, id).push(id));
        if kept.len() > self.max_history {
            let ghost pk = kept@;
            kept.remove(0);
            assert(ids_view(kept@) =~= ids_view(pk).drop_first());
            assert(ids_view(kept@) == history_after_add(h, id, self.max_history as nat));
        } else {
            assert(ids_view(kept@) == history_after_add(h, id, self.max_history as nat));
        }
        self.history = kept;
    }

    /// Clear navigation history.
    pub fn clear_history(&mut self)
        ensures
            final(self).history@.len() == 0,
            final(self).current_component == old(self).current_component,
            final(self).max_history == old(self).max_history,
            final(self).wrap_navigation == old(self).wrap_navigation,
            final(self).navigation_mode == old(self).navigation_mode,
    {
        self.history.clear();
    }
}

impl Default for NavigationContext {
    fn default() -> (r: Self)
        ensures
            r.current_component is None,
            r.history@.len() == 0,
            r.max_history == 50,
            r.wrap_navigation,
            r.navigation_mode == NavigationMode::Normal,
    {
        NavigationContext::new()
    }
}

/// Whether one of the bindings is for the key and its modifiers.
pub fn bindings_match(bindings: &Vec<KeyBinding>, event: &KeyEvent) -> (r: bool)
    ensures
        r == exists|i: int|
            0 <= i < bindings@.len() && #[trigger] bindings@[i].key == event.code && bindings@[i].modifiers
                == event.modifiers,
{
    let mut i: usize = 0;
    while i < bindings.len()
        invariant
            i <= bindings@.len(),
            forall|j: int| 0 <= j < i ==> !(bindings@[j].key == event.code && bindings@[j].modifiers == event.modifiers),
        decreases bindings@.len() - i,
    {
        if bindings[i].matches(event) {
            return true;
        }
        i += 1;
    }
    false
}

/// A component that handles keys by bindings of its own.
pub trait KeyboardHandler {
    /// Handle a key and give the resulting actions.
    fn handle_key(&mut self, event: KeyEvent, context: &NavigationContext) -> ComponentResult<Vec<KeyAction>>;

    /// The component's key bindings.
    fn key_bindings(&self) -> Vec<KeyBinding>;

    /// Whether one of the component's bindings is for the key and its
    /// modifiers.
    fn can_handle_key(&self, event: &KeyEvent) -> bool {
        let bindings = self.key_bindings();
        bindings_match(&bindings, event)
    }
}

} // verus!
