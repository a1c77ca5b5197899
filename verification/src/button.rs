//! Buttons: variants, sizes, loading and pressed states, click counting for
//! double clicks, the text and style they show, and groups of buttons.

use vstd::prelude::*;
use crate::text::copy_text;
use vstd::string::*;
use crate::clock::{instant_now, millis_between};
use crate::component::{
    CommonComponentState, ComponentEvent, ComponentId, ComponentResult, FocusState, ValidationState,
    VisibilityState,
};
use crate::keys::{KeyCode, KeyEvent};
use crate::colors::{state_bg_color, state_color, theme_colors_of, dark_palette, ComponentState, ThemeColors};
use crate::style::{CellStyle, Color, Modifier, Style};
use crate::styles::{dark_style_set, StyleSet};
use crate::theme::AppTheme;

verus! {

/// The look and role of a button.
#[derive(Debug, Clone, Copy, PartialEq, Eq, Structural)]
pub enum ButtonVariant {
    /// Main action button.
    Primary,
    /// Secondary action button.
    Secondary,
    /// Success/confirmation button.
    Success,
    /// Warning action button.
    Warning,
    /// Destructive action button.
    Danger,
    /// Minimal styling button.
    Minimal,
    /// Link-style button.
    Link,
}

/// The size of a button.
#[derive(Debug, Clone, Copy, PartialEq, Eq, Structural)]
pub enum ButtonSize {
    Small,
    Medium,
    Large,
}

/// Orientation of a group of buttons.
#[derive(Debug, Clone, Copy, PartialEq, Eq, Structural)]
pub enum ButtonGroupOrientation {
    Horizontal,
    Vertical,
}

/// Button state: interaction and timing.
#[derive(Debug, Clone)]
pub struct ButtonState {
    pub common: CommonComponentState,
    pub is_pressed: bool,
    pub loading_start: Option<std::time::Instant>,
    pub press_start: Option<std::time::Instant>,
    pub click_count: u32,
    pub last_click_time: Option<std::time::Instant>,
}

/// The state a theme colors a button by: disabled, focused, loading,
/// pressed, or in no particular state.
pub open spec fn button_theme_state(p: ButtonProps, s: ButtonState) -> ComponentState {
    if p.disabled {
        ComponentState::Disabled
    } else if s.common.focus_state == FocusState::Focused {
        ComponentState::Focused
    } else if s.loading_start is Some {
        ComponentState::Loading
    } else if s.is_pressed {
        ComponentState::Selected
    } else {
        ComponentState::Normal
    }
}

/// The background a variant takes in a theme.
pub open spec fn variant_background(v: ButtonVariant, c: ThemeColors) -> Color {
    match v {
        ButtonVariant::Primary => c.primary,
        ButtonVariant::Secondary => c.secondary,
        ButtonVariant::Success => c.success,
        ButtonVariant::Warning => c.warning,
        ButtonVariant::Danger => c.error,
        ButtonVariant::Minimal => c.background,
        ButtonVariant::Link => c.background,
    }
}

/// The text and border styles of a button in a theme's colors and styles.
pub open spec fn themed_button_styles(p: ButtonProps, s: ButtonState, c: ThemeColors, ts: StyleSet) -> (Style, Style) {
    let state = button_theme_state(p, s);
    let bg = if state != ComponentState::Normal {
        state_bg_color(c, state)
    } else {
        variant_background(p.variant, c)
    };
    (
        Style {
            fg: Some(state_color(c, state)),
            bg: Some(bg),
            underline_color: None,
            add_modifier: ts.text.normal.modifiers,
        },
        Style {
            fg: Some(if state == ComponentState::Focused { c.focus } else { c.border }),
            bg: None,
            underline_color: None,
            add_modifier: Modifier { bits: 0 },
        },
    )
}

/// Button configuration.
#[derive(Debug, Clone)]
pub struct ButtonProps {
    pub id: ComponentId,
    pub text: String,
    pub variant: ButtonVariant,
    pub size: ButtonSize,
    pub disabled: bool,
    pub full_width: bool,
    pub show_icon: bool,
    pub icon: Option<String>,
    pub loading_text: Option<String>,
    pub help_text: Option<String>,
    /// Keyboard shortcut shown with the text.
    pub shortcut: Option<String>,
}

impl Default for ButtonProps {
    fn default() -> (r: Self)
        ensures
            r.id@ == "button"@,
            r.text@ == "Button"@,
            r.variant == ButtonVariant::Primary,
            r.size == ButtonSize::Medium,
            !r.disabled && !r.full_width && !r.show_icon,
            r.icon is None && r.loading_text is None && r.help_text is None && r.shortcut is None,
    {
        ButtonProps {
            id: ComponentId::new("button"),
            text: "Button".to_owned(),
            variant: ButtonVariant::Primary,
            size: ButtonSize::Medium,
            disabled: false,
            full_width: false,
            show_icon: false,
            icon: None,
            loading_text: None,
            help_text: None,
            shortcut: None,
        }
    }
}

/// The text a button shows: the loading text (or "Loading...") while
/// loading, else its text; with its icon, or the hourglass while loading;
/// and its shortcut in brackets.
pub open spec fn display_text_spec(p: ButtonProps, loading: bool) -> Seq<char> {
    let base = if loading {
        match p.loading_text {
            Some(t) => t@,
            None => "Loading..."@,
        }
    } else {
        p.text@
    };
    let with_icon = if p.show_icon {
        match p.icon {
            Some(i) => if loading { "⏳ "@ + base } else { i@ + " "@ + base },
            None => base,
        }
    } else if loading {
        "⏳ "@ + base
    } else {
        base
    };
    match p.shortcut {
        Some(s) => with_icon + " ("@ + s@ + ")"@,
        None => with_icon,
    }
}

/// The foreground and background colors of a variant.
pub open spec fn variant_colors(v: ButtonVariant) -> (Color, Color) {
    match v {
        ButtonVariant::Primary => (Color::White, Color::Blue),
        ButtonVariant::Secondary => (Color::Black, Color::Gray),
        ButtonVariant::Success => (Color::White, Color::Green),
        ButtonVariant::Warning => (Color::Black, Color::Yellow),
        ButtonVariant::Danger => (Color::White, Color::Red),
        ButtonVariant::Minimal => (Color::White, Color::Reset),
        ButtonVariant::Link => (Color::Blue, Color::Reset),
    }
}

/// The style of the text of a button.
pub open spec fn text_style_spec(p: ButtonProps, common: CommonComponentState) -> CellStyle {
    let (fg, bg) = variant_colors(p.variant);
    if p.disabled {
        CellStyle { fg: Some(Color::DarkGray), bg: Some(Color::Reset), bold: false }
    } else if common.focus_state == FocusState::Focused {
        CellStyle { fg: Some(fg), bg: Some(bg), bold: true }
    } else {
        CellStyle { fg: Some(fg), bg: Some(bg), bold: false }
    }
}

/// The style of the border of a button.
pub open spec fn border_style_spec(common: CommonComponentState) -> CellStyle {
    if common.focus_state == FocusState::Focused {
        CellStyle { fg: Some(Color::Cyan), bg: None, bold: false }
    } else if !(common.validation_state is Valid) {
        CellStyle { fg: Some(Color::Red), bg: None, bold: false }
    } else {
        CellStyle { fg: Some(Color::Gray), bg: None, bold: false }
    }
}

/// The smallest width and the height of a button whose text takes
/// `text_width` bytes.
pub open spec fn dimensions_spec(size: ButtonSize, text_width: u16) -> (int, int) {
    match size {
        ButtonSize::Small => (text_width + 2, 1),
        ButtonSize::Medium => (text_width + 4, 3),
        ButtonSize::Large => (text_width + 6, 3),
    }
}

/// The timing state after an update, given the milliseconds since the
/// press started and since the last click (when there are such): a press
/// longer than 150 ms is released, and a click count older than a second is
/// reset.
pub open spec fn updated_state(o: ButtonState, since_press: Option<u128>, since_click: Option<u128>) -> ButtonState {
    let released = o.press_start is Some && (since_press matches Some(d) && d > 150);
    let after_release = if released && o.is_pressed {
        ButtonState { is_pressed: false, press_start: None, ..o }
    } else {
        o
    };
    let reset = o.last_click_time is Some && (since_click matches Some(d) && d > 1000);
    if reset {
        ButtonState { click_count: 0, last_click_time: None, ..after_release }
    } else {
        after_release
    }
}

/// Button component for user interactions.
#[derive(Debug)]
pub struct Button {
    id: ComponentId,
    props: ButtonProps,
    state: ButtonState,
}

impl Clone for Button {
    /// An exact copy: the same identifier, configuration and state.
    fn clone(&self) -> (r: Self)
        ensures
            r == *self,
    {
        let props = ButtonProps {
            id: self.props.id.duplicate(),
            text: self.props.text.clone(),
            variant: self.props.variant,
            size: self.props.size,
            disabled: self.props.disabled,
            full_width: self.props.full_width,
            show_icon: self.props.show_icon,
            icon: copy_text(&self.props.icon),
            loading_text: copy_text(&self.props.loading_text),
            help_text: copy_text(&self.props.help_text),
            shortcut: copy_text(&self.props.shortcut),
        };
        let state = ButtonState {
            common: self.state.common.duplicate(),
            is_pressed: self.state.is_pressed,
            loading_start: self.state.loading_start,
            press_start: self.state.press_start,
            click_count: self.state.click_count,
            last_click_time: self.state.last_click_time,
        };
        Button { id: self.id.duplicate(), props, state }
    }
}

impl Button {
    pub closed spec fn id_view(&self) -> Seq<char> {
        self.id@
    }

    pub closed spec fn props_view(&self) -> ButtonProps {
        self.props
    }

    pub closed spec fn state_view(&self) -> ButtonState {
        self.state
    }

    /// Whether the button is loading.
    pub open spec fn loading(&self) -> bool {
        self.state_view().loading_start is Some
    }

    /// A button with the given configuration, idle.
    pub fn new(props: ButtonProps) -> (r: Self)
        ensures
            r.id_view() == props.id@,
            r.props_view() == props,
            !r.state_view().is_pressed,
            r.state_view().loading_start is None,
            r.state_view().press_start is None,
            r.state_view().click_count == 0,
            r.state_view().last_click_time is None,
            r.state_view().common.focus_state == FocusState::Unfocused,
    {
        Button {
            id: props.id.duplicate(),
            props,
            state: ButtonState {
                common: CommonComponentState::default(),
                is_pressed: false,
                loading_start: None,
                press_start: None,
                click_count: 0,
                last_click_time: None,
            },
        }
    }

    /// Set the text.
    pub fn with_text(self, text: &str) -> (r: Self)
        ensures
            r.props_view().text@ == text@,
            r.props_view() == (ButtonProps { text: r.props_view().text, ..self.props_view() }),
            r.state_view() == self.state_view(),
            r.id_view() == self.id_view(),
    {
        let mut s = self;
        s.props.text = text.to_owned();
        s
    }

    /// Set the variant.
    fn with_variant(self, variant: ButtonVariant) -> (r: Self)
        ensures
            r.props_view() == (ButtonProps { variant, ..self.props_view() }),
            r.state_view() == self.state_view(),
            r.id_view() == self.id_view(),
    {
        let mut s = self;
        s.props.variant = variant;
        s
    }

    /// Make it a primary button.
    pub fn primary(self) -> (r: Self)
        ensures
            r.props_view() == (ButtonProps { variant: ButtonVariant::Primary, ..self.props_view() }),
            r.state_view() == self.state_view(),
            r.id_view() == self.id_view(),
    {
        self.with_variant(ButtonVariant::Primary)
    }

    /// Make it a secondary button.
    pub fn secondary(self) -> (r: Self)
        ensures
            r.props_view() == (ButtonProps { variant: ButtonVariant::Secondary, ..self.props_view() }),
            r.state_view() == self.state_view(),
            r.id_view() == self.id_view(),
    {
        self.with_variant(ButtonVariant::Secondary)
    }

    /// Make it a success button.
    pub fn success(self) -> (r: Self)
        ensures
            r.props_view() == (ButtonProps { variant: ButtonVariant::Success, ..self.props_view() }),
            r.state_view() == self.state_view(),
            r.id_view() == self.id_view(),
    {
        self.with_variant(ButtonVariant::Success)
    }

    /// Make it a warning button.
    pub fn warning(self) -> (r: Self)
        ensures
            r.props_view() == (ButtonProps { variant: ButtonVariant::Warning, ..self.props_view() }),
            r.state_view() == self.state_view(),
            r.id_view() == self.id_view(),
    {
        self.with_variant(ButtonVariant::Warning)
    }

    /// Make it a danger button.
    pub fn danger(self) -> (r: Self)
        ensures
            r.props_view() == (ButtonProps { variant: ButtonVariant::Danger, ..self.props_view() }),
            r.state_view() == self.state_view(),
            r.id_view() == self.id_view(),
    {
        self.with_variant(ButtonVariant::Danger)
    }

    /// Make it a ghost button.
    pub fn ghost(self) -> (r: Self)
        ensures
            r.props_view() == (ButtonProps { variant: ButtonVariant::Minimal, ..self.props_view() }),
            r.state_view() == self.state_view(),
            r.id_view() == self.id_view(),
    {
        self.with_variant(ButtonVariant::Minimal)
    }

    /// Make it a link button.
    pub fn link(self) -> (r: Self)
        ensures
            r.props_view() == (ButtonProps { variant: ButtonVariant::Link, ..self.props_view() }),
            r.state_view() == self.state_view(),
            r.id_view() == self.id_view(),
    {
        self.with_variant(ButtonVariant::Link)
    }

    /// Set the size.
    fn with_size(self, size: ButtonSize) -> (r: Self)
        ensures
            r.props_view() == (ButtonProps { size, ..self.props_view() }),
            r.state_view() == self.state_view(),
            r.id_view() == self.id_view(),
    {
        let mut s = self;
        s.props.size = size;
        s
    }

    /// Make it small.
    pub fn small(self) -> (r: Self)
        ensures
            r.props_view() == (ButtonProps { size: ButtonSize::Small, ..self.props_view() }),
            r.state_view() == self.state_view(),
            r.id_view() == self.id_view(),
    {
        self.with_size(ButtonSize::Small)
    }

    /// Make it medium.
    pub fn medium(self) -> (r: Self)
        ensures
            r.props_view() == (ButtonProps { size: ButtonSize::Medium, ..self.props_view() }),
            r.state_view() == self.state_view(),
            r.id_view() == self.id_view(),
    {
        self.with_size(ButtonSize::Medium)
    }

    /// Make it large.
    pub fn large(self) -> (r: Self)
        ensures
            r.props_view() == (ButtonProps { size: ButtonSize::Large, ..self.props_view() }),
            r.state_view() == self.state_view(),
            r.id_view() == self.id_view(),
    {
        self.with_size(ButtonSize::Large)
    }

    /// Set whether it is disabled.
    pub fn disabled(self, disabled: bool) -> (r: Self)
        ensures
            r.props_view() == (ButtonProps { disabled, ..self.props_view() }),
            r.state_view() == self.state_view(),
            r.id_view() == self.id_view(),
    {
        let mut s = self;
        s.props.disabled = disabled;
        s
    }

    /// Set whether it takes the full width.
    pub fn full_width(self, full_width: bool) -> (r: Self)
        ensures
            r.props_view() == (ButtonProps { full_width, ..self.props_view() }),
            r.state_view() == self.state_view(),
            r.id_view() == self.id_view(),
    {
        let mut s = self;
        s.props.full_width = full_width;
        s
    }

    /// Show an icon.
    pub fn with_icon(self, icon: &str) -> (r: Self)
        ensures
            r.props_view().icon matches Some(i) && i@ == icon@,
            r.props_view() == (ButtonProps { icon: r.props_view().icon, show_icon: true, ..self.props_view() }),
            r.state_view() == self.state_view(),
            r.id_view() == self.id_view(),
    {
        let mut s = self;
        s.props.icon = Some(icon.to_owned());
        s.props.show_icon = true;
        s
    }

    /// Set the text shown while loading.
    pub fn with_loading_text(self, loading_text: &str) -> (r: Self)
        ensures
            r.props_view().loading_text matches Some(t) && t@ == loading_text@,
            r.props_view() == (ButtonProps { loading_text: r.props_view().loading_text, ..self.props_view() }),
            r.state_view() == self.state_view(),
            r.id_view() == self.id_view(),
    {
        let mut s = self;
        s.props.loading_text = Some(loading_text.to_owned());
        s
    }

    /// Set the help text.
    pub fn with_help_text(self, help_text: &str) -> (r: Self)
        ensures
            r.props_view().help_text matches Some(t) && t@ == help_text@,
            r.props_view() == (ButtonProps { help_text: r.props_view().help_text, ..self.props_view() }),
            r.state_view() == self.state_view(),
            r.id_view() == self.id_view(),
    {
        let mut s = self;
        s.props.help_text = Some(help_text.to_owned());
        s
    }

    /// Set the shortcut shown with the text.
    pub fn with_shortcut(self, shortcut: &str) -> (r: Self)
        ensures
            r.props_view().shortcut matches Some(t) && t@ == shortcut@,
            r.props_view() == (ButtonProps { shortcut: r.props_view().shortcut, ..self.props_view() }),
            r.state_view() == self.state_view(),
            r.id_view() == self.id_view(),
    {
        let mut s = self;
        s.props.shortcut = Some(shortcut.to_owned());
        s
    }

    /// The identifier.
    pub fn id(&self) -> (r: &ComponentId)
        ensures
            r@ == self.id_view(),
    {
        &self.id
    }

    /// The configuration.
    pub fn props(&self) -> (r: &ButtonProps)
        ensures
            *r == self.props_view(),
    {
        &self.props
    }

    /// The state.
    pub fn state(&self) -> (r: &ButtonState)
        ensures
            *r == self.state_view(),
    {
        &self.state
    }

    /// Start loading, unless disabled.
    pub fn start_loading(&mut self)
        ensures
            old(self).props_view().disabled ==> final(self).state_view() == old(self).state_view(),
            !old(self).props_view().disabled ==> final(self).loading()
                && final(self).state_view() == (ButtonState { loading_start: final(self).state_view().loading_start, ..old(self).state_view() }),
            final(self).props_view() == old(self).props_view(),
            final(self).id_view() == old(self).id_view(),
    {
        if !self.is_disabled() {
            self.state.loading_start = Some(instant_now());
        }
    }

    /// Stop loading.
    pub fn stop_loading(&mut self)
        ensures
            final(self).state_view() == (ButtonState { loading_start: None, ..old(self).state_view() }),
            final(self).props_view() == old(self).props_view(),
            final(self).id_view() == old(self).id_view(),
    {
        self.state.loading_start = None;
    }

    /// Enable the button.
    pub fn enable(&mut self)
        ensures
            final(self).props_view() == (ButtonProps { disabled: false, ..old(self).props_view() }),
            final(self).state_view() == old(self).state_view(),
            final(self).id_view() == old(self).id_view(),
    {
        self.props.disabled = false;
    }

    /// Disable the button.
    pub fn disable(&mut self)
        ensures
            final(self).props_view() == (ButtonProps { disabled: true, ..old(self).props_view() }),
            final(self).state_view() == old(self).state_view(),
            final(self).id_view() == old(self).id_view(),
    {
        self.props.disabled = true;
    }

    /// Whether the button is disabled.
    pub fn is_disabled(&self) -> (r: bool)
        ensures
            r == self.props_view().disabled,
    {
        self.props.disabled
    }

    /// Whether the button is loading.
    pub fn is_loading(&self) -> (r: bool)
        ensures
            r == self.loading(),
    {
        self.state.loading_start.is_some()
    }

    /// Whether the button is pressed.
    pub fn is_pressed(&self) -> (r: bool)
        ensures
            r == self.state_view().is_pressed,
    {
        self.state.is_pressed
    }

    /// Press the button, unless disabled or loading.
    pub fn press(&mut self)
        ensures
            (old(self).props_view().disabled || old(self).loading()) ==> final(self).state_view() == old(self).state_view(),
            !(old(self).props_view().disabled || old(self).loading()) ==> {
                &&& final(self).state_view().is_pressed
                &&& final(self).state_view().press_start is Some
                &&& final(self).state_view() == (ButtonState {
                    is_pressed: true,
                    press_start: final(self).state_view().press_start,
                    ..old(self).state_view()
                })
            },
            final(self).props_view() == old(self).props_view(),
            final(self).id_view() == old(self).id_view(),
    {
        if !self.is_disabled() && !self.is_loading() {
            self.state.is_pressed = true;
            self.state.press_start = Some(instant_now());
        }
    }

    /// Release the press, if pressed.
    pub fn release(&mut self)
        ensures
            old(self).state_view().is_pressed ==> final(self).state_view()
                == (ButtonState { is_pressed: false, press_start: None, ..old(self).state_view() }),
            !old(self).state_view().is_pressed ==> final(self).state_view() == old(self).state_view(),
            final(self).props_view() == old(self).props_view(),
            final(self).id_view() == old(self).id_view(),
    {
        if self.state.is_pressed {
            self.state.is_pressed = false;
            self.state.press_start = None;
        }
    }

    /// Record a click at `now`, `since_last` milliseconds after the last
    /// click when there was one: a click within half a second of the last
    /// adds to the count, any other starts it again at one.
    pub fn register_click(&mut self, now: std::time::Instant, since_last: Option<u128>)
        requires
            old(self).state_view().click_count < u32::MAX,
        ensures
            final(self).state_view().click_count == (match (old(self).state_view().last_click_time, since_last) {
                (Some(_), Some(d)) => if d < 500 { (old(self).state_view().click_count + 1) as u32 } else { 1u32 },
                _ => 1u32,
            }),
            final(self).state_view().last_click_time == Some(now),
            final(self).state_view().common.dirty,
            final(self).state_view().is_pressed == old(self).state_view().is_pressed,
            final(self).state_view().loading_start == old(self).state_view().loading_start,
            final(self).state_view().press_start == old(self).state_view().press_start,
            final(self).state_view().common.focus_state == old(self).state_view().common.focus_state,
            final(self).props_view() == old(self).props_view(),
            final(self).id_view() == old(self).id_view(),
    {
        let quick = match (self.state.last_click_time, since_last) {
            (Some(_), Some(d)) => d < 500,
            _ => false,
        };
        if quick {
            self.state.click_count = self.state.click_count + 1;
        } else {
            self.state.click_count = 1;
        }
        self.state.last_click_time = Some(now);
        self.state.common.mark_dirty();
    }

    /// Click the button: refused (false) when disabled or loading; else the
    /// click is counted at the current time.
    pub fn click(&mut self) -> (r: bool)
        requires
            old(self).state_view().click_count < u32::MAX,
        ensures
            r == !(old(self).props_view().disabled || old(self).loading()),
            !r ==> final(self).state_view() == old(self).state_view(),
            r ==> {
                &&& 1 <= final(self).state_view().click_count <= old(self).state_view().click_count + 1
                &&& final(self).state_view().last_click_time is Some
                &&& final(self).state_view().common.dirty
                &&& final(self).state_view().is_pressed == old(self).state_view().is_pressed
                &&& final(self).state_view().loading_start == old(self).state_view().loading_start
                &&& final(self).state_view().common.focus_state == old(self).state_view().common.focus_state
            },
            final(self).props_view() == old(self).props_view(),
            final(self).id_view() == old(self).id_view(),
    {
        if self.is_disabled() || self.is_loading() {
            return false;
        }
        let now = instant_now();
        let since_last = match &self.state.last_click_time {
            Some(last) => Some(millis_between(last, &now)),
            None => None,
        };
        self.register_click(now, since_last);
        true
    }

    /// The click count, for double-click detection.
    pub fn click_count(&self) -> (r: u32)
        ensures
            r == self.state_view().click_count,
    {
        self.state.click_count
    }

    /// Reset the click count.
    pub fn reset_click_count(&mut self)
        ensures
            final(self).state_view() == (ButtonState { click_count: 0, last_click_time: None, ..old(self).state_view() }),
            final(self).props_view() == old(self).props_view(),
            final(self).id_view() == old(self).id_view(),
    {
        self.state.click_count = 0;
        self.state.last_click_time = None;
    }

    /// The text the button shows.
    pub fn get_display_text(&self) -> (r: String)
        ensures
            r@ == display_text_spec(self.props_view(), self.loading()),
    {
        let loading = self.state.loading_start.is_some();
        let base = if loading {
            match &self.props.loading_text {
                Some(t) => t.clone(),
                None => "Loading...".to_owned(),
            }
        } else {
            self.props.text.clone()
        };
        let with_icon = if self.props.show_icon {
            match &self.props.icon {
                Some(icon) => {
                    if loading {
                        let mut t = "⏳ ".to_owned();
                        t.append(base.as_str());
                        t
                    } else {
                        let mut t = icon.clone();
                        t.append(" ");
                        t.append(base.as_str());
                        t
                    }
                },
                None => base,
            }
        } else if loading {
            let mut t = "⏳ ".to_owned();
            t.append(base.as_str());
            t
        } else {
            base
        };
        match &self.props.shortcut {
            Some(shortcut) => {
                let mut t = with_icon;
                t.append(" (");
                t.append(shortcut.as_str());
                t.append(")");
                t
            },
            None => with_icon,
        }
    }

    /// The byte length of the text a button shows, taken in 16 bits.
    pub open spec fn text_width(&self) -> u16 {
        (vstd::utf8::encode_utf8(display_text_spec(self.props_view(), self.loading())).len() as usize) as u16
    }

    /// The smallest width and the height of the button, by its size and
    /// the byte length of the text it shows taken in 16 bits; `None` when
    /// the width does not fit in 16 bits.
    pub fn get_button_dimensions(&self) -> (r: Option<(u16, u16)>)
        ensures
            ({
                let (w, h) = dimensions_spec(self.props_view().size, self.text_width());
                if w <= u16::MAX {
                    r == Some((w as u16, h as u16))
                } else {
                    r is None
                }
            }),
    {
        let text = self.get_display_text();
        let bytes = text.as_str().len();
        let text_width: u16 = #[verifier::truncate] (bytes as u16);
        let extra: u16 = match self.props.size {
            ButtonSize::Small => 2,
            ButtonSize::Medium => 4,
            ButtonSize::Large => 6,
        };
        if text_width > u16::MAX - extra {
            return None;
        }
        match self.props.size {
            ButtonSize::Small => Some((text_width + 2, 1)),
            ButtonSize::Medium => Some((text_width + 4, 3)),
            ButtonSize::Large => Some((text_width + 6, 3)),
        }
    }

    /// The styles of the text and of the border.
    pub fn get_button_style(&self) -> (r: (CellStyle, CellStyle))
        ensures
            r.0 == text_style_spec(self.props_view(), self.state_view().common),
            r.1 == border_style_spec(self.state_view().common),
    {
        let (fg, bg) = match self.props.variant {
            ButtonVariant::Primary => (Color::White, Color::Blue),
            ButtonVariant::Secondary => (Color::Black, Color::Gray),
            ButtonVariant::Success => (Color::White, Color::Green),
            ButtonVariant::Warning => (Color::Black, Color::Yellow),
            ButtonVariant::Danger => (Color::White, Color::Red),
            ButtonVariant::Minimal => (Color::White, Color::Reset),
            ButtonVariant::Link => (Color::Blue, Color::Reset),
        };
        let focused = self.state.common.focus_state == FocusState::Focused;
        let text_style = if self.props.disabled {
            CellStyle { fg: Some(Color::DarkGray), bg: Some(Color::Reset), bold: false }
        } else if focused {
            CellStyle { fg: Some(fg), bg: Some(bg), bold: true }
        } else {
            CellStyle { fg: Some(fg), bg: Some(bg), bold: false }
        };
        let valid = match self.state.common.validation_state {
            ValidationState::Valid => true,
            _ => false,
        };
        let border_style = if focused {
            CellStyle { fg: Some(Color::Cyan), bg: None, bold: false }
        } else if !valid {
            CellStyle { fg: Some(Color::Red), bg: None, bold: false }
        } else {
            CellStyle { fg: Some(Color::Gray), bg: None, bold: false }
        };
        (text_style, border_style)
    }

    /// The styles of the text and of the border in a theme, the dark theme
    /// when none is given: the text in the theme's color for the button's
    /// state, on the variant's color when the button is in no particular
    /// state, with the theme's normal text modifiers; the border in the
    /// focus color when focused, else in the border color.
    pub fn get_button_style_with_theme(&self, theme: Option<&AppTheme>) -> (r: (Style, Style))
        ensures
            match theme {
                Some(t) => r == themed_button_styles(self.props_view(), self.state_view(), t.colors, t.styles),
                None => r == themed_button_styles(
                    self.props_view(),
                    self.state_view(),
                    theme_colors_of(dark_palette()),
                    dark_style_set(),
                ),
            },
    {
        let default_theme = AppTheme::dark();
        let theme = match theme {
            Some(t) => t,
            None => &default_theme,
        };
        let state = if self.props.disabled {
            ComponentState::Disabled
        } else if self.state.common.focus_state == FocusState::Focused {
            ComponentState::Focused
        } else if self.state.loading_start.is_some() {
            ComponentState::Loading
        } else if self.state.is_pressed {
            ComponentState::Selected
        } else {
            ComponentState::Normal
        };
        let variant_bg = match self.props.variant {
            ButtonVariant::Primary => theme.colors.primary,
            ButtonVariant::Secondary => theme.colors.secondary,
            ButtonVariant::Success => theme.colors.success,
            ButtonVariant::Warning => theme.colors.warning,
            ButtonVariant::Danger => theme.colors.error,
            ButtonVariant::Minimal => theme.colors.background,
            ButtonVariant::Link => theme.colors.background,
        };
        let fg = theme.colors.get_state_color(state);
        let bg = if state != ComponentState::Normal {
            theme.colors.get_state_bg_color(state)
        } else {
            variant_bg
        };
        let text_style = Style {
            fg: Some(fg),
            bg: Some(bg),
            underline_color: None,
            add_modifier: theme.styles.text.normal.modifiers,
        };
        let border_fg = if state == ComponentState::Focused {
            theme.colors.focus
        } else {
            theme.colors.border
        };
        let border_style = Style { fg: Some(border_fg), bg: None, underline_color: None, add_modifier: Modifier::empty() };
        (text_style, border_style)
    }

    /// Whether the button has a border: all but ghost and link buttons.
    pub fn needs_border(&self) -> (r: bool)
        ensures
            r == !(self.props_view().variant == ButtonVariant::Minimal || self.props_view().variant == ButtonVariant::Link),
    {
        !(self.props.variant == ButtonVariant::Minimal || self.props.variant == ButtonVariant::Link)
    }

    /// The help line shown under a focused button that has a help text.
    pub fn help_line(&self) -> (r: Option<String>)
        ensures
            match (self.props_view().help_text, self.state_view().common.focus_state == FocusState::Focused) {
                (Some(h), true) => r matches Some(line) && line@ == "💡 "@ + h@,
                _ => r is None,
            },
    {
        match &self.props.help_text {
            Some(help) => {
                if self.state.common.focus_state == FocusState::Focused {
                    let mut line = "💡 ".to_owned();
                    line.append(help.as_str());
                    Some(line)
                } else {
                    None
                }
            },
            None => None,
        }
    }

    /// Update the timing states, given the milliseconds since the press
    /// started and since the last click (when there are such): a press
    /// longer than 150 ms is released, and a click count older than a
    /// second is reset.
    pub fn update_with(&mut self, since_press: Option<u128>, since_click: Option<u128>)
        ensures
            final(self).state_view() == updated_state(old(self).state_view(), since_press, since_click),
            final(self).props_view() == old(self).props_view(),
            final(self).id_view() == old(self).id_view(),
    {
        if self.state.press_start.is_some() {
            match since_press {
                Some(d) => {
                    if d > 150 {
                        self.release();
                    }
                },
                None => {},
            }
        }
        if self.state.last_click_time.is_some() {
            match since_click {
                Some(d) => {
                    if d > 1000 {
                        self.reset_click_count();
                    }
                },
                None => {},
            }
        }
    }

    /// Update the timing states at the current time: the state becomes
    /// what `updated_state` gives for the milliseconds that the clock says
    /// have passed since the press and since the last click.
    pub fn update(&mut self)
        ensures
            exists|since_press: Option<u128>, since_click: Option<u128>|
                final(self).state_view() == #[trigger] updated_state(old(self).state_view(), since_press, since_click)
                    && (old(self).state_view().press_start is None ==> since_press is None)
                    && (old(self).state_view().last_click_time is None ==> since_click is None),
            final(self).props_view() == old(self).props_view(),
            final(self).id_view() == old(self).id_view(),
    {
        let now = instant_now();
        let since_press = match &self.state.press_start {
            Some(p) => Some(millis_between(p, &now)),
            None => None,
        };
        let since_click = match &self.state.last_click_time {
            Some(c) => Some(millis_between(c, &now)),
            None => None,
        };
        self.update_with(since_press, since_click);
        assert(self.state_view() == updated_state(old(self).state_view(), since_press, since_click));
    }

    /// The events that a key press on this button reports: when a focused
    /// button that is neither disabled nor loading is activated by the
    /// key, one click carrying its identifier, its text and the click
    /// count, which is at least one and at most one more than before; else
    /// none.
    pub open spec fn key_events(&self, key: KeyEvent, events: Seq<ComponentEvent>) -> bool {
        let takes = self.state_view().common.focus_state == FocusState::Focused && self.activates(key)
            && !(self.props_view().disabled || self.loading());
        if takes {
            &&& events.len() == 1
            &&& events[0] matches ComponentEvent::ButtonClicked { component_id, button_text, click_count }
                && component_id@ == self.id_view()
                && button_text@ == self.props_view().text@
                && 1 <= click_count <= self.state_view().click_count + 1
        } else {
            events.len() == 0
        }
    }

    /// Whether a key activates this button: Enter and Space always, `y` a
    /// success button and `n` a danger button.
    pub open spec fn activates(&self, key: KeyEvent) -> bool {
        ||| key.code == KeyCode::Enter
        ||| key.code == KeyCode::Char(' ')
        ||| (key.code == KeyCode::Char('y') && self.props_view().variant == ButtonVariant::Success)
        ||| (key.code == KeyCode::Char('n') && self.props_view().variant == ButtonVariant::Danger)
    }

    /// Handle a key. Only a focused button takes keys. A key that activates
    /// it clicks it; when the click is taken the button is pressed and a
    /// click event with the text and click count is reported.
    pub fn handle_key(&mut self, key: KeyEvent) -> (r: ComponentResult<Vec<ComponentEvent>>)
        requires
            old(self).state_view().click_count < u32::MAX,
        ensures
            r matches Ok(events) && old(self).key_events(key, events@),
            final(self).props_view() == old(self).props_view(),
            final(self).id_view() == old(self).id_view(),
            ({
                let o = old(self);
                let takes = o.state_view().common.focus_state == FocusState::Focused && o.activates(key)
                    && !(o.props_view().disabled || o.loading());
                if takes {
                    &&& final(self).state_view().is_pressed
                    &&& final(self).state_view().last_click_time is Some
                    &&& 1 <= final(self).state_view().click_count <= o.state_view().click_count + 1
                    &&& r matches Ok(events) && events@.len() == 1
                        && (events@[0] matches ComponentEvent::ButtonClicked { component_id, button_text, click_count }
                            && component_id@ == o.id_view()
                            && button_text@ == o.props_view().text@
                            && click_count == final(self).state_view().click_count)
                } else {
                    &&& final(self).state_view() == o.state_view()
                    &&& r matches Ok(events) && events@.len() == 0
                }
            }),
    {
        let mut events: Vec<ComponentEvent> = Vec::new();
        if self.state.common.focus_state != FocusState::Focused {
            return Ok(events);
        }
        let activates = match key.code {
            KeyCode::Enter => true,
            KeyCode::Char(' ') => true,
            KeyCode::Char('y') => self.props.variant == ButtonVariant::Success,
            KeyCode::Char('n') => self.props.variant == ButtonVariant::Danger,
            _ => false,
        };
        if activates {
            if self.click() {
                self.press();
                events.push(ComponentEvent::ButtonClicked {
                    component_id: self.id.duplicate(),
                    button_text: self.props.text.clone(),
                    click_count: self.state.click_count,
                });
            }
        }
        Ok(events)
    }

    /// Focus events for this button set its focus; losing the focus also
    /// releases a press. Other events change nothing.
    pub fn handle_event(&mut self, event: &ComponentEvent) -> (r: ComponentResult<Vec<ComponentEvent>>)
        ensures
            r matches Ok(events) && events@.len() == 0,
            final(self).props_view() == old(self).props_view(),
            final(self).id_view() == old(self).id_view(),
            match event {
                ComponentEvent::FocusGained { component_id } if component_id@ == old(self).id_view() =>
                    final(self).state_view().common.focus_state == FocusState::Focused
                    && final(self).state_view().is_pressed == old(self).state_view().is_pressed,
                ComponentEvent::FocusLost { component_id } if component_id@ == old(self).id_view() =>
                    final(self).state_view().common.focus_state == FocusState::Unfocused
                    && !final(self).state_view().is_pressed,
                _ => final(self).state_view() == old(self).state_view(),
            },
    {
        match event {
            ComponentEvent::FocusGained { component_id } => {
                if component_id.same_as(&self.id) {
                    self.state.common.focus_state = FocusState::Focused;
                }
            },
            ComponentEvent::FocusLost { component_id } => {
                if component_id.same_as(&self.id) {
                    self.state.common.focus_state = FocusState::Unfocused;
                    self.release();
                }
            },
            _ => {},
        }
        Ok(Vec::new())
    }

    /// Set the focus state.
    pub fn set_focus_state(&mut self, focus_state: FocusState)
        ensures
            final(self).state_view().common.focus_state == focus_state,
            final(self).state_view().is_pressed == old(self).state_view().is_pressed,
            final(self).state_view().loading_start == old(self).state_view().loading_start,
            final(self).state_view().click_count == old(self).state_view().click_count,
            final(self).props_view() == old(self).props_view(),
            final(self).id_view() == old(self).id_view(),
    {
        self.state.common.focus_state = focus_state;
    }

    /// Whether the button is drawn: only when visible.
    pub fn is_visible(&self) -> (r: bool)
        ensures
            r == (self.state_view().common.visibility_state == VisibilityState::Visible),
    {
        self.state.common.visibility_state == VisibilityState::Visible
    }

    /// Buttons are always valid.
    pub fn validate(&self) -> (r: ValidationState)
        ensures
            r == ValidationState::Valid,
    {
        ValidationState::Valid
    }
}

/// A group of buttons laid out in a row or a column.
pub struct ButtonGroup {
    buttons: Vec<Button>,
    orientation: ButtonGroupOrientation,
    spacing: u16,
}

/// The index of the first button with identifier `id`.
pub open spec fn first_button(s: Seq<Button>, id: Seq<char>) -> Option<int> {
    if exists|i: int| 0 <= i < s.len() && s[i].id_view() == id {
        Some(choose|i: int| 0 <= i < s.len() && s[i].id_view() == id
            && forall|j: int| 0 <= j < i ==> s[j].id_view() != id)
    } else {
        None
    }
}

impl ButtonGroup {
    pub closed spec fn buttons_view(&self) -> Seq<Button> {
        self.buttons@
    }

    pub closed spec fn orientation_view(&self) -> ButtonGroupOrientation {
        self.orientation
    }

    pub closed spec fn spacing_view(&self) -> u16 {
        self.spacing
    }

    /// An empty group, one cell apart.
    pub fn new(orientation: ButtonGroupOrientation) -> (r: Self)
        ensures
            r.buttons_view().len() == 0,
            r.orientation_view() == orientation,
            r.spacing_view() == 1,
    {
        ButtonGroup { buttons: Vec::new(), orientation, spacing: 1 }
    }

    /// An empty row.
    pub fn horizontal() -> (r: Self)
        ensures
            r.buttons_view().len() == 0,
            r.orientation_view() == ButtonGroupOrientation::Horizontal,
            r.spacing_view() == 1,
    {
        ButtonGroup::new(ButtonGroupOrientation::Horizontal)
    }

    /// An empty column.
    pub fn vertical() -> (r: Self)
        ensures
            r.buttons_view().len() == 0,
            r.orientation_view() == ButtonGroupOrientation::Vertical,
            r.spacing_view() == 1,
    {
        ButtonGroup::new(ButtonGroupOrientation::Vertical)
    }

    /// Set the spacing.
    pub fn with_spacing(self, spacing: u16) -> (r: Self)
        ensures
            r.spacing_view() == spacing,
            r.buttons_view() == self.buttons_view(),
            r.orientation_view() == self.orientation_view(),
    {
        let mut s = self;
        s.spacing = spacing;
        s
    }

    /// Add a button at the end.
    pub fn add_button(&mut self, button: Button)
        ensures
            final(self).buttons_view() == old(self).buttons_view().push(button),
            final(self).orientation_view() == old(self).orientation_view(),
            final(self).spacing_view() == old(self).spacing_view(),
    {
        self.buttons.push(button);
    }

    fn find(&self, id: &ComponentId) -> (r: Option<usize>)
        ensures
            match r {
                Some(i) => i < self.buttons@.len() && self.buttons@[i as int].id_view() == id@
                    && forall|j: int| 0 <= j < i ==> self.buttons@[j].id_view() != id@,
                None => forall|j: int| 0 <= j < self.buttons@.len() ==> self.buttons@[j].id_view() != id@,
            },
    {
        let mut i: usize = 0;
        while i < self.buttons.len()
            invariant
                i <= self.buttons@.len(),
                forall|j: int| 0 <= j < i ==> self.buttons@[j].id_view() != id@,
            decreases self.buttons@.len() - i,
        {
            if self.buttons[i].id().same_as(id) {
                return Some(i);
            }
            i += 1;
        }
        None
    }

    /// The first button with the identifier, to change.
    pub fn get_button_mut(&mut self, id: &ComponentId) -> (r: Option<&mut Button>)
        ensures
            match first_button(old(self).buttons_view(), id@) {
                Some(i) => r matches Some(b) && *b == old(self).buttons_view()[i]
                    && final(self).buttons_view() == old(self).buttons_view().update(i, *final(b)),
                None => r is None && final(self).buttons_view() == old(self).buttons_view(),
            },
            final(self).orientation_view() == old(self).orientation_view(),
            final(self).spacing_view() == old(self).spacing_view(),
    {
        match self.find(id) {
            Some(i) => {
                let ghost s = self.buttons@;
                proof {
                    let k = first_button(s, id@)->0;
                    assert(first_button(s, id@) is Some);
                    assert(k == i as int) by {
                        if k < i {
                        } else if k > i {
                        }
                    }
                }
                Some(&mut self.buttons[i])
            },
            None => None,
        }
    }

    /// The first button with the identifier.
    pub fn get_button(&self, id: &ComponentId) -> (r: Option<&Button>)
        ensures
            match first_button(self.buttons_view(), id@) {
                Some(i) => r matches Some(b) && *b == self.buttons_view()[i],
                None => r is None,
            },
    {
        match self.find(id) {
            Some(i) => {
                proof {
                    let k = first_button(self.buttons@, id@)->0;
                    assert(k == i as int) by {
                        if k < i {
                        } else if k > i {
                        }
                    }
                }
                Some(&self.buttons[i])
            },
            None => None,
        }
    }

    /// The number of buttons.
    pub fn button_count(&self) -> (r: usize)
        ensures
            r == self.buttons_view().len(),
    {
        self.buttons.len()
    }

    /// Start (or stop) loading on every button; disabled buttons do not
    /// start.
    pub fn set_all_loading(&mut self, loading: bool)
        ensures
            final(self).buttons_view().len() == old(self).buttons_view().len(),
            forall|i: int| 0 <= i < old(self).buttons_view().len() ==> {
                let o = #[trigger] old(self).buttons_view()[i];
                let n = final(self).buttons_view()[i];
                &&& n.props_view() == o.props_view()
                &&& n.id_view() == o.id_view()
                &&& loading ==> (n.loading() == (o.loading() || !o.props_view().disabled))
                &&& !loading ==> !n.loading()
            },
            final(self).orientation_view() == old(self).orientation_view(),
            final(self).spacing_view() == old(self).spacing_view(),
    {
        let mut i: usize = 0;
        while i < self.buttons.len()
            invariant
                i <= self.buttons@.len(),
                self.buttons@.len() == old(self).buttons@.len(),
                self.orientation == old(self).orientation,
                self.spacing == old(self).spacing,
                forall|j: int| i <= j < self.buttons@.len() ==> self.buttons@[j] == old(self).buttons@[j],
                forall|j: int| 0 <= j < i ==> {
                    let o = #[trigger] old(self).buttons@[j];
                    let n = self.buttons@[j];
                    &&& n.props_view() == o.props_view()
                    &&& n.id_view() == o.id_view()
                    &&& loading ==> (n.loading() == (o.loading() || !o.props_view().disabled))
                    &&& !loading ==> !n.loading()
                },
            decreases self.buttons@.len() - i,
        {
            let b = &mut self.buttons[i];
            if loading {
                b.start_loading();
            } else {
                b.stop_loading();
            }
            i += 1;
        }
    }

    /// Enable every button.
    pub fn enable_all(&mut self)
        ensures
            final(self).buttons_view().len() == old(self).buttons_view().len(),
            forall|i: int| 0 <= i < old(self).buttons_view().len() ==> {
                let o = #[trigger] old(self).buttons_view()[i];
                let n = final(self).buttons_view()[i];
                &&& n.props_view() == (ButtonProps { disabled: false, ..o.props_view() })
                &&& n.state_view() == o.state_view()
                &&& n.id_view() == o.id_view()
            },
            final(self).orientation_view() == old(self).orientation_view(),
            final(self).spacing_view() == old(self).spacing_view(),
    {
        let mut i: usize = 0;
        while i < self.buttons.len()
            invariant
                i <= self.buttons@.len(),
                self.buttons@.len() == old(self).buttons@.len(),
                self.orientation == old(self).orientation,
                self.spacing == old(self).spacing,
                forall|j: int| i <= j < self.buttons@.len() ==> self.buttons@[j] == old(self).buttons@[j],
                forall|j: int| 0 <= j < i ==> {
                    let o = #[trigger] old(self).buttons@[j];
                    let n = self.buttons@[j];
                    &&& n.props_view() == (ButtonProps { disabled: false, ..o.props_view() })
                    &&& n.state_view() == o.state_view()
                    &&& n.id_view() == o.id_view()
                },
            decreases self.buttons@.len() - i,
        {
            self.buttons[i].enable();
            i += 1;
        }
    }

    /// Disable every button.
    pub fn disable_all(&mut self)
        ensures
            final(self).buttons_view().len() == old(self).buttons_view().len(),
            forall|i: int| 0 <= i < old(self).buttons_view().len() ==> {
                let o = #[trigger] old(self).buttons_view()[i];
                let n = final(self).buttons_view()[i];
                &&& n.props_view() == (ButtonProps { disabled: true, ..o.props_view() })
                &&& n.state_view() == o.state_view()
                &&& n.id_view() == o.id_view()
            },
            final(self).orientation_view() == old(self).orientation_view(),
            final(self).spacing_view() == old(self).spacing_view(),
    {
        let mut i: usize = 0;
        while i < self.buttons.len()
            invariant
                i <= self.buttons@.len(),
                self.buttons@.len() == old(self).buttons@.len(),
                self.orientation == old(self).orientation,
                self.spacing == old(self).spacing,
                forall|j: int| i <= j < self.buttons@.len() ==> self.buttons@[j] == old(self).buttons@[j],
                forall|j: int| 0 <= j < i ==> {
                    let o = #[trigger] old(self).buttons@[j];
                    let n = self.buttons@[j];
                    &&& n.props_view() == (ButtonProps { disabled: true, ..o.props_view() })
                    &&& n.state_view() == o.state_view()
                    &&& n.id_view() == o.id_view()
                },
            decreases self.buttons@.len() - i,
        {
            self.buttons[i].disable();
            i += 1;
        }
    }
}

} // verus!
