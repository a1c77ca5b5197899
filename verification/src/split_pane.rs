//! A pane split in two, side by side or one above the other: which pane is
//! active, and how the keys resize the panes within the allowed sizes.

use vstd::prelude::*;
use vstd::string::*;
use crate::component::{CommonComponentState, ComponentEvent, ComponentId, ComponentResult, ValidationState};
use crate::keys::{KeyCode, KeyEvent, KeyModifiers};

verus! {

/// How the two panes are placed.
#[derive(Debug, Clone, Copy, PartialEq, Eq, Structural)]
pub enum SplitOrientation {
    /// Side by side.
    Horizontal,
    /// One above the other.
    Vertical,
}

impl Default for SplitOrientation {
    fn default() -> (r: Self)
        ensures
            r == SplitOrientation::Horizontal,
    {
        SplitOrientation::Horizontal
    }
}

/// Configuration of a split pane; sizes are percentages.
#[derive(Debug, Clone)]
pub struct SplitPaneProps {
    pub orientation: SplitOrientation,
    pub first_size: u16,
    pub second_size: u16,
    pub min_size: u16,
    pub max_size: u16,
    pub resizable: bool,
    pub show_divider: bool,
    pub title_first: Option<String>,
    pub title_second: Option<String>,
}

impl Default for SplitPaneProps {
    fn default() -> (r: Self)
        ensures
            r.orientation == SplitOrientation::Horizontal,
            r.first_size == 50 && r.second_size == 50,
            r.min_size == 10 && r.max_size == 90,
            r.resizable && r.show_divider,
            r.title_first is None && r.title_second is None,
    {
        SplitPaneProps {
            orientation: SplitOrientation::Horizontal,
            first_size: 50,
            second_size: 50,
            min_size: 10,
            max_size: 90,
            resizable: true,
            show_divider: true,
            title_first: None,
            title_second: None,
        }
    }
}

/// State of a split pane: the active pane (0 or 1), whether it is being
/// resized, and the current sizes.
#[derive(Debug, Clone)]
pub struct SplitPaneComponentState {
    pub common: CommonComponentState,
    pub active_pane: usize,
    pub is_resizing: bool,
    pub first_size: u16,
    pub second_size: u16,
}

impl Default for SplitPaneComponentState {
    fn default() -> (r: Self)
        ensures
            r.active_pane == 0,
            !r.is_resizing,
            r.first_size == 50 && r.second_size == 50,
            !r.common.dirty,
    {
        SplitPaneComponentState {
            common: CommonComponentState::default(),
            active_pane: 0,
            is_resizing: false,
            first_size: 50,
            second_size: 50,
        }
    }
}

/// A percentage read as a signed 16-bit number, as `u16 as i16` reads it.
pub open spec fn signed16(v: u16) -> int {
    (v as i16) as int
}

/// The first pane's size after a resize by `delta`, clamped to the allowed
/// sizes.
pub open spec fn resized_first(first: u16, delta: i16, min: u16, max: u16) -> int {
    let s = signed16(first) + delta;
    if s < signed16(min) {
        signed16(min)
    } else if s > signed16(max) {
        signed16(max)
    } else {
        s
    }
}

/// Whether a resize by `delta` can be computed: the sum fits 16 bits, the
/// allowed sizes are in order and the clamped size is a percentage. On
/// other inputs the computation panics.
pub open spec fn resize_fits(first: u16, delta: i16, min: u16, max: u16) -> bool {
    &&& i16::MIN <= signed16(first) + delta <= i16::MAX
    &&& signed16(min) <= signed16(max)
    &&& 0 <= resized_first(first, delta, min, max) <= 100
}

/// The resize step of an arrow key: left and up shrink the first pane by 5,
/// right and down grow it, each only along the split.
pub open spec fn key_delta(code: KeyCode, orientation: SplitOrientation) -> i16 {
    match (code, orientation) {
        (KeyCode::Left, SplitOrientation::Horizontal) => -5i16,
        (KeyCode::Right, SplitOrientation::Horizontal) => 5i16,
        (KeyCode::Up, SplitOrientation::Vertical) => -5i16,
        (KeyCode::Down, SplitOrientation::Vertical) => 5i16,
        _ => 0i16,
    }
}

/// What a split pane shows.
#[derive(Debug, Clone)]
pub struct SplitPaneView {
    pub orientation: SplitOrientation,
    pub first_percent: u16,
    pub second_percent: u16,
    pub first_title: String,
    pub second_title: String,
    pub first_active: bool,
    pub second_active: bool,
    pub show_divider: bool,
    /// Whether the divider is highlighted, while resizing.
    pub divider_highlighted: bool,
    /// The resize hint, while resizing a resizable pane.
    pub hint: Option<String>,
}

/// A pane split in two.
pub struct SplitPane {
    id: ComponentId,
    props: SplitPaneProps,
    state: SplitPaneComponentState,
}

impl SplitPane {
    pub closed spec fn id_view(&self) -> Seq<char> {
        self.id@
    }

    pub closed spec fn props_view(&self) -> SplitPaneProps {
        self.props
    }

    pub closed spec fn state_view(&self) -> SplitPaneComponentState {
        self.state
    }

    /// A split pane with the configured sizes, the first pane active.
    pub fn new(id: ComponentId, props: SplitPaneProps) -> (r: Self)
        ensures
            r.id_view() == id@,
            r.props_view() == props,
            r.state_view().first_size == props.first_size,
            r.state_view().second_size == props.second_size,
            r.state_view().active_pane == 0,
            !r.state_view().is_resizing,
            !r.state_view().common.dirty,
    {
        let mut state = SplitPaneComponentState::default();
        state.first_size = props.first_size;
        state.second_size = props.second_size;
        SplitPane { id, props, state }
    }

    /// Make pane 0 or 1 active; other numbers are ignored.
    pub fn set_active_pane(&mut self, pane: usize)
        ensures
            pane < 2 ==> final(self).state_view().active_pane == pane && final(self).state_view().common.dirty,
            pane >= 2 ==> final(self).state_view() == old(self).state_view(),
            final(self).state_view().first_size == old(self).state_view().first_size,
            final(self).state_view().second_size == old(self).state_view().second_size,
            final(self).state_view().is_resizing == old(self).state_view().is_resizing,
            final(self).props_view() == old(self).props_view(),
            final(self).id_view() == old(self).id_view(),
    {
        if pane < 2 {
            self.state.active_pane = pane;
            self.state.common.mark_dirty();
        }
    }

    /// Resize the panes by `delta` percent: the first size moves by `delta`,
    /// clamped to the allowed sizes, and the second takes the rest of 100.
    /// Nothing changes when the pane is not resizable or the second size
    /// would leave the allowed sizes.
    pub fn resize_panes(&mut self, delta: i16)
        requires
            old(self).props_view().resizable ==> resize_fits(
                old(self).state_view().first_size,
                delta,
                old(self).props_view().min_size,
                old(self).props_view().max_size,
            ),
        ensures
            ({
                let p = old(self).props_view();
                let first = resized_first(old(self).state_view().first_size, delta, p.min_size, p.max_size);
                let second = 100 - first;
                if p.resizable && p.min_size <= second <= p.max_size {
                    &&& final(self).state_view().first_size == first
                    &&& final(self).state_view().second_size == second
                    &&& final(self).state_view().common.dirty
                } else {
                    final(self).state_view() == old(self).state_view()
                }
            }),
            final(self).state_view().active_pane == old(self).state_view().active_pane,
            final(self).state_view().is_resizing == old(self).state_view().is_resizing,
            final(self).props_view() == old(self).props_view(),
            final(self).id_view() == old(self).id_view(),
    {
        if !self.props.resizable {
            return;
        }
        let a = self.state.first_size as i16;
        let s = a + delta;
        let lo = self.props.min_size as i16;
        let hi = self.props.max_size as i16;
        let c = if s < lo {
            lo
        } else if s > hi {
            hi
        } else {
            s
        };
        let new_first_size = c as u16;
        let new_second_size = 100 - new_first_size;
        if new_second_size >= self.props.min_size && new_second_size <= self.props.max_size {
            self.state.first_size = new_first_size;
            self.state.second_size = new_second_size;
            self.state.common.mark_dirty();
        }
    }

    /// Whether a key can be handled without a panic: an arrow key that
    /// resizes must leave a size that can be computed.
    pub open spec fn key_fits(&self, key: KeyEvent) -> bool {
        let p = self.props_view();
        let d = key_delta(key.code, p.orientation);
        p.resizable && d != 0 ==> resize_fits(self.state_view().first_size, d, p.min_size, p.max_size)
    }

    /// Handle a key: Tab switches the active pane and reports focus; arrow
    /// keys along the split resize a resizable pane by 5; Ctrl+r restores
    /// the configured sizes.
    pub fn handle_key(&mut self, key: KeyEvent) -> (r: ComponentResult<Vec<ComponentEvent>>)
        requires
            old(self).state_view().active_pane < 2,
            old(self).key_fits(key),
        ensures
            final(self).state_view().active_pane < 2,
            final(self).props_view() == old(self).props_view(),
            final(self).id_view() == old(self).id_view(),
            final(self).state_view().is_resizing == old(self).state_view().is_resizing,
            ({
                let o = old(self).state_view();
                let p = old(self).props_view();
                let d = key_delta(key.code, p.orientation);
                let arrow = key.code == KeyCode::Left || key.code == KeyCode::Right || key.code == KeyCode::Up
                    || key.code == KeyCode::Down;
                if key.code == KeyCode::Tab {
                    &&& final(self).state_view().active_pane == 1 - o.active_pane
                    &&& final(self).state_view().first_size == o.first_size
                    &&& final(self).state_view().second_size == o.second_size
                    &&& final(self).state_view().common.dirty
                    &&& r matches Ok(events) && events@.len() == 1
                        && (events@[0] matches ComponentEvent::FocusGained { component_id }
                            && component_id@ == old(self).id_view())
                } else if arrow && p.resizable {
                    &&& final(self).state_view().active_pane == o.active_pane
                    &&& r matches Ok(events) && events@.len() == 0
                    &&& d == 0 ==> final(self).state_view() == o
                    &&& d != 0 ==> ({
                        let first = resized_first(o.first_size, d, p.min_size, p.max_size);
                        let second = 100 - first;
                        if p.min_size <= second <= p.max_size {
                            final(self).state_view().first_size == first
                                && final(self).state_view().second_size == second
                                && final(self).state_view().common.dirty
                        } else {
                            final(self).state_view() == o
                        }
                    })
                } else if key.code == KeyCode::Char('r') && key.modifiers.bits & 2 == 2 {
                    &&& final(self).state_view().first_size == p.first_size
                    &&& final(self).state_view().second_size == p.second_size
                    &&& final(self).state_view().active_pane == o.active_pane
                    &&& final(self).state_view().common.dirty
                    &&& r matches Ok(events) && events@.len() == 0
                } else {
                    &&& final(self).state_view() == o
                    &&& r matches Ok(events) && events@.len() == 0
                }
            }),
    {
        match key.code {
            KeyCode::Tab => {
                self.state.active_pane = 1 - self.state.active_pane;
                self.state.common.mark_dirty();
                return Ok(vec![ComponentEvent::FocusGained { component_id: self.id.duplicate() }]);
            },
            _ => {},
        }
        let arrow = match key.code {
            KeyCode::Left | KeyCode::Right | KeyCode::Up | KeyCode::Down => true,
            _ => false,
        };
        if arrow && self.props.resizable {
            let delta: i16 = match (key.code, self.props.orientation) {
                (KeyCode::Left, SplitOrientation::Horizontal) => -5,
                (KeyCode::Right, SplitOrientation::Horizontal) => 5,
                (KeyCode::Up, SplitOrientation::Vertical) => -5,
                (KeyCode::Down, SplitOrientation::Vertical) => 5,
                _ => 0,
            };
            if delta != 0 {
                self.resize_panes(delta);
            }
            return Ok(Vec::new());
        }
        match key.code {
            KeyCode::Char('r') => {
                if key.modifiers.contains(KeyModifiers::control()) {
                    self.state.first_size = self.props.first_size;
                    self.state.second_size = self.props.second_size;
                    self.state.common.mark_dirty();
                }
                Ok(Vec::new())
            },
            _ => Ok(Vec::new()),
        }
    }

    /// Focus entering the pane starts resizing, focus leaving ends it.
    pub fn handle_event(&mut self, event: ComponentEvent) -> (r: ComponentResult<Vec<ComponentEvent>>)
        ensures
            r matches Ok(events) && events@.len() == 0,
            final(self).props_view() == old(self).props_view(),
            final(self).id_view() == old(self).id_view(),
            final(self).state_view().active_pane == old(self).state_view().active_pane,
            final(self).state_view().first_size == old(self).state_view().first_size,
            final(self).state_view().second_size == old(self).state_view().second_size,
            event is FocusGained ==> final(self).state_view().is_resizing && final(self).state_view().common.dirty,
            event is FocusLost ==> !final(self).state_view().is_resizing && final(self).state_view().common.dirty,
            !(event is FocusGained) && !(event is FocusLost) ==> final(self).state_view() == old(self).state_view(),
    {
        match event {
            ComponentEvent::FocusGained { .. } => {
                self.state.is_resizing = true;
                self.state.common.mark_dirty();
            },
            ComponentEvent::FocusLost { .. } => {
                self.state.is_resizing = false;
                self.state.common.mark_dirty();
            },
            _ => {},
        }
        Ok(Vec::new())
    }

    /// What the split pane shows: its sizes, the pane titles (`Pane 1` and
    /// `Pane 2` unless configured), which pane is active, the divider and,
    /// while resizing a resizable pane, the resize hint.
    pub fn view(&self) -> (r: SplitPaneView)
        ensures
            r.orientation == self.props_view().orientation,
            r.first_percent == self.state_view().first_size,
            r.second_percent == self.state_view().second_size,
            r.first_title@ == (match self.props_view().title_first {
                Some(t) => t@,
                None => "Pane 1"@,
            }),
            r.second_title@ == (match self.props_view().title_second {
                Some(t) => t@,
                None => "Pane 2"@,
            }),
            r.first_active == (self.state_view().active_pane == 0),
            r.second_active == (self.state_view().active_pane == 1),
            r.show_divider == self.props_view().show_divider,
            r.divider_highlighted == self.state_view().is_resizing,
            (self.state_view().is_resizing && self.props_view().resizable) ==> (r.hint matches Some(h) && h@ == (
                match self.props_view().orientation {
                    SplitOrientation::Horizontal => "← → to resize, Ctrl+R to reset"@,
                    SplitOrientation::Vertical => "↑ ↓ to resize, Ctrl+R to reset"@,
                })),
            !(self.state_view().is_resizing && self.props_view().resizable) ==> r.hint is None,
    {
        let first_title = match &self.props.title_first {
            Some(t) => t.clone(),
            None => "Pane 1".to_owned(),
        };
        let second_title = match &self.props.title_second {
            Some(t) => t.clone(),
            None => "Pane 2".to_owned(),
        };
        let hint = if self.state.is_resizing && self.props.resizable {
            match self.props.orientation {
                SplitOrientation::Horizontal => Some("← → to resize, Ctrl+R to reset".to_owned()),
                SplitOrientation::Vertical => Some("↑ ↓ to resize, Ctrl+R to reset".to_owned()),
            }
        } else {
            None
        };
        SplitPaneView {
            orientation: self.props.orientation,
            first_percent: self.state.first_size,
            second_percent: self.state.second_size,
            first_title,
            second_title,
            first_active: self.state.active_pane == 0,
            second_active: self.state.active_pane == 1,
            show_divider: self.props.show_divider,
            divider_highlighted: self.state.is_resizing,
            hint,
        }
    }

    /// The sizes must add up to 100 and each lie within the allowed sizes.
    pub fn validate(&self) -> (r: ValidationState)
        requires
            self.state_view().first_size + self.state_view().second_size <= u16::MAX,
        ensures
            ({
                let s = self.state_view();
                let p = self.props_view();
                if s.first_size + s.second_size != 100 {
                    r matches ValidationState::Invalid(m) && m@ == "Pane sizes must sum to 100%"@
                } else if s.first_size < p.min_size || s.first_size > p.max_size {
                    r matches ValidationState::Invalid(m) && m@ == "First pane size out of bounds"@
                } else if s.second_size < p.min_size || s.second_size > p.max_size {
                    r matches ValidationState::Invalid(m) && m@ == "Second pane size out of bounds"@
                } else {
                    r == ValidationState::Valid
                }
            }),
    {
        if self.state.first_size + self.state.second_size != 100 {
            return ValidationState::Invalid("Pane sizes must sum to 100%".to_owned());
        }
        if self.state.first_size < self.props.min_size || self.state.first_size > self.props.max_size {
            return ValidationState::Invalid("First pane size out of bounds".to_owned());
        }
        if self.state.second_size < self.props.min_size || self.state.second_size > self.props.max_size {
            return ValidationState::Invalid("Second pane size out of bounds".to_owned());
        }
        ValidationState::Valid
    }

    /// The configuration.
    pub fn props(&self) -> (r: &SplitPaneProps)
        ensures
            *r == self.props_view(),
    {
        &self.props
    }

    /// The state.
    pub fn state(&self) -> (r: &SplitPaneComponentState)
        ensures
            *r == self.state_view(),
    {
        &self.state
    }
}

} // verus!
