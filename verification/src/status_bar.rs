//! Status bar: the current status message with its level and expiry, the
//! progress of a running task, the section texts and the shortcut hints.

use vstd::prelude::*;
use vstd::string::*;
use crate::assoc::StringTable;
use crate::component::{ComponentEvent, ComponentId, ComponentResult, CommonComponentState, utc_now_millis};
use crate::style::Color;
use crate::colors::{dark_palette, theme_colors_of, ThemeColors};
use crate::text::{decimal, decimal_text};
use crate::theme::AppTheme;

verus! {

/// Severity of a status message.
#[derive(Debug, Clone, Copy, PartialEq, Eq, Structural)]
pub enum StatusLevel {
    Info,
    Success,
    Warning,
    Error,
}

impl StatusLevel {
    /// The theme's color for the level.
    pub fn color(&self, theme: &AppTheme) -> (r: Color)
        ensures
            r == match *self {
                StatusLevel::Info => theme.colors.info,
                StatusLevel::Success => theme.colors.success,
                StatusLevel::Warning => theme.colors.warning,
                StatusLevel::Error => theme.colors.error,
            },
    {
        match self {
            StatusLevel::Info => theme.colors.info,
            StatusLevel::Success => theme.colors.success,
            StatusLevel::Warning => theme.colors.warning,
            StatusLevel::Error => theme.colors.error,
        }
    }
}

/// A status message. Times are in milliseconds; the timestamp counts from
/// the Unix epoch.
#[derive(Debug, Clone)]
pub struct StatusMessage {
    pub text: String,
    pub level: StatusLevel,
    pub timestamp: Option<i64>,
    pub persistent: bool,
    pub timeout: Option<u64>,
}

impl StatusMessage {
    /// A message of the given level, stamped now, that expires after five
    /// seconds.
    pub fn new(text: &str, level: StatusLevel) -> (r: Self)
        ensures
            r.text@ == text@,
            r.level == level,
            r.timestamp is Some,
            !r.persistent,
            r.timeout == Some(5000u64),
    {
        StatusMessage {
            text: text.to_owned(),
            level,
            timestamp: Some(utc_now_millis()),
            persistent: false,
            timeout: Some(5000),
        }
    }

    /// An information message.
    pub fn info(text: &str) -> (r: Self)
        ensures
            r.text@ == text@,
            r.level == StatusLevel::Info,
            r.timestamp is Some,
            !r.persistent,
            r.timeout == Some(5000u64),
    {
        StatusMessage::new(text, StatusLevel::Info)
    }

    /// A success message.
    pub fn success(text: &str) -> (r: Self)
        ensures
            r.text@ == text@,
            r.level == StatusLevel::Success,
            r.timestamp is Some,
            !r.persistent,
            r.timeout == Some(5000u64),
    {
        StatusMessage::new(text, StatusLevel::Success)
    }

    /// A warning message.
    pub fn warning(text: &str) -> (r: Self)
        ensures
            r.text@ == text@,
            r.level == StatusLevel::Warning,
            r.timestamp is Some,
            !r.persistent,
            r.timeout == Some(5000u64),
    {
        StatusMessage::new(text, StatusLevel::Warning)
    }

    /// An error message.
    pub fn error(text: &str) -> (r: Self)
        ensures
            r.text@ == text@,
            r.level == StatusLevel::Error,
            r.timestamp is Some,
            !r.persistent,
            r.timeout == Some(5000u64),
    {
        StatusMessage::new(text, StatusLevel::Error)
    }

    /// The message stays until replaced: it never expires.
    pub fn persistent(self) -> (r: Self)
        ensures
            r.persistent,
            r.timeout is None,
            r.text == self.text,
            r.level == self.level,
            r.timestamp == self.timestamp,
    {
        let mut s = self;
        s.persistent = true;
        s.timeout = None;
        s
    }

    /// The message expires after `timeout` milliseconds.
    pub fn with_timeout(self, timeout: u64) -> (r: Self)
        ensures
            r.timeout == Some(timeout),
            r.persistent == self.persistent,
            r.text == self.text,
            r.level == self.level,
            r.timestamp == self.timestamp,
    {
        let mut s = self;
        s.timeout = Some(timeout);
        s
    }
}

/// Whether a message has expired at `now` (milliseconds since the Unix
/// epoch): it is not persistent, has a timeout and a timestamp, the clock is
/// not behind the timestamp, and more than the timeout has passed.
pub open spec fn message_expired(message: StatusMessage, now: i64) -> bool {
    !message.persistent && match (message.timeout, message.timestamp) {
        (Some(timeout), Some(stamp)) => now >= stamp && now - stamp > timeout,
        _ => false,
    }
}

/// Progress of a running task.
#[derive(Debug, Clone)]
pub struct ProgressInfo {
    pub current: u64,
    pub total: u64,
    pub label: String,
    pub show_percentage: bool,
    pub show_eta: bool,
}

/// The percentage done, truncated to 16 bits as the status bar stores it:
/// 0 when the total is 0.
pub open spec fn percentage_of(current: u64, total: u64) -> u16 {
    if total == 0 {
        0
    } else {
        ((current * 100) / (total as int)) as u16
    }
}

impl ProgressInfo {
    /// Progress with a label, showing the percentage.
    pub fn new(current: u64, total: u64, label: &str) -> (r: Self)
        ensures
            r.current == current,
            r.total == total,
            r.label@ == label@,
            r.show_percentage,
            !r.show_eta,
    {
        ProgressInfo { current, total, label: label.to_owned(), show_percentage: true, show_eta: false }
    }

    /// The percentage done.
    pub fn percentage(&self) -> (r: u16)
        requires
            self.total == 0 || self.current * 100 <= u64::MAX,
        ensures
            r == percentage_of(self.current, self.total),
    {
        if self.total == 0 {
            0
        } else {
            ((self.current * 100) / self.total) as u16
        }
    }
}

/// Configuration of a status bar.
#[derive(Debug)]
pub struct StatusBarProps {
    pub show_time: bool,
    pub show_progress: bool,
    pub show_shortcuts: bool,
    pub left_text: String,
    pub center_text: String,
    pub right_text: String,
    pub shortcuts: StringTable,
}

impl Default for StatusBarProps {
    fn default() -> (r: Self)
        ensures
            r.show_time && r.show_progress && r.show_shortcuts,
            r.left_text@.len() == 0 && r.center_text@.len() == 0 && r.right_text@.len() == 0,
            r.shortcuts.entries_view() == seq![("F1"@, "Help"@), ("Ctrl+C"@, "Quit"@)],
    {
        let mut shortcuts = StringTable::new();
        shortcuts.insert("F1", "Help");
        proof {
            reveal_strlit("F1");
            reveal_strlit("Ctrl+C");
            assert("F1"@.len() != "Ctrl+C"@.len());
            assert(!shortcuts@.contains_key("Ctrl+C"@));
        }
        let ghost first = shortcuts.entries_view();
        assert(first =~= seq![("F1"@, "Help"@)]);
        shortcuts.insert("Ctrl+C", "Quit");
        assert(shortcuts.entries_view() =~= seq![("F1"@, "Help"@), ("Ctrl+C"@, "Quit"@)]);
        StatusBarProps {
            show_time: true,
            show_progress: true,
            show_shortcuts: true,
            left_text: String::new(),
            center_text: String::new(),
            right_text: String::new(),
            shortcuts,
        }
    }
}

/// State of a status bar.
#[derive(Debug)]
pub struct StatusBarComponentState {
    pub common: CommonComponentState,
    pub current_message: Option<StatusMessage>,
    pub progress: Option<ProgressInfo>,
    /// Milliseconds since the Unix epoch of the last message.
    pub last_update: Option<i64>,
    pub blink_state: bool,
}

impl Default for StatusBarComponentState {
    fn default() -> (r: Self)
        ensures
            r.current_message is None,
            r.progress is None,
            r.last_update is None,
            !r.blink_state,
            !r.common.dirty,
    {
        StatusBarComponentState {
            common: CommonComponentState::default(),
            current_message: None,
            progress: None,
            last_update: None,
            blink_state: false,
        }
    }
}

/// The text of the shortcut hints: `key: description` for each shortcut,
/// in order, joined by ` | `.
pub open spec fn shortcuts_text(s: Seq<(Seq<char>, Seq<char>)>) -> Seq<char>
    decreases s.len(),
{
    if s.len() == 0 {
        Seq::empty()
    } else if s.len() == 1 {
        s[0].0 + ": "@ + s[0].1
    } else {
        shortcuts_text(s.drop_last()) + " | "@ + s.last().0 + ": "@ + s.last().1
    }
}

/// A status bar component.
pub struct StatusBar {
    pub id: ComponentId,
    pub props: StatusBarProps,
    pub state: StatusBarComponentState,
}

impl StatusBar {
    /// A status bar with the given configuration and no message.
    pub fn new(id: ComponentId, props: StatusBarProps) -> (r: Self)
        ensures
            r.id == id,
            r.props == props,
            r.state.current_message is None,
            r.state.progress is None,
            !r.state.blink_state,
    {
        StatusBar { id, props, state: StatusBarComponentState::default() }
    }

    /// Show a message; the time of the change is recorded.
    pub fn set_message(&mut self, message: StatusMessage)
        ensures
            final(self).state.current_message == Some(message),
            final(self).state.last_update is Some,
            final(self).state.common.dirty,
            final(self).state.progress == old(self).state.progress,
            final(self).props == old(self).props,
    {
        self.state.current_message = Some(message);
        self.state.last_update = Some(utc_now_millis());
        self.state.common.mark_dirty();
    }

    /// Remove the message.
    pub fn clear_message(&mut self)
        ensures
            final(self).state.current_message is None,
            final(self).state.common.dirty,
            final(self).state.blink_state == old(self).state.blink_state,
            final(self).state.progress == old(self).state.progress,
            final(self).state.last_update == old(self).state.last_update,
            final(self).props == old(self).props,
    {
        self.state.current_message = None;
        self.state.common.mark_dirty();
    }

    /// Show, or with `None` hide, a progress.
    pub fn set_progress(&mut self, progress: Option<ProgressInfo>)
        ensures
            final(self).state.progress == progress,
            final(self).state.common.dirty,
            final(self).state.current_message == old(self).state.current_message,
            final(self).props == old(self).props,
    {
        self.state.progress = progress;
        self.state.common.mark_dirty();
    }

    /// Update the counts of the progress shown; without one nothing changes.
    pub fn update_progress(&mut self, current: u64, total: u64)
        ensures
            match old(self).state.progress {
                Some(p) => {
                    &&& final(self).state.progress matches Some(q)
                    &&& q.current == current && q.total == total
                    &&& q.label == p.label && q.show_percentage == p.show_percentage && q.show_eta == p.show_eta
                    &&& final(self).state.common.dirty
                },
                None => final(self).state.progress is None
                    && final(self).state.common == old(self).state.common,
            },
            final(self).state.current_message == old(self).state.current_message,
            final(self).props == old(self).props,
    {
        match self.state.progress.take() {
            Some(mut progress) => {
                progress.current = current;
                progress.total = total;
                self.state.progress = Some(progress);
                self.state.common.mark_dirty();
            },
            None => {},
        }
    }

    /// Set the left text.
    pub fn set_left_text(&mut self, text: &str)
        ensures
            final(self).props.left_text@ == text@,
            final(self).props.center_text == old(self).props.center_text,
            final(self).props.right_text == old(self).props.right_text,
            final(self).state.common.dirty,
            final(self).state.current_message == old(self).state.current_message,
    {
        self.props.left_text = text.to_owned();
        self.state.common.mark_dirty();
    }

    /// Set the center text.
    pub fn set_center_text(&mut self, text: &str)
        ensures
            final(self).props.center_text@ == text@,
            final(self).props.left_text == old(self).props.left_text,
            final(self).props.right_text == old(self).props.right_text,
            final(self).state.common.dirty,
            final(self).state.current_message == old(self).state.current_message,
    {
        self.props.center_text = text.to_owned();
        self.state.common.mark_dirty();
    }

    /// Set the right text.
    pub fn set_right_text(&mut self, text: &str)
        ensures
            final(self).props.right_text@ == text@,
            final(self).props.left_text == old(self).props.left_text,
            final(self).props.center_text == old(self).props.center_text,
            final(self).state.common.dirty,
            final(self).state.current_message == old(self).state.current_message,
    {
        self.props.right_text = text.to_owned();
        self.state.common.mark_dirty();
    }

    /// Whether the message shown has expired at `now` (milliseconds since
    /// the Unix epoch).
    pub fn should_clear_message_at(&self, now: i64) -> (r: bool)
        ensures
            r == match self.state.current_message {
                Some(m) => message_expired(m, now),
                None => false,
            },
    {
        match &self.state.current_message {
            Some(message) => {
                if message.persistent {
                    return false;
                }
                match (message.timeout, message.timestamp) {
                    (Some(timeout), Some(stamp)) => {
                        if now >= stamp {
                            let elapsed: u64 = (now as i128 - stamp as i128) as u64;
                            elapsed > timeout
                        } else {
                            false
                        }
                    },
                    _ => false,
                }
            },
            None => false,
        }
    }

    /// One tick at `now`: an expired message is cleared (and `true`
    /// returned); otherwise the blink state flips.
    pub fn update_at(&mut self, now: i64) -> (r: bool)
        ensures
            r == match old(self).state.current_message {
                Some(m) => message_expired(m, now),
                None => false,
            },
            r ==> final(self).state.current_message is None && final(self).state.blink_state == old(self).state.blink_state,
            !r ==> final(self).state.current_message == old(self).state.current_message
                && final(self).state.blink_state == !old(self).state.blink_state,
            final(self).state.progress == old(self).state.progress,
            final(self).props == old(self).props,
    {
        if self.should_clear_message_at(now) {
            self.clear_message();
            return true;
        }
        self.state.blink_state = !self.state.blink_state;
        false
    }

    /// One tick at the current time.
    pub fn update(&mut self) -> (r: bool)
        ensures
            final(self).state.progress == old(self).state.progress,
            final(self).props == old(self).props,
    {
        let now = utc_now_millis();
        self.update_at(now)
    }

    /// The shortcut hints, or nothing when they are hidden or there are none.
    pub fn build_shortcuts_text(&self) -> (r: String)
        ensures
            r@ == if !self.props.show_shortcuts {
                Seq::empty()
            } else {
                shortcuts_text(self.props.shortcuts.entries_view())
            },
    {
        if !self.props.show_shortcuts {
            return String::new();
        }
        let entries = self.props.shortcuts.entries();
        let ghost s = self.props.shortcuts.entries_view();
        let mut out = String::new();
        let mut i: usize = 0;
        while i < entries.len()
            invariant
                i <= entries@.len(),
                s == crate::assoc::pairs_view(entries@),
                out@ == shortcuts_text(s.take(i as int)),
            decreases entries@.len() - i,
        {
            proof {
                assert(s.take(i + 1).drop_last() =~= s.take(i as int));
                reveal_strlit(" | ");
                reveal_strlit(": ");
            }
            if i > 0 {
                out.append(" | ");
            }
            out.append(entries[i].0.as_str());
            out.append(": ");
            out.append(entries[i].1.as_str());
            proof {
                if i == 0 {
                    assert(out@ =~= shortcuts_text(s.take(1)));
                } else {
                    assert(out@ =~= shortcuts_text(s.take(i + 1)));
                }
            }
            i += 1;
        }
        assert(s.take(i as int) =~= s);
        out
    }

    /// A status bar handles no keys.
    pub fn handle_key(&mut self) -> (r: ComponentResult<Vec<ComponentEvent>>)
        ensures
            r matches Ok(events) && events@.len() == 0,
            *final(self) == *old(self),
    {
        Ok(Vec::new())
    }
}

/// A section of the status bar: text in a color, possibly bold; a gauge
/// with its label and percentage; the clock; or nothing.
#[derive(Debug, Clone)]
pub enum SectionView {
    Text { text: String, color: Color, bold: bool },
    Gauge { label: String, percent: u16, color: Color },
    Clock { color: Color },
    Empty,
}

/// What the status bar shows in its three sections. While a progress gauge
/// is shown the right section is not drawn.
#[derive(Debug, Clone)]
pub struct StatusBarView {
    pub left: SectionView,
    pub center: SectionView,
    pub right: Option<SectionView>,
}

/// The left section: the current message in its level's color (bold for
/// errors), else the left text, else "Ready".
pub open spec fn left_section(bar: StatusBar, c: ThemeColors) -> (Seq<char>, Color, bool) {
    match bar.state.current_message {
        Some(m) => (m.text@, match m.level {
            StatusLevel::Info => c.info,
            StatusLevel::Success => c.success,
            StatusLevel::Warning => c.warning,
            StatusLevel::Error => c.error,
        }, m.level == StatusLevel::Error),
        None => if bar.props.left_text@.len() > 0 {
            (bar.props.left_text@, c.foreground, false)
        } else {
            ("Ready"@, c.success, false)
        },
    }
}

impl StatusBar {
    /// The progress numbers can be computed: the percentage of a shown
    /// progress fits in 64 bits.
    pub open spec fn view_fits(&self) -> bool {
        self.props.show_progress ==> (self.state.progress matches Some(p) ==> (p.total == 0 || p.current * 100
            <= u64::MAX))
    }

    /// What the status bar shows, in the colors of the default (dark)
    /// theme. Left: as `left_section` says. Center: a shown progress is a
    /// gauge labelled with the percentage or with the counts, and the right
    /// section is then not drawn; a progress not shown is its counts as
    /// text; else the center text, else the shortcut hints. Right: the
    /// clock when it is shown and there is no right text, else the right
    /// text, else nothing.
    pub fn view(&self) -> (r: StatusBarView)
        requires
            self.view_fits(),
        ensures
            ({
                let c = theme_colors_of(dark_palette());
                let (lt, lc, lb) = left_section(*self, c);
                &&& r.left matches SectionView::Text { text, color, bold } && text@ == lt && color == lc && bold == lb
                &&& match self.state.progress {
                    Some(p) => if self.props.show_progress {
                        &&& r.center matches SectionView::Gauge { label, percent, color } && percent
                            == percentage_of(p.current, p.total) && color == c.success && label@ == (if p.show_percentage {
                            p.label@ + " "@ + decimal(percentage_of(p.current, p.total) as nat) + "%"@
                        } else {
                            p.label@ + " "@ + decimal(p.current as nat) + "/"@ + decimal(p.total as nat)
                        })
                        &&& r.right is None
                    } else {
                        &&& r.center matches SectionView::Text { text, color, bold } && text@ == p.label@ + ": "@
                            + decimal(p.current as nat) + "/"@ + decimal(p.total as nat) && color == c.info && !bold
                        &&& r.right is Some
                    },
                    None => {
                        &&& r.center matches SectionView::Text { text, color, bold } && !bold && (if self.props.center_text@.len() > 0 {
                            text@ == self.props.center_text@ && color == c.foreground
                        } else {
                            text@ == (if !self.props.show_shortcuts {
                                Seq::empty()
                            } else {
                                shortcuts_text(self.props.shortcuts.entries_view())
                            }) && color == c.info
                        })
                        &&& r.right is Some
                    },
                }
                &&& r.right matches Some(rs) ==> (if self.props.show_time && self.props.right_text@.len() == 0 {
                    rs matches SectionView::Clock { color } && color == c.foreground
                } else if self.props.right_text@.len() > 0 {
                    rs matches SectionView::Text { text, color, bold } && text@ == self.props.right_text@
                        && color == c.foreground && !bold
                } else {
                    rs is Empty
                })
            }),
    {
        let theme = AppTheme::default();
        let c = &theme.colors;
        let left = match &self.state.current_message {
            Some(m) => SectionView::Text {
                text: m.text.clone(),
                color: m.level.color(&theme),
                bold: m.level == StatusLevel::Error,
            },
            None => if self.props.left_text.as_str().unicode_len() > 0 {
                SectionView::Text { text: self.props.left_text.clone(), color: c.foreground, bold: false }
            } else {
                SectionView::Text { text: "Ready".to_owned(), color: c.success, bold: false }
            },
        };
        let center = match &self.state.progress {
            Some(p) => {
                if self.props.show_progress {
                    let percent = p.percentage();
                    let mut label = p.label.clone();
                    label.append(" ");
                    if p.show_percentage {
                        let d = decimal_text(percent as u64);
                        label.append(d.as_str());
                        label.append("%");
                    } else {
                        let a = decimal_text(p.current);
                        let b = decimal_text(p.total);
                        label.append(a.as_str());
                        label.append("/");
                        label.append(b.as_str());
                    }
                    return StatusBarView {
                        left,
                        center: SectionView::Gauge { label, percent, color: c.success },
                        right: None,
                    };
                } else {
                    let mut text = p.label.clone();
                    text.append(": ");
                    let a = decimal_text(p.current);
                    let b = decimal_text(p.total);
                    text.append(a.as_str());
                    text.append("/");
                    text.append(b.as_str());
                    SectionView::Text { text, color: c.info, bold: false }
                }
            },
            None => if self.props.center_text.as_str().unicode_len() > 0 {
                SectionView::Text { text: self.props.center_text.clone(), color: c.foreground, bold: false }
            } else {
                SectionView::Text { text: self.build_shortcuts_text(), color: c.info, bold: false }
            },
        };
        let right = if self.props.show_time && self.props.right_text.as_str().unicode_len() == 0 {
            SectionView::Clock { color: c.foreground }
        } else if self.props.right_text.as_str().unicode_len() > 0 {
            SectionView::Text { text: self.props.right_text.clone(), color: c.foreground, bold: false }
        } else {
            SectionView::Empty
        };
        StatusBarView { left, center, right: Some(right) }
    }
}

} // verus!
