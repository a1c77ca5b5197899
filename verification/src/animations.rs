//! Animation and loading indicator configuration, the spinner of a loading
//! indicator and the timing of transitions. Durations are in milliseconds.

use vstd::prelude::*;
use crate::clock::{instant_now, millis_since};

verus! {

/// Spinner style enumeration.
#[derive(Debug, Clone, Copy, PartialEq, Eq, Structural)]
pub enum SpinnerStyle {
    Simple,
    Dots,
    Arc,
    Arrows,
    Blocks,
    Clock,
}

/// Progress bar style enumeration.
#[derive(Debug, Clone, Copy, PartialEq, Eq, Structural)]
pub enum ProgressBarStyle {
    Simple,
    Blocks,
    Gradient,
    Dots,
    Arrows,
}

/// Easing function enumeration.
#[derive(Debug, Clone, Copy, PartialEq, Eq, Structural)]
pub enum EasingFunction {
    Linear,
    EaseIn,
    EaseOut,
    EaseInOut,
    EaseInCubic,
    EaseOutCubic,
    EaseInOutCubic,
}

/// Transition type enumeration.
#[derive(Debug, Clone, Copy, PartialEq, Eq, Structural)]
pub enum TransitionType {
    Fade,
    Slide,
    Scale,
}

/// Loading indicator configuration.
#[derive(Debug, Clone, Copy, PartialEq, Eq, Structural)]
pub struct LoadingIndicatorConfig {
    pub spinner_style: SpinnerStyle,
    /// Milliseconds between spinner frames.
    pub update_interval: u64,
    pub progress_bar_style: ProgressBarStyle,
    pub pulse_enabled: bool,
    /// Milliseconds between pulses.
    pub pulse_interval: u64,
}

impl LoadingIndicatorConfig {
    /// Create default loading indicator configuration.
    pub fn default() -> (r: Self)
        ensures
            r == default_loading(),
    {
        LoadingIndicatorConfig {
            spinner_style: SpinnerStyle::Dots,
            update_interval: 100,
            progress_bar_style: ProgressBarStyle::Blocks,
            pulse_enabled: true,
            pulse_interval: 1000,
        }
    }

    /// Create minimal loading indicator configuration.
    pub fn minimal() -> (r: Self)
        ensures
            r == minimal_loading(),
    {
        LoadingIndicatorConfig {
            spinner_style: SpinnerStyle::Simple,
            update_interval: 200,
            progress_bar_style: ProgressBarStyle::Simple,
            pulse_enabled: false,
            pulse_interval: 2000,
        }
    }

    /// Create smooth loading indicator configuration.
    pub fn smooth() -> (r: Self)
        ensures
            r == smooth_loading(),
    {
        LoadingIndicatorConfig {
            spinner_style: SpinnerStyle::Arc,
            update_interval: 80,
            progress_bar_style: ProgressBarStyle::Gradient,
            pulse_enabled: true,
            pulse_interval: 800,
        }
    }
}

/// Transition configuration.
#[derive(Debug, Clone, Copy, PartialEq, Eq, Structural)]
pub struct TransitionConfig {
    /// Milliseconds.
    pub fade_duration: u64,
    /// Milliseconds.
    pub slide_duration: u64,
    /// Milliseconds.
    pub scale_duration: u64,
    pub easing: EasingFunction,
}

impl TransitionConfig {
    /// Create default transition configuration.
    pub fn default() -> (r: Self)
        ensures
            r == default_transition(),
    {
        TransitionConfig { fade_duration: 200, slide_duration: 300, scale_duration: 150, easing: EasingFunction::EaseInOut }
    }

    /// Create minimal transition configuration.
    pub fn minimal() -> (r: Self)
        ensures
            r == minimal_transition(),
    {
        TransitionConfig { fade_duration: 50, slide_duration: 100, scale_duration: 50, easing: EasingFunction::Linear }
    }

    /// Create smooth transition configuration.
    pub fn smooth() -> (r: Self)
        ensures
            r == smooth_transition(),
    {
        TransitionConfig { fade_duration: 400, slide_duration: 500, scale_duration: 300, easing: EasingFunction::EaseInOutCubic }
    }
}

/// The smooth loading indicator configuration.
pub open spec fn smooth_loading() -> LoadingIndicatorConfig {
    LoadingIndicatorConfig { spinner_style: SpinnerStyle::Arc, update_interval: 80, progress_bar_style: ProgressBarStyle::Gradient, pulse_enabled: true, pulse_interval: 800, }
}

/// The minimal loading indicator configuration.
pub open spec fn minimal_loading() -> LoadingIndicatorConfig {
    LoadingIndicatorConfig { spinner_style: SpinnerStyle::Simple, update_interval: 200, progress_bar_style: ProgressBarStyle::Simple, pulse_enabled: false, pulse_interval: 2000, }
}

/// The default loading indicator configuration.
pub open spec fn default_loading() -> LoadingIndicatorConfig {
    LoadingIndicatorConfig { spinner_style: SpinnerStyle::Dots, update_interval: 100, progress_bar_style: ProgressBarStyle::Blocks, pulse_enabled: true, pulse_interval: 1000, }
}

/// The smooth transition configuration.
pub open spec fn smooth_transition() -> TransitionConfig {
    TransitionConfig { fade_duration: 400, slide_duration: 500, scale_duration: 300, easing: EasingFunction::EaseInOutCubic }
}

/// The minimal transition configuration.
pub open spec fn minimal_transition() -> TransitionConfig {
    TransitionConfig { fade_duration: 50, slide_duration: 100, scale_duration: 50, easing: EasingFunction::Linear }
}

/// The default transition configuration.
pub open spec fn default_transition() -> TransitionConfig {
    TransitionConfig { fade_duration: 200, slide_duration: 300, scale_duration: 150, easing: EasingFunction::EaseInOut }
}

/// Animation configuration for different visual effects.
#[derive(Debug, Clone, Copy, PartialEq, Eq, Structural)]
pub struct AnimationConfig {
    pub enabled: bool,
    /// Milliseconds.
    pub duration_fast: u64,
    /// Milliseconds.
    pub duration_normal: u64,
    /// Milliseconds.
    pub duration_slow: u64,
    pub loading_indicators: LoadingIndicatorConfig,
    pub transitions: TransitionConfig,
}

impl AnimationConfig {
    /// Create default animation configuration.
    pub fn default() -> (r: Self)
        ensures
            r.enabled,
            r.duration_fast == 150 && r.duration_normal == 300 && r.duration_slow == 500,
            r.loading_indicators == default_loading(),
            r.transitions == default_transition(),
    {
        AnimationConfig {
            enabled: true,
            duration_fast: 150,
            duration_normal: 300,
            duration_slow: 500,
            loading_indicators: LoadingIndicatorConfig::default(),
            transitions: TransitionConfig::default(),
        }
    }

    /// Create minimal animation configuration for performance.
    pub fn minimal() -> (r: Self)
        ensures
            !r.enabled,
            r.duration_fast == 50 && r.duration_normal == 100 && r.duration_slow == 200,
            r.loading_indicators == minimal_loading(),
            r.transitions == minimal_transition(),
    {
        AnimationConfig {
            enabled: false,
            duration_fast: 50,
            duration_normal: 100,
            duration_slow: 200,
            loading_indicators: LoadingIndicatorConfig::minimal(),
            transitions: TransitionConfig::minimal(),
        }
    }

    /// Create smooth animation configuration for better UX.
    pub fn smooth() -> (r: Self)
        ensures
            r.enabled,
            r.duration_fast == 200 && r.duration_normal == 400 && r.duration_slow == 800,
            r.loading_indicators == smooth_loading(),
            r.transitions == smooth_transition(),
    {
        AnimationConfig {
            enabled: true,
            duration_fast: 200,
            duration_normal: 400,
            duration_slow: 800,
            loading_indicators: LoadingIndicatorConfig::smooth(),
            transitions: TransitionConfig::smooth(),
        }
    }
}

/// The frames of a spinner style, in order.
pub open spec fn spinner_frames(style: SpinnerStyle) -> Seq<char> {
    match style {
        SpinnerStyle::Simple => seq!['-', '\\', '|', '/'],
        SpinnerStyle::Dots => seq!['⠋', '⠙', '⠹', '⠸', '⠼', '⠴', '⠦', '⠧', '⠇', '⠏'],
        SpinnerStyle::Arc => seq!['◜', '◠', '◝', '◞', '◡', '◟'],
        SpinnerStyle::Arrows => seq!['←', '↖', '↑', '↗', '→', '↘', '↓', '↙'],
        SpinnerStyle::Blocks => seq!['▁', '▂', '▃', '▄', '▅', '▆', '▇', '█'],
        SpinnerStyle::Clock => seq!['🕐', '🕑', '🕒', '🕓', '🕔', '🕕', '🕖', '🕗', '🕘', '🕙', '🕚', '🕛'],
    }
}

/// The character of a frame: the frames repeat.
pub open spec fn frame_char(style: SpinnerStyle, frame: usize) -> char {
    let frames = spinner_frames(style);
    frames[(frame as int) % (frames.len() as int)]
}

/// The frame shown after `elapsed` milliseconds with a frame every
/// `interval` milliseconds.
pub open spec fn frame_at(elapsed: u128, interval: u64) -> usize {
    (elapsed / (interval as u128)) as usize
}

/// Consecutive frames of every spinner style show different characters,
/// and the frames repeat after a full turn.
pub proof fn lemma_spinner_frames_advance(style: SpinnerStyle, frame: usize)
    requires
        frame < usize::MAX,
    ensures
        frame_char(style, frame) != frame_char(style, (frame + 1) as usize),
        frame + spinner_frames(style).len() <= usize::MAX ==>
            frame_char(style, frame) == frame_char(style, (frame + spinner_frames(style).len()) as usize),
{
    let frames = spinner_frames(style);
    let n = frames.len() as int;
    let f = frame as int;
    assert(n > 0);
    assert(((f + 1) % n == f % n + 1) || ((f + 1) % n == 0 && f % n == n - 1)) by (nonlinear_arith)
        requires
            n > 0,
            f >= 0,
    ;
    assert((f + n) % n == f % n) by (nonlinear_arith)
        requires
            n > 0,
            f >= 0,
    ;
    assert(forall|i: int, j: int| 0 <= i < n && 0 <= j < n && i != j ==> frames[i] != frames[j]);
}

/// Loading indicator implementation.
#[derive(Debug, Clone)]
pub struct LoadingIndicator {
    pub style: SpinnerStyle,
    start_time: std::time::Instant,
    update_interval: u64,
    current_frame: usize,
}

impl LoadingIndicator {
    /// The spinner style.
    pub closed spec fn style_view(&self) -> SpinnerStyle {
        self.style
    }

    /// The milliseconds between frames.
    pub closed spec fn interval_view(&self) -> u64 {
        self.update_interval
    }

    /// The frame last shown.
    pub closed spec fn frame_view(&self) -> usize {
        self.current_frame
    }

    /// When the indicator started.
    pub closed spec fn start_view(&self) -> std::time::Instant {
        self.start_time
    }

    /// Create a new loading indicator, started now.
    pub fn new(config: &LoadingIndicatorConfig) -> (r: Self)
        ensures
            r.style_view() == config.spinner_style,
            r.interval_view() == config.update_interval,
            r.frame_view() == 0,
    {
        LoadingIndicator {
            style: config.spinner_style,
            start_time: instant_now(),
            update_interval: config.update_interval,
            current_frame: 0,
        }
    }

    /// The spinner character after `elapsed_millis` milliseconds: the frame
    /// reached is recorded and its character returned.
    pub fn current_char_at(&mut self, elapsed_millis: u128) -> (r: char)
        requires
            old(self).interval_view() > 0,
        ensures
            final(self).frame_view() == frame_at(elapsed_millis, old(self).interval_view()),
            final(self).style_view() == old(self).style_view(),
            final(self).interval_view() == old(self).interval_view(),
            final(self).start_view() == old(self).start_view(),
            r == frame_char(old(self).style_view(), frame_at(elapsed_millis, old(self).interval_view())),
    {
        let frame_count = (elapsed_millis / (self.update_interval as u128)) as usize;
        if frame_count != self.current_frame {
            self.current_frame = frame_count;
        }
        self.get_frame_char(self.current_frame)
    }

    /// Get the current spinner character, by the time since the start: the
    /// frame reached after the milliseconds that the clock says have passed
    /// since the start is recorded and its character returned.
    pub fn current_char(&mut self) -> (r: char)
        requires
            old(self).interval_view() > 0,
        ensures
            exists|elapsed: u128| final(self).frame_view() == #[trigger] frame_at(elapsed, old(self).interval_view()),
            final(self).style_view() == old(self).style_view(),
            final(self).interval_view() == old(self).interval_view(),
            final(self).start_view() == old(self).start_view(),
            r == frame_char(old(self).style_view(), final(self).frame_view()),
    {
        let elapsed = millis_since(&self.start_time);
        self.current_char_at(elapsed)
    }

    /// Get the character for a specific frame.
    pub fn get_frame_char(&self, frame: usize) -> (r: char)
        ensures
            r == frame_char(self.style_view(), frame),
    {
        match self.style {
            SpinnerStyle::Simple => {
                let chars = ['-', '\\', '|', '/'];
                assert(chars@ == spinner_frames(self.style_view()));
                chars[frame % 4]
            },
            SpinnerStyle::Dots => {
                let chars = ['⠋', '⠙', '⠹', '⠸', '⠼', '⠴', '⠦', '⠧', '⠇', '⠏'];
                assert(chars@ == spinner_frames(self.style_view()));
                chars[frame % 10]
            },
            SpinnerStyle::Arc => {
                let chars = ['◜', '◠', '◝', '◞', '◡', '◟'];
                assert(chars@ == spinner_frames(self.style_view()));
                chars[frame % 6]
            },
            SpinnerStyle::Arrows => {
                let chars = ['←', '↖', '↑', '↗', '→', '↘', '↓', '↙'];
                assert(chars@ == spinner_frames(self.style_view()));
                chars[frame % 8]
            },
            SpinnerStyle::Blocks => {
                let chars = ['▁', '▂', '▃', '▄', '▅', '▆', '▇', '█'];
                assert(chars@ == spinner_frames(self.style_view()));
                chars[frame % 8]
            },
            SpinnerStyle::Clock => {
                let chars = ['🕐', '🕑', '🕒', '🕓', '🕔', '🕕', '🕖', '🕗', '🕘', '🕙', '🕚', '🕛'];
                assert(chars@ == spinner_frames(self.style_view()));
                chars[frame % 12]
            },
        }
    }

    /// Reset the indicator: it starts again now, from the first frame.
    pub fn reset(&mut self)
        ensures
            final(self).frame_view() == 0,
            final(self).style_view() == old(self).style_view(),
            final(self).interval_view() == old(self).interval_view(),
    {
        self.start_time = instant_now();
        self.current_frame = 0;
    }

    /// Whether the indicator should update after `elapsed_millis`
    /// milliseconds: a whole interval has passed.
    pub fn should_update_at(&self, elapsed_millis: u128) -> (r: bool)
        ensures
            r == (elapsed_millis >= self.interval_view()),
    {
        elapsed_millis >= self.update_interval as u128
    }

    /// Check if the indicator should update, by the time since the start:
    /// whether the milliseconds that the clock says have passed make a
    /// whole interval. With an interval of zero it always should.
    pub fn should_update(&self) -> (r: bool)
        ensures
            self.interval_view() == 0 ==> r,
    {
        let elapsed = millis_since(&self.start_time);
        self.should_update_at(elapsed)
    }
}

/// Transition effect implementation.
#[derive(Debug, Clone)]
pub struct TransitionEffect {
    start_time: std::time::Instant,
    duration: u64,
    easing: EasingFunction,
    effect_type: TransitionType,
}

impl TransitionEffect {
    /// The duration, in milliseconds.
    pub closed spec fn duration_view(&self) -> u64 {
        self.duration
    }

    /// The easing function.
    pub closed spec fn easing_view(&self) -> EasingFunction {
        self.easing
    }

    /// The kind of transition.
    pub closed spec fn kind_view(&self) -> TransitionType {
        self.effect_type
    }

    /// Create a new transition effect of `duration` milliseconds, started now.
    pub fn new(effect_type: TransitionType, duration: u64, easing: EasingFunction) -> (r: Self)
        ensures
            r.duration_view() == duration,
            r.easing_view() == easing,
            r.kind_view() == effect_type,
    {
        TransitionEffect { start_time: instant_now(), duration, easing, effect_type }
    }

    /// Whether the transition is complete after `elapsed_millis`
    /// milliseconds.
    pub fn is_complete_at(&self, elapsed_millis: u128) -> (r: bool)
        ensures
            r == (elapsed_millis >= self.duration_view()),
    {
        elapsed_millis >= self.duration as u128
    }

    /// Check if the transition is complete, by the time since the start:
    /// whether the milliseconds that the clock says have passed reach the
    /// duration. A transition of zero duration is always complete.
    pub fn is_complete(&self) -> (r: bool)
        ensures
            self.duration_view() == 0 ==> r,
    {
        let elapsed = millis_since(&self.start_time);
        self.is_complete_at(elapsed)
    }

    /// The milliseconds since the transition started.
    pub fn elapsed_millis(&self) -> (r: u128) {
        millis_since(&self.start_time)
    }

    /// The duration, in milliseconds.
    pub fn duration(&self) -> (r: u64)
        ensures
            r == self.duration_view(),
    {
        self.duration
    }

    /// The easing function.
    pub fn easing(&self) -> (r: EasingFunction)
        ensures
            r == self.easing_view(),
    {
        self.easing
    }

    /// Reset the transition: it starts again now.
    pub fn reset(&mut self)
        ensures
            final(self).duration_view() == old(self).duration_view(),
            final(self).easing_view() == old(self).easing_view(),
            final(self).kind_view() == old(self).kind_view(),
    {
        self.start_time = instant_now();
    }
}

} // verus!
