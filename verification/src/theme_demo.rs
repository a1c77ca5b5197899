//! A showcase of the themes: it steps forward and back through the preset
//! themes, with a loading indicator that starts afresh with each theme.

use vstd::prelude::*;
use crate::animations::{default_loading, LoadingIndicator, LoadingIndicatorConfig};
use crate::theme::{available_themes, is_dark_theme, is_high_contrast_theme, is_light_theme, AppTheme};

verus! {

/// The index after `i` among `n` themes, wrapping to the first.
pub open spec fn next_theme_index(i: int, n: int) -> int {
    (i + 1) % n
}

/// The index before `i` among `n` themes, wrapping to the last.
pub open spec fn previous_theme_index(i: int, n: int) -> int {
    if i == 0 {
        n - 1
    } else {
        i - 1
    }
}

/// The theme showcase.
pub struct ThemeDemo {
    current_theme: AppTheme,
    theme_index: usize,
    available_themes: Vec<AppTheme>,
    loading_indicator: LoadingIndicator,
}

impl ThemeDemo {
    /// The themes stepped through.
    pub closed spec fn themes_view(&self) -> Seq<AppTheme> {
        self.available_themes@
    }

    /// The index of the theme shown.
    pub closed spec fn index_view(&self) -> int {
        self.theme_index as int
    }

    /// The theme shown.
    pub closed spec fn current_view(&self) -> AppTheme {
        self.current_theme
    }

    /// The loading indicator.
    pub closed spec fn indicator_view(&self) -> LoadingIndicator {
        self.loading_indicator
    }

    /// The loading indicator is at its first frame, with the default
    /// spinner and interval.
    pub open spec fn indicator_fresh(&self) -> bool {
        &&& self.indicator_view().frame_view() == 0
        &&& self.indicator_view().style_view() == default_loading().spinner_style
        &&& self.indicator_view().interval_view() == default_loading().update_interval
    }

    /// The theme shown is the one at the index, among the three presets.
    pub closed spec fn wf(&self) -> bool {
        &&& self.available_themes@.len() == 3
        &&& self.theme_index < 3
        &&& self.current_theme == self.available_themes@[self.theme_index as int]
    }

    /// A showcase of the light, dark and high contrast themes, showing the
    /// first.
    pub fn new() -> (r: Self)
        ensures
            r.wf(),
            r.index_view() == 0,
            r.themes_view().len() == 3,
            is_light_theme(r.themes_view()[0]),
            is_dark_theme(r.themes_view()[1]),
            is_high_contrast_theme(r.themes_view()[2]),
            r.current_view() == r.themes_view()[0],
            r.indicator_fresh(),
    {
        let themes = available_themes();
        let current = themes[0].clone();
        ThemeDemo {
            current_theme: current,
            theme_index: 0,
            available_themes: themes,
            loading_indicator: LoadingIndicator::new(&LoadingIndicatorConfig::default()),
        }
    }

    /// The theme shown.
    pub fn current_theme(&self) -> (r: &AppTheme)
        ensures
            *r == self.current_view(),
    {
        &self.current_theme
    }

    /// The index of the theme shown.
    pub fn theme_index(&self) -> (r: usize)
        ensures
            r == self.index_view(),
    {
        self.theme_index
    }

    /// The themes stepped through.
    pub fn available_themes(&self) -> (r: &Vec<AppTheme>)
        ensures
            r@ == self.themes_view(),
    {
        &self.available_themes
    }

    /// The loading indicator.
    pub fn loading_indicator(&self) -> (r: &LoadingIndicator)
        ensures
            *r == self.indicator_view(),
    {
        &self.loading_indicator
    }

    /// Show the next theme, from the last back to the first.
    pub fn next_theme(&mut self)
        requires
            old(self).wf(),
        ensures
            final(self).wf(),
            final(self).themes_view() == old(self).themes_view(),
            final(self).index_view() == next_theme_index(old(self).index_view(), old(self).themes_view().len() as int),
            final(self).current_view() == final(self).themes_view()[final(self).index_view()],
            final(self).indicator_fresh(),
    {
        self.theme_index = (self.theme_index + 1) % self.available_themes.len();
        self.current_theme = self.available_themes[self.theme_index].clone();
        self.update_animations();
    }

    /// Show the previous theme, from the first back to the last.
    pub fn previous_theme(&mut self)
        requires
            old(self).wf(),
        ensures
            final(self).wf(),
            final(self).themes_view() == old(self).themes_view(),
            final(self).index_view() == previous_theme_index(
                old(self).index_view(),
                old(self).themes_view().len() as int,
            ),
            final(self).current_view() == final(self).themes_view()[final(self).index_view()],
            final(self).indicator_fresh(),
    {
        if self.theme_index == 0 {
            self.theme_index = self.available_themes.len() - 1;
        } else {
            self.theme_index = self.theme_index - 1;
        }
        self.current_theme = self.available_themes[self.theme_index].clone();
        self.update_animations();
    }

    /// Start the loading indicator afresh.
    fn update_animations(&mut self)
        ensures
            final(self).current_theme == old(self).current_theme,
            final(self).theme_index == old(self).theme_index,
            final(self).available_themes == old(self).available_themes,
            final(self).indicator_fresh(),
    {
        self.loading_indicator = LoadingIndicator::new(&LoadingIndicatorConfig::default());
    }
}

/// Stepping forward and then back shows the theme shown before, and so
/// does stepping back and then forward.
pub proof fn lemma_next_then_previous_theme(i: int, n: int)
    requires
        0 <= i < n,
    ensures
        previous_theme_index(next_theme_index(i, n), n) == i,
        next_theme_index(previous_theme_index(i, n), n) == i,
{
    if i + 1 < n {
        assert((i + 1) % n == i + 1) by (nonlinear_arith)
            requires
                0 <= i + 1 < n,
        ;
    } else {
        assert((i + 1) % n == 0) by (nonlinear_arith)
            requires
                i + 1 == n,
                n > 0,
        ;
    }
    if i == 0 {
        assert(n % n == 0) by (nonlinear_arith)
            requires
                n > 0,
        ;
    } else {
        assert(i % n == i) by (nonlinear_arith)
            requires
                0 <= i < n,
        ;
    }
}

} // verus!
