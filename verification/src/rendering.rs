//! Rendering support: the easing functions and spinner styles of visual
//! effects, the text of the loading indicator, render settings and
//! counters, timing statistics, and the recommendations drawn from memory
//! use and slow components. Durations are in nanoseconds unless named
//! otherwise.

use vstd::prelude::*;
use vstd::string::*;
use crate::component::ComponentId;
use crate::text::{decimal, decimal_text};

verus! {

/// Easing functions of visual effects.
#[derive(Debug, Clone, Copy, PartialEq, Eq, Structural)]
pub enum EasingFunction {
    Linear,
    EaseIn,
    EaseOut,
    EaseInOut,
    Bounce,
    Elastic,
}

/// Spinner styles of visual effects.
#[derive(Debug, Clone, PartialEq, Eq)]
pub enum SpinnerStyle {
    Dots,
    Line,
    Circle,
    Braille,
    Custom(Vec<char>),
}

/// The frames of the loading indicator's spinner.
pub open spec fn loading_frames() -> Seq<char> {
    seq!['⠋', '⠙', '⠹', '⠸', '⠼', '⠴', '⠦', '⠧', '⠇', '⠏']
}

/// The loading indicator's text after `elapsed_millis`: the spinner frame
/// (one every 100 milliseconds, in turn) and the message, `Loading...`
/// when none is given.
pub open spec fn loading_text(elapsed_millis: u128, message: Option<Seq<char>>) -> Seq<char> {
    seq![loading_frames()[((elapsed_millis / 100) % 10) as int], ' '] + match message {
        Some(m) => m,
        None => "Loading..."@,
    }
}

/// The loading indicator's text after `elapsed_millis`.
pub fn loading_indicator_text(elapsed_millis: u128, message: Option<&str>) -> (r: String)
    ensures
        r@ == loading_text(elapsed_millis, match message {
            Some(m) => Some(m@),
            None => None,
        }),
{
    let frames = ['⠋', '⠙', '⠹', '⠸', '⠼', '⠴', '⠦', '⠧', '⠇', '⠏'];
    let index = ((elapsed_millis / 100) % 10) as usize;
    let mut s = String::new();
    crate::text::push_char(&mut s, frames[index]);
    crate::text::push_char(&mut s, ' ');
    assert(frames@ =~= loading_frames());
    match message {
        Some(m) => s.append(m),
        None => s.append("Loading..."),
    }
    s
}

/// Settings of change-detecting rendering.
#[derive(Debug, Clone, Copy, PartialEq, Eq, Structural)]
pub struct SmartRendererConfig {
    pub enable_change_detection: bool,
    pub enable_caching: bool,
    /// Milliseconds before a cached render is redone.
    pub max_cache_age_millis: u64,
    /// Milliseconds above which a render counts as expensive.
    pub expensive_render_threshold_millis: u64,
    pub max_cache_size: usize,
}

impl Default for SmartRendererConfig {
    fn default() -> (r: Self)
        ensures
            r == (SmartRendererConfig {
                enable_change_detection: true,
                enable_caching: true,
                max_cache_age_millis: 5000,
                expensive_render_threshold_millis: 16,
                max_cache_size: 100,
            }),
    {
        SmartRendererConfig {
            enable_change_detection: true,
            enable_caching: true,
            max_cache_age_millis: 5000,
            expensive_render_threshold_millis: 16,
            max_cache_size: 100,
        }
    }
}

/// Counters of rendering.
#[derive(Debug, Clone, Copy, PartialEq, Eq, Structural)]
pub struct RenderMetrics {
    pub total_renders: u64,
    pub cache_hits: u64,
    pub cache_misses: u64,
    pub total_render_time: u128,
    pub average_render_time: u128,
    pub last_dirty_count: usize,
    pub peak_cache_size: usize,
}

impl Default for RenderMetrics {
    fn default() -> (r: Self)
        ensures
            r == (RenderMetrics {
                total_renders: 0,
                cache_hits: 0,
                cache_misses: 0,
                total_render_time: 0,
                average_render_time: 0,
                last_dirty_count: 0,
                peak_cache_size: 0,
            }),
    {
        RenderMetrics {
            total_renders: 0,
            cache_hits: 0,
            cache_misses: 0,
            total_render_time: 0,
            average_render_time: 0,
            last_dirty_count: 0,
            peak_cache_size: 0,
        }
    }
}

/// Statistics of a set of timings.
#[derive(Debug, Clone, Copy, PartialEq, Eq, Structural)]
pub struct TimeStatistics {
    pub mean: u128,
    pub median: u128,
    pub p95: u128,
    pub p99: u128,
    pub min: u128,
    pub max: u128,
}

/// What a recommendation is about.
#[derive(Debug, Clone, Copy, PartialEq, Eq, Structural)]
pub enum RecommendationCategory {
    FrameRate,
    ComponentPerformance,
    MemoryUsage,
    CacheEfficiency,
    RenderOptimization,
}

/// How pressing a recommendation is.
#[derive(Debug, Clone, Copy, PartialEq, Eq, Structural)]
pub enum RecommendationSeverity {
    Low,
    Medium,
    High,
    Critical,
}

/// A recommendation for better rendering performance.
#[derive(Debug, Clone)]
pub struct PerformanceRecommendation {
    pub category: RecommendationCategory,
    pub severity: RecommendationSeverity,
    pub message: String,
    pub component_id: Option<ComponentId>,
    pub suggested_action: String,
}

/// The recommendation on cache memory: when memory is tracked and the
/// caches hold more than ten million bytes.
pub fn memory_recommendation(tracking: bool, cache_memory_usage: usize) -> (r: Option<PerformanceRecommendation>)
    ensures
        (tracking && cache_memory_usage > 10_000_000) ==> (r matches Some(rec) && {
            &&& rec.category == RecommendationCategory::MemoryUsage
            &&& rec.severity == RecommendationSeverity::Medium
            &&& rec.message@ == "High cache memory usage: "@ + decimal(cache_memory_usage as nat) + " bytes"@
            &&& rec.component_id is None
            &&& rec.suggested_action@ == "Consider reducing cache size limits or implementing cache eviction"@
        }),
        !(tracking && cache_memory_usage > 10_000_000) ==> r is None,
{
    if tracking && cache_memory_usage > 10_000_000 {
        let mut message = "High cache memory usage: ".to_owned();
        let n = decimal_text(cache_memory_usage as u64);
        message.append(n.as_str());
        message.append(" bytes");
        Some(PerformanceRecommendation {
            category: RecommendationCategory::MemoryUsage,
            severity: RecommendationSeverity::Medium,
            message,
            component_id: None,
            suggested_action: "Consider reducing cache size limits or implementing cache eviction".to_owned(),
        })
    } else {
        None
    }
}

/// The severity of a slow component's recommendation: high above 50
/// milliseconds on average, else medium.
pub fn component_severity(average_millis: u128) -> (r: RecommendationSeverity)
    ensures
        r == (if average_millis > 50 { RecommendationSeverity::High } else { RecommendationSeverity::Medium }),
{
    if average_millis > 50 {
        RecommendationSeverity::High
    } else {
        RecommendationSeverity::Medium
    }
}

} // verus!
