//! Layout and spacing constants for consistent positioning, and the
//! responsive sizing rules built on them.

use vstd::prelude::*;

verus! {

/// Spacing values for consistent padding and margins.
#[derive(Debug, Clone, Copy, PartialEq, Eq, Structural)]
pub struct Spacing {
    pub none: u16,
    /// Extra small.
    pub xs: u16,
    /// Small.
    pub sm: u16,
    /// Medium (default).
    pub md: u16,
    /// Large.
    pub lg: u16,
    /// Extra large.
    pub xl: u16,
    /// Extra extra large.
    pub xxl: u16,
}

/// The default spacing values.
pub open spec fn default_spacing() -> Spacing {
    Spacing { none: 0, xs: 1, sm: 2, md: 3, lg: 4, xl: 6, xxl: 8 }
}

/// The compact spacing values.
pub open spec fn compact_spacing() -> Spacing {
    Spacing { none: 0, xs: 1, sm: 1, md: 2, lg: 3, xl: 4, xxl: 6 }
}

/// The comfortable spacing values.
pub open spec fn comfortable_spacing() -> Spacing {
    Spacing { none: 0, xs: 2, sm: 3, md: 4, lg: 6, xl: 8, xxl: 12 }
}

/// Spacing size enumeration.
#[derive(Debug, Clone, Copy, PartialEq, Eq, Structural)]
pub enum SpacingSize {
    Zero,
    XS,
    SM,
    MD,
    LG,
    XL,
    XXL,
}

impl Default for SpacingSize {
    fn default() -> (r: Self)
        ensures
            r == SpacingSize::MD,
    {
        SpacingSize::MD
    }
}

impl Spacing {
    /// The value of a spacing size.
    pub open spec fn size_value(self, size: SpacingSize) -> u16 {
        match size {
            SpacingSize::Zero => self.none,
            SpacingSize::XS => self.xs,
            SpacingSize::SM => self.sm,
            SpacingSize::MD => self.md,
            SpacingSize::LG => self.lg,
            SpacingSize::XL => self.xl,
            SpacingSize::XXL => self.xxl,
        }
    }

    /// Create default spacing values.
    pub fn default() -> (r: Self)
        ensures
            r == default_spacing(),
    {
        Spacing { none: 0, xs: 1, sm: 2, md: 3, lg: 4, xl: 6, xxl: 8 }
    }

    /// Create compact spacing values for dense layouts.
    pub fn compact() -> (r: Self)
        ensures
            r == compact_spacing(),
    {
        Spacing { none: 0, xs: 1, sm: 1, md: 2, lg: 3, xl: 4, xxl: 6 }
    }

    /// Create comfortable spacing values for accessibility.
    pub fn comfortable() -> (r: Self)
        ensures
            r == comfortable_spacing(),
    {
        Spacing { none: 0, xs: 2, sm: 3, md: 4, lg: 6, xl: 8, xxl: 12 }
    }

    /// Get spacing value by size.
    pub fn get(&self, size: SpacingSize) -> (r: u16)
        ensures
            r == self.size_value(size),
    {
        match size {
            SpacingSize::Zero => self.none,
            SpacingSize::XS => self.xs,
            SpacingSize::SM => self.sm,
            SpacingSize::MD => self.md,
            SpacingSize::LG => self.lg,
            SpacingSize::XL => self.xl,
            SpacingSize::XXL => self.xxl,
        }
    }
}

/// Layout constants for consistent component sizing.
#[derive(Debug, Clone, Copy, PartialEq, Eq, Structural)]
pub struct LayoutConstants {
    pub button_height: u16,
    pub input_height: u16,
    pub select_height: u16,
    pub header_height: u16,
    pub footer_height: u16,
    pub sidebar_width: u16,
    pub dialog_min_width: u16,
    pub dialog_max_width: u16,
    pub dialog_min_height: u16,
    pub dialog_max_height: u16,
    pub list_item_height: u16,
    pub table_row_height: u16,
    pub table_header_height: u16,
    /// Responsive breakpoints.
    pub small_terminal_width: u16,
    pub medium_terminal_width: u16,
    pub large_terminal_width: u16,
    /// Minimum dimensions for usability.
    pub min_component_width: u16,
    pub min_component_height: u16,
}

/// The default layout constants.
pub open spec fn default_constants() -> LayoutConstants {
    LayoutConstants {
        button_height: 3,
        input_height: 3,
        select_height: 3,
        header_height: 3,
        footer_height: 2,
        sidebar_width: 25,
        dialog_min_width: 40,
        dialog_max_width: 120,
        dialog_min_height: 10,
        dialog_max_height: 40,
        list_item_height: 1,
        table_row_height: 1,
        table_header_height: 2,
        small_terminal_width: 80,
        medium_terminal_width: 120,
        large_terminal_width: 160,
        min_component_width: 20,
        min_component_height: 3,
    }
}

/// The compact layout constants.
pub open spec fn compact_constants() -> LayoutConstants {
    LayoutConstants {
        button_height: 1,
        input_height: 1,
        select_height: 1,
        header_height: 2,
        footer_height: 1,
        sidebar_width: 20,
        dialog_min_width: 30,
        dialog_max_width: 80,
        dialog_min_height: 8,
        dialog_max_height: 30,
        list_item_height: 1,
        table_row_height: 1,
        table_header_height: 1,
        small_terminal_width: 60,
        medium_terminal_width: 100,
        large_terminal_width: 140,
        min_component_width: 15,
        min_component_height: 1,
    }
}

/// The accessibility layout constants.
pub open spec fn accessibility_constants() -> LayoutConstants {
    LayoutConstants {
        button_height: 4,
        input_height: 4,
        select_height: 4,
        header_height: 4,
        footer_height: 3,
        sidebar_width: 30,
        dialog_min_width: 50,
        dialog_max_width: 140,
        dialog_min_height: 12,
        dialog_max_height: 50,
        list_item_height: 2,
        table_row_height: 2,
        table_header_height: 3,
        small_terminal_width: 100,
        medium_terminal_width: 140,
        large_terminal_width: 180,
        min_component_width: 25,
        min_component_height: 4,
    }
}

/// Component type for layout calculations.
#[derive(Debug, Clone, Copy, PartialEq, Eq, Structural)]
pub enum ComponentType {
    Button,
    Input,
    Select,
    Header,
    Footer,
    ListItem,
    TableRow,
    TableHeader,
}

impl LayoutConstants {
    /// The height of a component type.
    pub open spec fn height_of(self, component_type: ComponentType) -> u16 {
        match component_type {
            ComponentType::Button => self.button_height,
            ComponentType::Input => self.input_height,
            ComponentType::Select => self.select_height,
            ComponentType::Header => self.header_height,
            ComponentType::Footer => self.footer_height,
            ComponentType::ListItem => self.list_item_height,
            ComponentType::TableRow => self.table_row_height,
            ComponentType::TableHeader => self.table_header_height,
        }
    }

    /// A terminal of this width is small.
    pub open spec fn small(self, width: u16) -> bool {
        width < self.small_terminal_width
    }

    /// A terminal of this width is medium.
    pub open spec fn medium(self, width: u16) -> bool {
        width >= self.small_terminal_width && width < self.large_terminal_width
    }

    /// A terminal of this width is large.
    pub open spec fn large(self, width: u16) -> bool {
        width >= self.large_terminal_width
    }

    /// Create default layout constants.
    pub fn default() -> (r: Self)
        ensures
            r == default_constants(),
    {
        LayoutConstants {
            button_height: 3,
            input_height: 3,
            select_height: 3,
            header_height: 3,
            footer_height: 2,
            sidebar_width: 25,
            dialog_min_width: 40,
            dialog_max_width: 120,
            dialog_min_height: 10,
            dialog_max_height: 40,
            list_item_height: 1,
            table_row_height: 1,
            table_header_height: 2,
            small_terminal_width: 80,
            medium_terminal_width: 120,
            large_terminal_width: 160,
            min_component_width: 20,
            min_component_height: 3,
        }
    }

    /// Create compact layout constants for smaller terminals.
    pub fn compact() -> (r: Self)
        ensures
            r == compact_constants(),
    {
        LayoutConstants {
            button_height: 1,
            input_height: 1,
            select_height: 1,
            header_height: 2,
            footer_height: 1,
            sidebar_width: 20,
            dialog_min_width: 30,
            dialog_max_width: 80,
            dialog_min_height: 8,
            dialog_max_height: 30,
            list_item_height: 1,
            table_row_height: 1,
            table_header_height: 1,
            small_terminal_width: 60,
            medium_terminal_width: 100,
            large_terminal_width: 140,
            min_component_width: 15,
            min_component_height: 1,
        }
    }

    /// Create accessibility-focused layout constants.
    pub fn accessibility() -> (r: Self)
        ensures
            r == accessibility_constants(),
    {
        LayoutConstants {
            button_height: 4,
            input_height: 4,
            select_height: 4,
            header_height: 4,
            footer_height: 3,
            sidebar_width: 30,
            dialog_min_width: 50,
            dialog_max_width: 140,
            dialog_min_height: 12,
            dialog_max_height: 50,
            list_item_height: 2,
            table_row_height: 2,
            table_header_height: 3,
            small_terminal_width: 100,
            medium_terminal_width: 140,
            large_terminal_width: 180,
            min_component_width: 25,
            min_component_height: 4,
        }
    }

    /// Get appropriate height for component type.
    pub fn get_component_height(&self, component_type: ComponentType) -> (r: u16)
        ensures
            r == self.height_of(component_type),
    {
        match component_type {
            ComponentType::Button => self.button_height,
            ComponentType::Input => self.input_height,
            ComponentType::Select => self.select_height,
            ComponentType::Header => self.header_height,
            ComponentType::Footer => self.footer_height,
            ComponentType::ListItem => self.list_item_height,
            ComponentType::TableRow => self.table_row_height,
            ComponentType::TableHeader => self.table_header_height,
        }
    }

    /// Check if terminal size qualifies as small.
    pub fn is_small_terminal(&self, width: u16) -> (r: bool)
        ensures
            r == self.small(width),
    {
        width < self.small_terminal_width
    }

    /// Check if terminal size qualifies as medium.
    pub fn is_medium_terminal(&self, width: u16) -> (r: bool)
        ensures
            r == self.medium(width),
    {
        width >= self.small_terminal_width && width < self.large_terminal_width
    }

    /// Check if terminal size qualifies as large.
    pub fn is_large_terminal(&self, width: u16) -> (r: bool)
        ensures
            r == self.large(width),
    {
        width >= self.large_terminal_width
    }
}

/// Layout style enumeration.
#[derive(Debug, Clone, Copy, PartialEq, Eq, Structural)]
pub enum LayoutStyle {
    Default,
    Compact,
    Comfortable,
    Accessibility,
}

/// Margin side enumeration.
#[derive(Debug, Clone, Copy, PartialEq, Eq, Structural)]
pub enum MarginSide {
    Top,
    Right,
    Bottom,
    Left,
    All,
}

/// Layout theme that combines spacing and constants.
#[derive(Debug, Clone, Copy, PartialEq, Eq, Structural)]
pub struct LayoutTheme {
    pub spacing: Spacing,
    pub constants: LayoutConstants,
    pub layout_style: LayoutStyle,
}

/// `value` raised to at least `low`, then lowered to at most `high`.
pub open spec fn clamp_spec(value: int, low: int, high: int) -> int {
    let raised = if value < low { low } else { value };
    if raised > high { high } else { raised }
}

/// The percentage of a terminal width given to a dialog.
pub open spec fn dialog_width_percent(c: LayoutConstants, terminal_width: u16) -> int {
    if c.small(terminal_width) {
        90
    } else if c.medium(terminal_width) {
        80
    } else {
        70
    }
}

/// The responsive dialog width.
pub open spec fn dialog_width(c: LayoutConstants, terminal_width: u16) -> int {
    clamp_spec(
        terminal_width * dialog_width_percent(c, terminal_width) / 100,
        c.dialog_min_width as int,
        c.dialog_max_width as int,
    )
}

/// The responsive dialog height.
pub open spec fn dialog_height(c: LayoutConstants, terminal_height: u16) -> int {
    clamp_spec(terminal_height * 80 / 100, c.dialog_min_height as int, c.dialog_max_height as int)
}

/// The responsive sidebar width.
pub open spec fn sidebar_width_for(c: LayoutConstants, terminal_width: u16) -> int {
    if c.small(terminal_width) {
        0
    } else if c.medium(terminal_width) {
        let w = c.sidebar_width * 80 / 100;
        if w < 15 { 15 } else { w }
    } else {
        c.sidebar_width as int
    }
}

impl LayoutTheme {
    /// Create default layout theme.
    pub fn default() -> (r: Self)
        ensures
            r.spacing == default_spacing(),
            r.constants == default_constants(),
            r.layout_style == LayoutStyle::Default,
    {
        LayoutTheme { spacing: Spacing::default(), constants: LayoutConstants::default(), layout_style: LayoutStyle::Default }
    }

    /// Create compact layout theme.
    pub fn compact() -> (r: Self)
        ensures
            r.spacing == compact_spacing(),
            r.constants == compact_constants(),
            r.layout_style == LayoutStyle::Compact,
    {
        LayoutTheme { spacing: Spacing::compact(), constants: LayoutConstants::compact(), layout_style: LayoutStyle::Compact }
    }

    /// Create comfortable layout theme.
    pub fn comfortable() -> (r: Self)
        ensures
            r.spacing == comfortable_spacing(),
            r.constants == default_constants(),
            r.layout_style == LayoutStyle::Comfortable,
    {
        LayoutTheme {
            spacing: Spacing::comfortable(),
            constants: LayoutConstants::default(),
            layout_style: LayoutStyle::Comfortable,
        }
    }

    /// Create accessibility layout theme.
    pub fn accessibility() -> (r: Self)
        ensures
            r.spacing == comfortable_spacing(),
            r.constants == accessibility_constants(),
            r.layout_style == LayoutStyle::Accessibility,
    {
        LayoutTheme {
            spacing: Spacing::comfortable(),
            constants: LayoutConstants::accessibility(),
            layout_style: LayoutStyle::Accessibility,
        }
    }

    /// Get margin for component sides: the same spacing on every side.
    pub fn get_margin(&self, side: MarginSide, size: SpacingSize) -> (r: u16)
        ensures
            r == self.spacing.size_value(size),
    {
        let base_spacing = self.spacing.get(size);
        match side {
            MarginSide::Top | MarginSide::Bottom => base_spacing,
            MarginSide::Left | MarginSide::Right => base_spacing,
            MarginSide::All => base_spacing,
        }
    }

    /// Get padding for component.
    pub fn get_padding(&self, size: SpacingSize) -> (r: u16)
        ensures
            r == self.spacing.size_value(size),
    {
        self.spacing.get(size)
    }

    /// Calculate responsive dialog size: a share of the terminal (90% of a
    /// small one, 80% of a medium one, 70% of a large one wide; 80% high),
    /// raised to the minimum and then lowered to the maximum.
    pub fn get_dialog_size(&self, terminal_width: u16, terminal_height: u16) -> (r: (u16, u16))
        requires
            terminal_width * dialog_width_percent(self.constants, terminal_width) <= u16::MAX,
            terminal_height * 80 <= u16::MAX,
        ensures
            r.0 == dialog_width(self.constants, terminal_width),
            r.1 == dialog_height(self.constants, terminal_height),
    {
        let raw: u16 = if self.constants.is_small_terminal(terminal_width) {
            terminal_width * 90 / 100
        } else if self.constants.is_medium_terminal(terminal_width) {
            terminal_width * 80 / 100
        } else {
            terminal_width * 70 / 100
        };
        let raised = if raw < self.constants.dialog_min_width { self.constants.dialog_min_width } else { raw };
        let width = if raised > self.constants.dialog_max_width { self.constants.dialog_max_width } else { raised };
        let raw_h: u16 = terminal_height * 80 / 100;
        let raised_h = if raw_h < self.constants.dialog_min_height { self.constants.dialog_min_height } else { raw_h };
        let height = if raised_h > self.constants.dialog_max_height { self.constants.dialog_max_height } else { raised_h };
        (width, height)
    }

    /// Calculate responsive sidebar width: hidden on small terminals, 80% of
    /// the configured width (at least 15) on medium ones, the configured
    /// width on large ones.
    pub fn get_sidebar_width(&self, terminal_width: u16) -> (r: u16)
        requires
            self.constants.medium(terminal_width) ==> self.constants.sidebar_width * 80 <= u16::MAX,
        ensures
            r == sidebar_width_for(self.constants, terminal_width),
    {
        if self.constants.is_small_terminal(terminal_width) {
            0
        } else if self.constants.is_medium_terminal(terminal_width) {
            let w: u16 = self.constants.sidebar_width * 80 / 100;
            if w < 15 { 15 } else { w }
        } else {
            self.constants.sidebar_width
        }
    }
}

/// The number of components, as the 16-bit count that the sizes are
/// computed with.
pub open spec fn count16(component_count: usize) -> int {
    component_count as int % 65536
}

/// The space taken by the gaps between components.
pub open spec fn total_spacing(component_count: usize, spacing: u16) -> int {
    let gaps = if component_count == 0 { 0int } else { component_count - 1 };
    spacing * (gaps % 65536)
}

/// The space left for the components once the gaps are taken.
pub open spec fn available_space(total_space: u16, component_count: usize, spacing: u16) -> int {
    let t = total_spacing(component_count, spacing);
    if total_space >= t { total_space - t } else { 0 }
}

/// The size every component gets before the remainder is handed out.
pub open spec fn base_size(total_space: u16, component_count: usize, spacing: u16) -> int {
    available_space(total_space, component_count, spacing) / count16(component_count)
}

/// The sizes that `distribute_space` gives: the minimum for every component
/// when the even share is below it; else the even share, plus one for each
/// of the first components until the remainder is used up.
pub open spec fn distributed_sizes(total_space: u16, component_count: usize, min_size: u16, spacing: u16) -> Seq<int> {
    let base = base_size(total_space, component_count, spacing);
    let rem = available_space(total_space, component_count, spacing) % count16(component_count);
    if base < min_size {
        Seq::new(component_count as nat, |i: int| min_size as int)
    } else {
        Seq::new(component_count as nat, |i: int| if i < rem { base + 1 } else { base })
    }
}

/// The sum of a sequence of sizes.
pub open spec fn sum_sizes(s: Seq<int>) -> int
    decreases s.len(),
{
    if s.len() == 0 {
        0
    } else {
        sum_sizes(s.drop_last()) + s.last()
    }
}

/// Calculate optimal component distribution: split the space left after the
/// gaps evenly, the remainder going one unit each to the first components,
/// or give every component the minimum when the even share is below it.
pub fn distribute_space(total_space: u16, component_count: usize, min_size: u16, spacing: u16) -> (r: Vec<u16>)
    requires
        count16(component_count) != 0,
        total_spacing(component_count, spacing) <= u16::MAX,
    ensures
        r@.len() == component_count,
        forall|i: int| 0 <= i < component_count ==> r@[i] == #[trigger] distributed_sizes(total_space, component_count, min_size, spacing)[i],
{
    let gaps: usize = if component_count == 0 { 0 } else { component_count - 1 };
    let gaps16: u16 = (gaps % 65536) as u16;
    let count: u16 = (component_count % 65536) as u16;
    let spacing_total: u16 = spacing * gaps16;
    let available: u16 = if total_space >= spacing_total { total_space - spacing_total } else { 0 };
    let base: u16 = available / count;
    let ghost sizes = distributed_sizes(total_space, component_count, min_size, spacing);
    if base < min_size {
        let mut out: Vec<u16> = Vec::new();
        let mut i: usize = 0;
        while i < component_count
            invariant
                i <= component_count,
                out@.len() == i,
                base < min_size,
                base == base_size(total_space, component_count, spacing),
                sizes == distributed_sizes(total_space, component_count, min_size, spacing),
                forall|j: int| 0 <= j < i ==> out@[j] == #[trigger] sizes[j],
            decreases component_count - i,
        {
            out.push(min_size);
            i += 1;
        }
        out
    } else {
        let remainder: u16 = available % count;
        proof {
            assert(remainder < count);
            assert(base * count + remainder == available) by (nonlinear_arith)
                requires
                    count > 0,
                    base == available / count,
                    remainder == available % count,
            ;
            if remainder > 0 {
                assert(count >= 2);
                assert(base * 2 <= base * count) by (nonlinear_arith)
                    requires
                        count >= 2,
                        base >= 0,
                ;
            }
        }
        let mut out: Vec<u16> = Vec::new();
        let mut i: usize = 0;
        while i < component_count
            invariant
                i <= component_count,
                out@.len() == i,
                base >= min_size,
                base == base_size(total_space, component_count, spacing),
                remainder as int == available_space(total_space, component_count, spacing) % count16(component_count),
                remainder > 0 ==> base < u16::MAX,
                sizes == distributed_sizes(total_space, component_count, min_size, spacing),
                forall|j: int| 0 <= j < i ==> out@[j] == #[trigger] sizes[j],
            decreases component_count - i,
        {
            if i < remainder as usize {
                out.push(base + 1);
            } else {
                out.push(base);
            }
            i += 1;
        }
        out
    }
}

/// A size constraint for one column of a layout.
#[derive(Debug, Clone, Copy, PartialEq, Eq, Structural)]
pub enum LayoutConstraint {
    /// A share of the available space, in percent.
    Percentage(u16),
    /// A fixed length.
    Length(u16),
    /// At least this length.
    Min(u16),
}

/// The column percentages for a terminal width: one column on a small
/// terminal, 60/40 on a medium one, 25/50/25 on a large one.
pub open spec fn responsive_percentages(c: LayoutConstants, terminal_width: u16) -> Seq<u16> {
    if c.small(terminal_width) {
        seq![100u16]
    } else if c.medium(terminal_width) {
        seq![60u16, 40u16]
    } else {
        seq![25u16, 50u16, 25u16]
    }
}

/// Create responsive layout constraints based on terminal size.
pub fn responsive_constraints(terminal_width: u16, layout_theme: &LayoutTheme) -> (r: Vec<LayoutConstraint>)
    ensures
        r@.len() == responsive_percentages(layout_theme.constants, terminal_width).len(),
        forall|i: int| 0 <= i < r@.len() ==>
            r@[i] == LayoutConstraint::Percentage(#[trigger] responsive_percentages(layout_theme.constants, terminal_width)[i]),
{
    if layout_theme.constants.is_small_terminal(terminal_width) {
        vec![LayoutConstraint::Percentage(100)]
    } else if layout_theme.constants.is_medium_terminal(terminal_width) {
        vec![LayoutConstraint::Percentage(60), LayoutConstraint::Percentage(40)]
    } else {
        vec![LayoutConstraint::Percentage(25), LayoutConstraint::Percentage(50), LayoutConstraint::Percentage(25)]
    }
}

/// The sum of the first `n` sizes when the first `rem` get one more than
/// `base`.
proof fn lemma_sum_even_split(base: int, rem: int, n: nat)
    requires
        0 <= rem,
    ensures
        sum_sizes(Seq::new(n, |i: int| if i < rem { base + 1 } else { base }))
            == n * base + (if n < rem { n as int } else { rem }),
    decreases n,
{
    let s = Seq::new(n, |i: int| if i < rem { base + 1 } else { base });
    if n > 0 {
        let t = Seq::new((n - 1) as nat, |i: int| if i < rem { base + 1 } else { base });
        assert(s.drop_last() =~= t);
        lemma_sum_even_split(base, rem, (n - 1) as nat);
        assert(s.last() == (if n - 1 < rem { base + 1 } else { base }));
        assert(sum_sizes(s) == sum_sizes(t) + s.last());
        assert(n * base == (n - 1) * base + base) by (nonlinear_arith);
    } else {
        assert(n * base == 0) by (nonlinear_arith)
            requires
                n == 0,
        ;
    }
}

/// Every size that `distribute_space` gives is at least the minimum size.
pub proof fn lemma_distributed_at_least_min(total_space: u16, component_count: usize, min_size: u16, spacing: u16)
    requires
        count16(component_count) != 0,
    ensures
        forall|i: int| 0 <= i < component_count ==>
            #[trigger] distributed_sizes(total_space, component_count, min_size, spacing)[i] >= min_size,
{
}

/// When the even share reaches the minimum, the sizes use up exactly the
/// space left after the gaps; so, with the gaps, they fill a total space
/// that holds the gaps. (With 65536 components or more the count the sizes
/// are computed with wraps, and this does not hold.)
pub proof fn lemma_distributed_fills_space(total_space: u16, component_count: usize, min_size: u16, spacing: u16)
    requires
        0 < component_count < 65536,
        base_size(total_space, component_count, spacing) >= min_size,
    ensures
        sum_sizes(distributed_sizes(total_space, component_count, min_size, spacing))
            == available_space(total_space, component_count, spacing),
        total_space >= total_spacing(component_count, spacing) ==>
            sum_sizes(distributed_sizes(total_space, component_count, min_size, spacing))
                + total_spacing(component_count, spacing) == total_space,
{
    let n = component_count as int;
    let avail = available_space(total_space, component_count, spacing);
    let base = base_size(total_space, component_count, spacing);
    let rem = avail % n;
    assert(count16(component_count) == n);
    assert(avail == n * base + rem && 0 <= rem < n) by (nonlinear_arith)
        requires
            n > 0,
            avail >= 0,
            base == avail / n,
            rem == avail % n,
    ;
    lemma_sum_even_split(base, rem, component_count as nat);
}

/// The responsive dialog size stays within the configured minimum and
/// maximum, when the minimum is not above the maximum.
pub proof fn lemma_dialog_size_within_bounds(c: LayoutConstants, terminal_width: u16, terminal_height: u16)
    requires
        c.dialog_min_width <= c.dialog_max_width,
        c.dialog_min_height <= c.dialog_max_height,
    ensures
        c.dialog_min_width <= dialog_width(c, terminal_width) <= c.dialog_max_width,
        c.dialog_min_height <= dialog_height(c, terminal_height) <= c.dialog_max_height,
{
}

/// With ordered breakpoints, the sidebar is hidden on small terminals, at
/// least 15 wide on medium ones, and as configured on large ones.
pub proof fn lemma_sidebar_width_responsive(c: LayoutConstants, terminal_width: u16)
    requires
        c.small_terminal_width <= c.large_terminal_width,
    ensures
        c.small(terminal_width) ==> sidebar_width_for(c, terminal_width) == 0,
        c.medium(terminal_width) ==> sidebar_width_for(c, terminal_width) >= 15,
        c.large(terminal_width) ==> sidebar_width_for(c, terminal_width) == c.sidebar_width,
{
}

} // verus!
