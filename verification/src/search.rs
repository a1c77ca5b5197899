//! Searchable items: what an item offers to a search, the kinds of match and
//! their priority, and the statistics of a search.

use vstd::prelude::*;
use vstd::string::*;
use crate::assoc::StringTable;
use crate::component::CommonComponentState;
use crate::keys::{KeyCode, KeyEvent};
use crate::text::{lowercase, occurs_at, pop_char, push_char, str_eq, strings_view, text_contains, text_contains_spec, to_lowercase};

verus! {

/// An item that a search can look at.
pub trait SearchableItem {
    /// The primary text to search in.
    fn search_text(&self) -> &str;

    /// Secondary texts to search in.
    fn secondary_search_text(&self) -> Vec<&str> {
        Vec::new()
    }

    /// The text shown for the item.
    fn display_text(&self) -> String {
        self.search_text().to_owned()
    }

    /// The unique identifier of the item.
    fn id(&self) -> String;
}

/// A searchable item with a title, an optional description, tags and
/// metadata.
#[derive(Debug)]
pub struct BasicSearchableItem {
    pub id: String,
    pub title: String,
    pub description: Option<String>,
    pub tags: Vec<String>,
    pub metadata: StringTable,
}

impl BasicSearchableItem {
    /// An item with an identifier and a title.
    pub fn new(id: String, title: String) -> (r: Self)
        ensures
            r.id == id,
            r.title == title,
            r.description is None,
            r.tags@.len() == 0,
            r.metadata@ == Map::<Seq<char>, Seq<char>>::empty(),
    {
        BasicSearchableItem { id, title, description: None, tags: Vec::new(), metadata: StringTable::new() }
    }

    /// Set the description.
    pub fn with_description(self, description: String) -> (r: Self)
        ensures
            r.description == Some(description),
            r.id == self.id,
            r.title == self.title,
            r.tags == self.tags,
    {
        let mut s = self;
        s.description = Some(description);
        s
    }

    /// Set the tags.
    pub fn with_tags(self, tags: Vec<String>) -> (r: Self)
        ensures
            r.tags == tags,
            r.id == self.id,
            r.title == self.title,
            r.description == self.description,
    {
        let mut s = self;
        s.tags = tags;
        s
    }
}

impl SearchableItem for BasicSearchableItem {
    /// The title.
    fn search_text(&self) -> (r: &str)
        ensures
            r@ == self.title@,
    {
        self.title.as_str()
    }

    /// The description, if any, then the tags.
    fn secondary_search_text(&self) -> (r: Vec<&str>)
        ensures
            r@.len() == (if self.description is Some { 1int } else { 0int }) + self.tags@.len(),
            self.description matches Some(d) ==> r@[0]@ == d@,
            forall|i: int| 0 <= i < self.tags@.len() ==>
                r@[i + (if self.description is Some { 1int } else { 0int })]@ == #[trigger] self.tags@[i]@,
    {
        let mut texts: Vec<&str> = Vec::new();
        match &self.description {
            Some(d) => texts.push(d.as_str()),
            None => {},
        }
        let off: usize = if self.description.is_some() { 1 } else { 0 };
        let mut i: usize = 0;
        while i < self.tags.len()
            invariant
                i <= self.tags@.len(),
                off == (if self.description is Some { 1int } else { 0int }),
                texts@.len() == off + i,
                self.description matches Some(d) ==> texts@[0]@ == d@,
                forall|j: int| 0 <= j < i ==> texts@[j + off]@ == #[trigger] self.tags@[j]@,
            decreases self.tags@.len() - i,
        {
            texts.push(self.tags[i].as_str());
            i += 1;
        }
        texts
    }

    /// The title, and the description after a dash when there is one.
    fn display_text(&self) -> (r: String)
        ensures
            r@ == match self.description {
                Some(d) => self.title@ + " - "@ + d@,
                None => self.title@,
            },
    {
        match &self.description {
            Some(d) => {
                let mut t = self.title.clone();
                t.append(" - ");
                t.append(d.as_str());
                t
            },
            None => self.title.clone(),
        }
    }

    /// The identifier.
    fn id(&self) -> (r: String)
        ensures
            r == self.id,
    {
        self.id.clone()
    }
}

/// The kind of match a search found.
#[derive(Debug, Clone, Copy, PartialEq, Eq, Structural)]
pub enum MatchType {
    Exact,
    Prefix,
    Contains,
    Fuzzy,
}

impl MatchType {
    /// The priority of the kind of match: exact matches first.
    pub fn priority(&self) -> (r: u8)
        ensures
            r == match *self {
                MatchType::Exact => 4u8,
                MatchType::Prefix => 3u8,
                MatchType::Contains => 2u8,
                MatchType::Fuzzy => 1u8,
            },
    {
        match self {
            MatchType::Exact => 4,
            MatchType::Prefix => 3,
            MatchType::Contains => 2,
            MatchType::Fuzzy => 1,
        }
    }
}

/// Statistics of a search.
#[derive(Debug, Clone, Copy, PartialEq, Eq, Structural)]
pub struct SearchStats {
    pub total_items: usize,
    pub filtered_items: usize,
    pub exact_matches: usize,
    pub prefix_matches: usize,
    pub contains_matches: usize,
    pub fuzzy_matches: usize,
    pub search_time_ms: u64,
}

impl Default for SearchStats {
    fn default() -> (r: Self)
        ensures
            r == (SearchStats {
                total_items: 0,
                filtered_items: 0,
                exact_matches: 0,
                prefix_matches: 0,
                contains_matches: 0,
                fuzzy_matches: 0,
                search_time_ms: 0,
            }),
    {
        SearchStats {
            total_items: 0,
            filtered_items: 0,
            exact_matches: 0,
            prefix_matches: 0,
            contains_matches: 0,
            fuzzy_matches: 0,
            search_time_ms: 0,
        }
    }
}

/// Whether `text` starts with `prefix`.
pub open spec fn starts_with(text: Seq<char>, prefix: Seq<char>) -> bool {
    occurs_at(text, prefix, 0)
}

/// The kind of match of a query in a text, compared as given or in lower
/// case: the whole text, a prefix, somewhere inside, or only fuzzily.
pub open spec fn match_type_spec(query: Seq<char>, text: Seq<char>, case_sensitive: bool) -> MatchType {
    let q = if case_sensitive { query } else { lowercase(query) };
    let t = if case_sensitive { text } else { lowercase(text) };
    if q == t {
        MatchType::Exact
    } else if starts_with(t, q) {
        MatchType::Prefix
    } else if text_contains_spec(t, q) {
        MatchType::Contains
    } else {
        MatchType::Fuzzy
    }
}

fn text_starts_with(text: &str, prefix: &str) -> (r: bool)
    ensures
        r == starts_with(text@, prefix@),
{
    let n = prefix.unicode_len();
    if n > text.unicode_len() {
        return false;
    }
    let mut i: usize = 0;
    while i < n
        invariant
            n == prefix@.len(),
            n <= text@.len(),
            i <= n,
            forall|k: int| 0 <= k < i ==> text@[k] == prefix@[k],
        decreases n - i,
    {
        if text.get_char(i) != prefix.get_char(i) {
            assert(text@.subrange(0, n as int)[i as int] != prefix@[i as int]);
            return false;
        }
        i += 1;
    }
    assert(text@.subrange(0, n as int) =~= prefix@);
    true
}

/// A text as a match compares it: as given, or in lower case.
pub open spec fn compared_form(s: Seq<char>, case_sensitive: bool) -> Seq<char> {
    if case_sensitive { s } else { lowercase(s) }
}

/// Without case sensitivity, the kind of match depends on the lower-case
/// forms of the query and the text alone: changing the case of either
/// changes nothing.
pub proof fn lemma_match_ignores_case(q1: Seq<char>, t1: Seq<char>, q2: Seq<char>, t2: Seq<char>)
    requires
        lowercase(q1) == lowercase(q2),
        lowercase(t1) == lowercase(t2),
    ensures
        match_type_spec(q1, t1, false) == match_type_spec(q2, t2, false),
{
}

/// A query found inside a text at some position, when it is neither the
/// whole text nor found at its start, is a contains match; without case
/// sensitivity both are taken in lower case.
pub proof fn lemma_match_inside(query: Seq<char>, text: Seq<char>, case_sensitive: bool, i: int)
    requires
        ({
            let q = compared_form(query, case_sensitive);
            let t = compared_form(text, case_sensitive);
            &&& 0 <= i && i + q.len() <= t.len() && t.subrange(i, i + q.len()) == q
            &&& q != t
            &&& !(q.len() <= t.len() && t.subrange(0, q.len() as int) == q)
        }),
    ensures
        match_type_spec(query, text, case_sensitive) == MatchType::Contains,
{
    assert(occurs_at(compared_form(text, case_sensitive), compared_form(query, case_sensitive), i));
}

/// A match is exact exactly when the query and the text are the same, and
/// a prefix match exactly when the text, being longer, starts with the
/// query; without case sensitivity both are taken in lower case.
pub proof fn lemma_match_exact_and_prefix(query: Seq<char>, text: Seq<char>, case_sensitive: bool)
    ensures
        ({
            let q = compared_form(query, case_sensitive);
            let t = compared_form(text, case_sensitive);
            &&& (match_type_spec(query, text, case_sensitive) == MatchType::Exact) <==> q == t
            &&& (match_type_spec(query, text, case_sensitive) == MatchType::Prefix)
                <==> (q != t && q.len() <= t.len() && t.subrange(0, q.len() as int) == q)
        }),
{
}

/// A match is fuzzy exactly when the query occurs nowhere in the text;
/// without case sensitivity both are taken in lower case.
pub proof fn lemma_match_fuzzy_iff_absent(query: Seq<char>, text: Seq<char>, case_sensitive: bool)
    ensures
        (match_type_spec(query, text, case_sensitive) == MatchType::Fuzzy) <==> !exists|i: int|
            0 <= i && i + compared_form(query, case_sensitive).len() <= compared_form(text, case_sensitive).len()
                && #[trigger] compared_form(text, case_sensitive).subrange(i, i + compared_form(query, case_sensitive).len())
                    == compared_form(query, case_sensitive),
{
    let q = compared_form(query, case_sensitive);
    let t = compared_form(text, case_sensitive);
    let z: int = 0;
    if q == t {
        assert(t.subrange(z, z + q.len()) =~= q);
    } else if starts_with(t, q) {
        assert(occurs_at(t, q, z));
    } else if text_contains_spec(t, q) {
        let i = choose|i: int| occurs_at(t, q, i);
        assert(occurs_at(t, q, i));
    } else {
        assert forall|i: int| !(0 <= i && i + q.len() <= t.len() && #[trigger] t.subrange(i, i + q.len()) == q) by {
            assert(!occurs_at(t, q, i));
        }
    }
}

/// The kind of match of a query in a text.
pub fn match_type_of(query: &str, text: &str, case_sensitive: bool) -> (r: MatchType)
    ensures
        r == match_type_spec(query@, text@, case_sensitive),
{
    let (q, t) = if case_sensitive {
        (query.to_owned(), text.to_owned())
    } else {
        (to_lowercase(query), to_lowercase(text))
    };
    if str_eq(q.as_str(), t.as_str()) {
        MatchType::Exact
    } else if text_starts_with(t.as_str(), q.as_str()) {
        MatchType::Prefix
    } else if text_contains(t.as_str(), q.as_str()) {
        MatchType::Contains
    } else {
        MatchType::Fuzzy
    }
}

/// The number of matches of a kind among the first `n`.
pub open spec fn count_kind(kinds: Seq<MatchType>, kind: MatchType, n: int) -> nat
    decreases n,
{
    if n <= 0 {
        0
    } else {
        count_kind(kinds, kind, n - 1) + (if kinds[n - 1] == kind { 1nat } else { 0nat })
    }
}

/// The statistics of a search over `total_items` items whose results had
/// these kinds of match.
pub fn search_stats(total_items: usize, kinds: &Vec<MatchType>, search_time_ms: u64) -> (r: SearchStats)
    ensures
        r.total_items == total_items,
        r.filtered_items == kinds@.len(),
        r.exact_matches == count_kind(kinds@, MatchType::Exact, kinds@.len() as int),
        r.prefix_matches == count_kind(kinds@, MatchType::Prefix, kinds@.len() as int),
        r.contains_matches == count_kind(kinds@, MatchType::Contains, kinds@.len() as int),
        r.fuzzy_matches == count_kind(kinds@, MatchType::Fuzzy, kinds@.len() as int),
        r.search_time_ms == search_time_ms,
{
    let mut exact: usize = 0;
    let mut prefix: usize = 0;
    let mut contains: usize = 0;
    let mut fuzzy: usize = 0;
    let mut i: usize = 0;
    while i < kinds.len()
        invariant
            i <= kinds@.len(),
            exact == count_kind(kinds@, MatchType::Exact, i as int),
            prefix == count_kind(kinds@, MatchType::Prefix, i as int),
            contains == count_kind(kinds@, MatchType::Contains, i as int),
            fuzzy == count_kind(kinds@, MatchType::Fuzzy, i as int),
            exact + prefix + contains + fuzzy == i,
        decreases kinds@.len() - i,
    {
        match kinds[i] {
            MatchType::Exact => exact += 1,
            MatchType::Prefix => prefix += 1,
            MatchType::Contains => contains += 1,
            MatchType::Fuzzy => fuzzy += 1,
        }
        i += 1;
    }
    SearchStats {
        total_items,
        filtered_items: kinds.len(),
        exact_matches: exact,
        prefix_matches: prefix,
        contains_matches: contains,
        fuzzy_matches: fuzzy,
        search_time_ms,
    }
}

/// Whether an entry is other than the identifier.
pub open spec fn other_than(id: Seq<char>) -> spec_fn(Seq<char>) -> bool {
    |s: Seq<char>| s != id
}

/// The selection after toggling an item: an item that was selected is
/// removed wherever it occurs, any other is added at the end.
pub open spec fn toggled(selected: Seq<Seq<char>>, id: Seq<char>) -> Seq<Seq<char>> {
    if selected.contains(id) {
        selected.filter(other_than(id))
    } else {
        selected.push(id)
    }
}

/// What a key did to a search list: whether it was used, and whether the
/// results are to be computed again for the query.
#[derive(Debug, Clone, Copy, PartialEq, Eq, Structural)]
pub struct SearchKeyOutcome {
    pub handled: bool,
    pub search: bool,
}

/// The state of a searchable list: the query, the cursor, whether the
/// query is being typed, the identifiers of the results and the selected
/// items, and the statistics of the last search. The results themselves,
/// ranked by score, are kept by whoever runs the search.
#[derive(Debug)]
pub struct SearchListComponentState {
    pub common: CommonComponentState,
    pub query: String,
    pub current_item: usize,
    pub scroll_offset: usize,
    pub search_mode: bool,
    pub results: Vec<String>,
    pub stats: SearchStats,
    pub selected_items: Vec<String>,
}

impl Default for SearchListComponentState {
    fn default() -> (r: Self)
        ensures
            r.query@.len() == 0,
            r.current_item == 0,
            r.scroll_offset == 0,
            !r.search_mode,
            r.results@.len() == 0,
            r.selected_items@.len() == 0,
            r.stats.total_items == 0 && r.stats.filtered_items == 0,
    {
        SearchListComponentState {
            common: CommonComponentState::default(),
            query: String::new(),
            current_item: 0,
            scroll_offset: 0,
            search_mode: false,
            results: Vec::new(),
            stats: SearchStats::default(),
            selected_items: Vec::new(),
        }
    }
}

impl SearchListComponentState {
    /// Move the cursor up, stopping at the first result.
    pub fn move_up(&mut self)
        ensures
            final(self).current_item == (if old(self).current_item > 0 {
                old(self).current_item - 1
            } else {
                0
            }),
            final(self).query == old(self).query,
            final(self).search_mode == old(self).search_mode,
            final(self).selected_items == old(self).selected_items,
    {
        if self.current_item > 0 {
            self.current_item = self.current_item - 1;
        }
    }

    /// Move the cursor down, stopping at the last of `result_count` results.
    pub fn move_down(&mut self, result_count: usize)
        ensures
            final(self).current_item == (if old(self).current_item + 1 < result_count {
                old(self).current_item + 1
            } else {
                old(self).current_item as int
            }),
            final(self).query == old(self).query,
            final(self).search_mode == old(self).search_mode,
            final(self).selected_items == old(self).selected_items,
    {
        if self.current_item < usize::MAX && self.current_item + 1 < result_count {
            self.current_item = self.current_item + 1;
        }
    }

    /// Start typing the query.
    pub fn enter_search_mode(&mut self)
        ensures
            final(self).search_mode,
            final(self).query == old(self).query,
            final(self).current_item == old(self).current_item,
            final(self).selected_items == old(self).selected_items,
    {
        self.search_mode = true;
    }

    /// Stop typing the query.
    pub fn exit_search_mode(&mut self)
        ensures
            !final(self).search_mode,
            final(self).query == old(self).query,
            final(self).current_item == old(self).current_item,
            final(self).selected_items == old(self).selected_items,
    {
        self.search_mode = false;
    }

    /// Select the item under the cursor, or unselect it if it was
    /// selected; nothing happens when there is no item under the cursor.
    pub fn toggle_selection(&mut self, item_id: Option<&str>)
        ensures
            match item_id {
                Some(id) => strings_view(final(self).selected_items@) == toggled(
                    strings_view(old(self).selected_items@),
                    id@,
                ),
                None => final(self).selected_items == old(self).selected_items,
            },
            final(self).query == old(self).query,
            final(self).search_mode == old(self).search_mode,
            final(self).current_item == old(self).current_item,
    {
        let id = match item_id {
            Some(id) => id,
            None => return,
        };
        let ghost before = strings_view(self.selected_items@);
        let mut found = false;
        let mut kept: Vec<String> = Vec::new();
        let mut i: usize = 0;
        while i < self.selected_items.len()
            invariant
                i <= self.selected_items@.len(),
                before == strings_view(self.selected_items@),
                strings_view(kept@) == before.take(i as int).filter(other_than(id@)),
                found == before.take(i as int).contains(id@),
            decreases self.selected_items@.len() - i,
        {
            let ghost k = kept@;
            proof {
                reveal(Seq::filter);
            }
            assert(before.take(i + 1).drop_last() =~= before.take(i as int));
            if str_eq(self.selected_items[i].as_str(), id) {
                found = true;
            } else {
                kept.push(self.selected_items[i].clone());
                assert(strings_view(kept@) =~= strings_view(k).push(before[i as int]));
            }
            assert(before.take(i + 1).last() == before[i as int]);
            i += 1;
        }
        assert(before.take(i as int) =~= before);
        if found {
            self.selected_items = kept;
        } else {
            self.selected_items.push(id.to_owned());
            assert(strings_view(self.selected_items@) =~= before.push(id@));
        }
    }

    /// Handle a key. While the query is typed, characters and backspace
    /// edit it (the results follow at once with instant search), Enter
    /// ends typing (searching then without instant search) and Esc ends
    /// it; otherwise `/` starts typing, the arrows move the cursor over
    /// `result_count` results and Enter toggles the item under it.
    pub fn handle_key(
        &mut self,
        key: KeyEvent,
        instant_search: bool,
        result_count: usize,
        current_id: Option<&str>,
    ) -> (r: SearchKeyOutcome)
        ensures
            old(self).search_mode ==> match key.code {
                KeyCode::Char(c) => final(self).query@ == old(self).query@.push(c) && final(self).search_mode
                    && r == (SearchKeyOutcome { handled: true, search: instant_search }),
                KeyCode::Backspace => final(self).query@ == (if old(self).query@.len() > 0 {
                    old(self).query@.drop_last()
                } else {
                    old(self).query@
                }) && final(self).search_mode && r == (SearchKeyOutcome { handled: true, search: instant_search }),
                KeyCode::Enter => final(self).query == old(self).query && !final(self).search_mode && r == (
                SearchKeyOutcome { handled: true, search: !instant_search }),
                KeyCode::Esc => final(self).query == old(self).query && !final(self).search_mode && r == (
                SearchKeyOutcome { handled: true, search: false }),
                _ => final(self).query == old(self).query && final(self).search_mode && r == (SearchKeyOutcome {
                    handled: false,
                    search: false,
                }),
            },
            old(self).search_mode ==> final(self).current_item == old(self).current_item
                && final(self).selected_items == old(self).selected_items,
            !old(self).search_mode ==> final(self).query == old(self).query && !r.search && match key.code {
                KeyCode::Char('/') => final(self).search_mode && r.handled && final(self).current_item
                    == old(self).current_item && final(self).selected_items == old(self).selected_items,
                KeyCode::Up => !final(self).search_mode && r.handled && final(self).current_item == (if old(
                    self,
                ).current_item > 0 {
                    old(self).current_item - 1
                } else {
                    0
                }) && final(self).selected_items == old(self).selected_items,
                KeyCode::Down => !final(self).search_mode && r.handled && final(self).current_item == (if old(
                    self,
                ).current_item + 1 < result_count {
                    old(self).current_item + 1
                } else {
                    old(self).current_item as int
                }) && final(self).selected_items == old(self).selected_items,
                KeyCode::Enter => !final(self).search_mode && r.handled && final(self).current_item == old(
                    self,
                ).current_item && match current_id {
                    Some(id) => strings_view(final(self).selected_items@) == toggled(
                        strings_view(old(self).selected_items@),
                        id@,
                    ),
                    None => final(self).selected_items == old(self).selected_items,
                },
                _ => !final(self).search_mode && !r.handled && final(self).current_item == old(self).current_item
                    && final(self).selected_items == old(self).selected_items,
            },
    {
        if self.search_mode {
            match key.code {
                KeyCode::Char(c) => {
                    push_char(&mut self.query, c);
                    SearchKeyOutcome { handled: true, search: instant_search }
                },
                KeyCode::Backspace => {
                    let _ = pop_char(&mut self.query);
                    SearchKeyOutcome { handled: true, search: instant_search }
                },
                KeyCode::Enter => {
                    self.exit_search_mode();
                    SearchKeyOutcome { handled: true, search: !instant_search }
                },
                KeyCode::Esc => {
                    self.exit_search_mode();
                    SearchKeyOutcome { handled: true, search: false }
                },
                _ => SearchKeyOutcome { handled: false, search: false },
            }
        } else {
            match key.code {
                KeyCode::Char('/') => {
                    self.enter_search_mode();
                    SearchKeyOutcome { handled: true, search: false }
                },
                KeyCode::Up => {
                    self.move_up();
                    SearchKeyOutcome { handled: true, search: false }
                },
                KeyCode::Down => {
                    self.move_down(result_count);
                    SearchKeyOutcome { handled: true, search: false }
                },
                KeyCode::Enter => {
                    self.toggle_selection(current_id);
                    SearchKeyOutcome { handled: true, search: false }
                },
                _ => SearchKeyOutcome { handled: false, search: false },
            }
        }
    }
}

/// Filtering out an identifier that does not occur leaves a selection as
/// it was.
proof fn lemma_filter_absent(s: Seq<Seq<char>>, id: Seq<char>)
    requires
        !s.contains(id),
    ensures
        s.filter(other_than(id)) == s,
    decreases s.len(),
{
    reveal(Seq::filter);
    if s.len() > 0 {
        assert(!s.drop_last().contains(id)) by {
            if s.drop_last().contains(id) {
                let k = choose|k: int| 0 <= k < s.drop_last().len() && s.drop_last()[k] == id;
                assert(s[k] == id);
            }
        }
        lemma_filter_absent(s.drop_last(), id);
        assert(s.last() != id) by {
            assert(s[s.len() - 1] == s.last());
        }
        assert(s.drop_last().push(s.last()) =~= s);
    }
}

/// Selecting an item that was not selected and then toggling it again
/// leaves the selection as it was.
pub proof fn lemma_toggle_twice(selected: Seq<Seq<char>>, id: Seq<char>)
    requires
        !selected.contains(id),
    ensures
        toggled(toggled(selected, id), id) == selected,
{
    let pushed = selected.push(id);
    assert(pushed.contains(id)) by {
        assert(pushed[selected.len() as int] == id);
    }
    reveal(Seq::filter);
    assert(pushed.drop_last() =~= selected);
    lemma_filter_absent(selected, id);
}

} // verus!
