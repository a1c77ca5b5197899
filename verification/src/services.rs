//! The text that the task and AI services build and read: JIRA queries and
//! messages, Monday.com searches, task links and connection results, the
//! choice of Gemini model after a failure, the commit analysis prompt, and
//! the JSON inside an AI reply with the check of its fields. The requests
//! themselves are sent by the front end.

use vstd::prelude::*;
use vstd::string::*;
use crate::text::{copy_text, chars_of, decimal, decimal_text, join_strings, join_with, occurs_at, str_eq, strings_view};
use crate::text_input::{char_is_space, is_blank, is_space, text_is_blank};

verus! {

/// The JQL search for a query: the project, when one is configured, and a
/// text search in summary, description and comments unless the query is
/// blank, joined by `AND`, newest first.
pub open spec fn jql_query(project_key: Option<Seq<char>>, query: Seq<char>) -> Seq<char> {
    let project_part: Seq<Seq<char>> = match project_key {
        Some(k) => seq!["project = "@ + k],
        None => Seq::empty(),
    };
    let text_part: Seq<Seq<char>> = if is_blank(query) {
        Seq::empty()
    } else {
        seq!["(summary ~ \""@ + query + "\" OR description ~ \""@ + query + "\" OR comment ~ \""@ + query + "\")"@]
    };
    let parts = project_part + text_part;
    if parts.len() == 0 {
        "ORDER BY created DESC"@
    } else {
        join_with(parts, " AND "@) + " ORDER BY created DESC"@
    }
}

/// The text clause of a JQL search for a query, as given.
pub open spec fn text_clause(query: Seq<char>) -> Seq<char> {
    "(summary ~ \""@ + query + "\" OR description ~ \""@ + query + "\" OR comment ~ \""@ + query + "\")"@
}

/// A query with a character other than white space is searched for, as
/// given, in summary, description and comments, after the project when one
/// is configured; the search is newest first.
pub proof fn lemma_jql_searches_text(project_key: Option<Seq<char>>, query: Seq<char>, c: int)
    requires
        0 <= c < query.len() && !is_space(query[c]),
    ensures
        jql_query(project_key, query) == match project_key {
            Some(k) => "project = "@ + k + " AND "@ + text_clause(query) + " ORDER BY created DESC"@,
            None => text_clause(query) + " ORDER BY created DESC"@,
        },
{
    assert(!is_blank(query));
    match project_key {
        Some(k) => {
            let parts = seq!["project = "@ + k, text_clause(query)];
            assert(seq!["project = "@ + k] + seq![text_clause(query)] =~= parts);
            assert(parts.drop_last() =~= seq!["project = "@ + k]);
            assert(join_with(parts.drop_last(), " AND "@) == "project = "@ + k);
            assert(join_with(parts, " AND "@) == join_with(parts.drop_last(), " AND "@) + " AND "@ + parts.last());
        },
        None => {},
    }
}

/// A blank query searches no text: the search is the project alone, when
/// one is configured, newest first.
pub proof fn lemma_jql_blank_query(project_key: Option<Seq<char>>, query: Seq<char>)
    requires
        forall|c: int| 0 <= c < query.len() ==> is_space(#[trigger] query[c]),
    ensures
        jql_query(project_key, query) == match project_key {
            Some(k) => "project = "@ + k + " ORDER BY created DESC"@,
            None => "ORDER BY created DESC"@,
        },
{
}

/// The JQL search for a query.
pub fn build_jql_query(project_key: Option<&str>, query: &str) -> (r: String)
    ensures
        r@ == jql_query(
            match project_key {
                Some(k) => Some(k@),
                None => None,
            },
            query@,
        ),
{
    let mut parts: Vec<String> = Vec::new();
    match project_key {
        Some(k) => {
            let mut p = "project = ".to_owned();
            p.append(k);
            parts.push(p);
        },
        None => {},
    }
    let ghost project_part = strings_view(parts@);
    assert(project_part =~= (match project_key {
        Some(k) => seq!["project = "@ + k@],
        None => Seq::<Seq<char>>::empty(),
    }));
    if !text_is_blank(query) {
        let mut t = "(summary ~ \"".to_owned();
        t.append(query);
        t.append("\" OR description ~ \"");
        t.append(query);
        t.append("\" OR comment ~ \"");
        t.append(query);
        t.append("\")");
        parts.push(t);
    }
    assert(strings_view(parts@) =~= project_part + (if is_blank(query@) {
        Seq::<Seq<char>>::empty()
    } else {
        seq!["(summary ~ \""@ + query@ + "\" OR description ~ \""@ + query@ + "\" OR comment ~ \""@ + query@ + "\")"@]
    }));
    let ghost pv = strings_view(parts@);
    if parts.len() == 0 {
        assert(pv.len() == 0);
        "ORDER BY created DESC".to_owned()
    } else {
        assert(pv.len() > 0);
        let mut s = join_strings(&parts, " AND ");
        s.append(" ORDER BY created DESC");
        s
    }
}

/// The JQL search that tests a connection: the configured project's issues,
/// or all issues, newest first.
pub fn connection_test_jql(project_key: Option<&str>) -> (r: String)
    ensures
        r@ == (match project_key {
            Some(k) => "project = "@ + k@ + " ORDER BY created DESC"@,
            None => "ORDER BY created DESC"@,
        }),
{
    match project_key {
        Some(k) => {
            let mut s = "project = ".to_owned();
            s.append(k);
            s.append(" ORDER BY created DESC");
            s
        },
        None => "ORDER BY created DESC".to_owned(),
    }
}

/// The message of a successful JIRA connection test.
pub fn jira_connection_message(issue_count: usize) -> (r: String)
    ensures
        r@ == "✅ JIRA connection successful! Found "@ + decimal(issue_count as nat) + " issues"@,
{
    let mut s = "✅ JIRA connection successful! Found ".to_owned();
    let n = decimal_text(issue_count as u64);
    s.append(n.as_str());
    s.append(" issues");
    s
}

/// The fault of fetching task details: only when every task failed, the
/// failures (`key: error` each) listed after a heading.
pub fn fetch_failure_message(fetched: usize, errors: &Vec<String>) -> (r: Option<String>)
    ensures
        (errors@.len() > 0 && fetched == 0) ==> (r matches Some(m) && m@ == "Failed to fetch any JIRA tasks: "@
            + join_with(strings_view(errors@), ", "@)),
        !(errors@.len() > 0 && fetched == 0) ==> r is None,
{
    if errors.len() > 0 && fetched == 0 {
        let mut s = "Failed to fetch any JIRA tasks: ".to_owned();
        let joined = join_strings(errors, ", ");
        s.append(joined.as_str());
        Some(s)
    } else {
        None
    }
}

/// The text with every occurrence of `from` replaced by `to`, as
/// `str::replace` gives it: occurrences are taken from the left and do not
/// overlap; an empty `from` occurs before each character and at the end.
pub open spec fn replaced(s: Seq<char>, from: Seq<char>, to: Seq<char>) -> Seq<char>
    decreases s.len(),
{
    if from.len() == 0 {
        if s.len() == 0 {
            to
        } else {
            to + seq![s[0]] + replaced(s.skip(1), from, to)
        }
    } else if s.len() < from.len() {
        s
    } else if s.take(from.len() as int) == from {
        to + replaced(s.skip(from.len() as int), from, to)
    } else {
        seq![s[0]] + replaced(s.skip(1), from, to)
    }
}

/// Calls `str::replace`, which replaces every occurrence of `from`, taken
/// from the left without overlap, by `to`.
#[verifier::external_body]
fn replace_all(s: &str, from: &str, to: &str) -> (r: String)
    ensures
        r@ == replaced(s@, from@, to@),
{
    s.replace(from, to)
}

/// The link to a task: the configured template with the board and item
/// filled in, else the account's own address, else the general one.
pub open spec fn task_url(template: Option<Seq<char>>, slug: Option<Seq<char>>, board_id: Seq<char>, item_id: Seq<char>) -> Seq<char> {
    match template {
        Some(t) => replaced(replaced(t, "{board_id}"@, board_id), "{item_id}"@, item_id),
        None => match slug {
            Some(s) => "https://"@ + s + ".monday.com/boards/"@ + board_id + "/pulses/"@ + item_id,
            None => "https://monday.com/boards/"@ + board_id + "/pulses/"@ + item_id,
        },
    }
}

/// The link to a task.
pub fn generate_task_url(url_template: Option<&str>, account_slug: Option<&str>, board_id: &str, item_id: &str) -> (r: String)
    ensures
        r@ == task_url(
            match url_template {
                Some(t) => Some(t@),
                None => None,
            },
            match account_slug {
                Some(s) => Some(s@),
                None => None,
            },
            board_id@,
            item_id@,
        ),
{
    match url_template {
        Some(template) => {
            let with_board = replace_all(template, "{board_id}", board_id);
            replace_all(with_board.as_str(), "{item_id}", item_id)
        },
        None => match account_slug {
            Some(slug) => {
                let mut s = "https://".to_owned();
                s.append(slug);
                s.append(".monday.com/boards/");
                s.append(board_id);
                s.append("/pulses/");
                s.append(item_id);
                s
            },
            None => {
                let mut s = "https://monday.com/boards/".to_owned();
                s.append(board_id);
                s.append("/pulses/");
                s.append(item_id);
                s
            },
        },
    }
}

/// A person on Monday.com.
#[derive(Debug, Clone)]
pub struct MondayUser {
    pub id: String,
    pub name: String,
}

/// An update posted on a Monday.com task.
#[derive(Debug, Clone)]
pub struct MondayUpdate {
    pub id: String,
    pub body: String,
    pub created_at: String,
    pub creator: Option<MondayUser>,
}

/// A column value of a Monday.com task.
#[derive(Debug, Clone)]
pub struct MondayColumnValue {
    pub id: String,
    pub column_type: String,
    pub text: Option<String>,
    pub value: Option<String>,
}

/// A Monday.com task found by a search.
#[derive(Debug, Clone)]
pub struct MondayTask {
    pub id: String,
    pub title: String,
    pub board_id: Option<String>,
    pub board_name: Option<String>,
    pub url: String,
    pub state: String,
    pub updates: Vec<MondayUpdate>,
    pub group_title: Option<String>,
    pub column_values: Vec<MondayColumnValue>,
}

/// An update as the service answered it: each field that was a text, and
/// for a creator object the texts of its identifier and name.
#[derive(Debug, Clone)]
pub struct MondayUpdateFields {
    pub id: Option<String>,
    pub body: Option<String>,
    pub created_at: Option<String>,
    pub creator: Option<(Option<String>, Option<String>)>,
}

/// A column value as the service answered it: each field that was a text.
#[derive(Debug, Clone)]
pub struct MondayColumnFields {
    pub id: Option<String>,
    pub column_type: Option<String>,
    pub text: Option<String>,
    pub value: Option<String>,
}

/// An item of a search answer: each field that was a text, its board's
/// identifier and name, its group's title, and its updates and column
/// values.
#[derive(Debug, Clone)]
pub struct MondayItem {
    pub id: Option<String>,
    pub name: Option<String>,
    pub state: Option<String>,
    pub board_id: Option<String>,
    pub board_name: Option<String>,
    pub group_title: Option<String>,
    pub updates: Vec<MondayUpdateFields>,
    pub column_values: Vec<MondayColumnFields>,
}

/// A text that may be absent, with the empty text in its place.
pub open spec fn or_empty(t: Option<String>) -> Seq<char> {
    match t {
        Some(s) => s@,
        None => Seq::empty(),
    }
}

/// The view of a text that may be absent.
pub open spec fn opt_view(t: Option<String>) -> Option<Seq<char>> {
    match t {
        Some(s) => Some(s@),
        None => None,
    }
}

/// The updates of an answer that are kept: those with an identifier, in
/// order.
pub open spec fn kept_updates(s: Seq<MondayUpdateFields>) -> Seq<MondayUpdateFields>
    decreases s.len(),
{
    if s.len() == 0 {
        Seq::empty()
    } else {
        let rest = kept_updates(s.drop_last());
        if s.last().id is Some { rest.push(s.last()) } else { rest }
    }
}

/// The column values of an answer that are kept: those with an
/// identifier, in order.
pub open spec fn kept_columns(s: Seq<MondayColumnFields>) -> Seq<MondayColumnFields>
    decreases s.len(),
{
    if s.len() == 0 {
        Seq::empty()
    } else {
        let rest = kept_columns(s.drop_last());
        if s.last().id is Some { rest.push(s.last()) } else { rest }
    }
}

/// An update read from the answer's fields: its identifier, its body and
/// time (empty when absent), and its creator's identifier and name (empty
/// when absent) when there is a creator object.
pub open spec fn update_read(u: MondayUpdate, f: MondayUpdateFields) -> bool {
    &&& u.id@ == or_empty(f.id)
    &&& u.body@ == or_empty(f.body)
    &&& u.created_at@ == or_empty(f.created_at)
    &&& match f.creator {
        None => u.creator is None,
        Some((i, n)) => u.creator matches Some(c) && c.id@ == or_empty(i) && c.name@ == or_empty(n),
    }
}

/// A column value read from the answer's fields: its identifier, its type
/// (empty when absent), and its text and value as they were.
pub open spec fn column_read(c: MondayColumnValue, f: MondayColumnFields) -> bool {
    &&& c.id@ == or_empty(f.id)
    &&& c.column_type@ == or_empty(f.column_type)
    &&& opt_view(c.text) == opt_view(f.text)
    &&& opt_view(c.value) == opt_view(f.value)
}

/// The state of an item: its text, or "unknown" when absent.
pub open spec fn item_state(it: MondayItem) -> Seq<char> {
    match it.state {
        Some(s) => s@,
        None => "unknown"@,
    }
}

/// Whether an item makes a task that a search keeps: it has an
/// identifier and a name, and its state is "active".
pub open spec fn is_active_item(it: MondayItem) -> bool {
    it.id is Some && it.name is Some && item_state(it) == "active"@
}

/// The items that a search keeps, in order.
pub open spec fn active_items(s: Seq<MondayItem>) -> Seq<MondayItem>
    decreases s.len(),
{
    if s.len() == 0 {
        Seq::empty()
    } else {
        let rest = active_items(s.drop_last());
        if is_active_item(s.last()) { rest.push(s.last()) } else { rest }
    }
}

/// A task built from an item: its identifier, name, state, board, group
/// and link, and the kept updates and column values, each read from the
/// answer.
pub open spec fn task_read(t: MondayTask, it: MondayItem, template: Option<Seq<char>>, slug: Option<Seq<char>>) -> bool {
    let ups = kept_updates(it.updates@);
    let cols = kept_columns(it.column_values@);
    &&& t.id@ == or_empty(it.id)
    &&& t.title@ == or_empty(it.name)
    &&& t.state@ == item_state(it)
    &&& opt_view(t.board_id) == opt_view(it.board_id)
    &&& opt_view(t.board_name) == opt_view(it.board_name)
    &&& opt_view(t.group_title) == opt_view(it.group_title)
    &&& t.url@ == task_url(template, slug, or_empty(it.board_id), or_empty(it.id))
    &&& t.updates@.len() == ups.len()
    &&& forall|k: int| 0 <= k < ups.len() ==> update_read(#[trigger] t.updates@[k], ups[k])
    &&& t.column_values@.len() == cols.len()
    &&& forall|k: int| 0 <= k < cols.len() ==> column_read(#[trigger] t.column_values@[k], cols[k])
}

/// A text that may be absent, with the empty text in its place.
fn text_or_empty_string(t: &Option<String>) -> (r: String)
    ensures
        r@ == or_empty(*t),
{
    match t {
        Some(s) => s.clone(),
        None => String::new(),
    }
}

/// The updates read from an answer's update fields: those with an
/// identifier, in order.
fn read_updates(fields: &Vec<MondayUpdateFields>) -> (r: Vec<MondayUpdate>)
    ensures
        r@.len() == kept_updates(fields@).len(),
        forall|k: int| 0 <= k < r@.len() ==> update_read(#[trigger] r@[k], kept_updates(fields@)[k]),
{
    let mut r: Vec<MondayUpdate> = Vec::new();
    let mut i: usize = 0;
    while i < fields.len()
        invariant
            i <= fields@.len(),
            r@.len() == kept_updates(fields@.take(i as int)).len(),
            forall|k: int| 0 <= k < r@.len() ==> update_read(#[trigger] r@[k], kept_updates(fields@.take(i as int))[k]),
        decreases fields@.len() - i,
    {
        assert(fields@.take(i + 1).drop_last() =~= fields@.take(i as int));
        let f = &fields[i];
        if f.id.is_some() {
            let creator = match &f.creator {
                Some((cid, cname)) => Some(MondayUser { id: text_or_empty_string(cid), name: text_or_empty_string(cname) }),
                None => None,
            };
            r.push(MondayUpdate {
                id: text_or_empty_string(&f.id),
                body: text_or_empty_string(&f.body),
                created_at: text_or_empty_string(&f.created_at),
                creator,
            });
        }
        i += 1;
    }
    assert(fields@.take(fields@.len() as int) =~= fields@);
    r
}

/// The column values read from an answer's column fields: those with an
/// identifier, in order.
fn read_columns(fields: &Vec<MondayColumnFields>) -> (r: Vec<MondayColumnValue>)
    ensures
        r@.len() == kept_columns(fields@).len(),
        forall|k: int| 0 <= k < r@.len() ==> column_read(#[trigger] r@[k], kept_columns(fields@)[k]),
{
    let mut r: Vec<MondayColumnValue> = Vec::new();
    let mut i: usize = 0;
    while i < fields.len()
        invariant
            i <= fields@.len(),
            r@.len() == kept_columns(fields@.take(i as int)).len(),
            forall|k: int| 0 <= k < r@.len() ==> column_read(#[trigger] r@[k], kept_columns(fields@.take(i as int))[k]),
        decreases fields@.len() - i,
    {
        assert(fields@.take(i + 1).drop_last() =~= fields@.take(i as int));
        let f = &fields[i];
        if f.id.is_some() {
            r.push(MondayColumnValue {
                id: text_or_empty_string(&f.id),
                column_type: text_or_empty_string(&f.column_type),
                text: copy_text(&f.text),
                value: copy_text(&f.value),
            });
        }
        i += 1;
    }
    assert(fields@.take(fields@.len() as int) =~= fields@);
    r
}

/// The tasks of a search answer: the items with an identifier and a name
/// whose state (or "unknown" when absent) is "active", in order, each
/// with its link built from the template or account, its kept updates and
/// its kept column values.
pub fn monday_tasks(url_template: Option<&str>, account_slug: Option<&str>, items: &Vec<MondayItem>) -> (r: Vec<MondayTask>)
    ensures
        ({
            let template = match url_template { Some(t) => Some(t@), None => None };
            let slug = match account_slug { Some(s) => Some(s@), None => None };
            let kept = active_items(items@);
            &&& r@.len() == kept.len()
            &&& forall|k: int| 0 <= k < kept.len() ==> task_read(#[trigger] r@[k], kept[k], template, slug)
        }),
{
    let ghost template = match url_template { Some(t) => Some(t@), None => None };
    let ghost slug = match account_slug { Some(s) => Some(s@), None => None };
    let mut r: Vec<MondayTask> = Vec::new();
    let mut i: usize = 0;
    while i < items.len()
        invariant
            i <= items@.len(),
            template == (match url_template { Some(t) => Some(t@), None => None::<Seq<char>> }),
            slug == (match account_slug { Some(s) => Some(s@), None => None::<Seq<char>> }),
            r@.len() == active_items(items@.take(i as int)).len(),
            forall|k: int| 0 <= k < r@.len() ==> task_read(#[trigger] r@[k], active_items(items@.take(i as int))[k], template, slug),
        decreases items@.len() - i,
    {
        assert(items@.take(i + 1).drop_last() =~= items@.take(i as int));
        let it = &items[i];
        match (&it.id, &it.name) {
            (Some(id), Some(name)) => {
                let state = match &it.state {
                    Some(s) => s.clone(),
                    None => "unknown".to_owned(),
                };
                proof {
                    reveal_strlit("unknown");
                    reveal_strlit("active");
                }
                if str_eq(state.as_str(), "active") {
                    let board = text_or_empty_string(&it.board_id);
                    let url = generate_task_url(url_template, account_slug, board.as_str(), id.as_str());
                    let task = MondayTask {
                        id: id.clone(),
                        title: name.clone(),
                        board_id: copy_text(&it.board_id),
                        board_name: copy_text(&it.board_name),
                        url,
                        state,
                        updates: read_updates(&it.updates),
                        group_title: copy_text(&it.group_title),
                        column_values: read_columns(&it.column_values),
                    };
                    r.push(task);
                }
            },
            _ => {},
        }
        i += 1;
    }
    assert(items@.take(items@.len() as int) =~= items@);
    r
}

/// The summary of a Monday.com connection test: the account's name and
/// e-mail.
pub fn connection_summary(name: &str, email: &str) -> (r: String)
    ensures
        r@ == name@ + " ("@ + email@ + ")"@,
{
    let mut s = name.to_owned();
    s.append(" (");
    s.append(email);
    s.append(")");
    s
}

/// The model tried first for an AI request.
pub fn primary_model() -> (r: &'static str)
    ensures
        r@ == "gemini-2.5-pro-preview-06-05"@,
{
    "gemini-2.5-pro-preview-06-05"
}

/// The model to try after a failure of `model`: the primary model falls
/// back to the flash model, which has no fallback.
pub fn fallback_model(model: &str) -> (r: Option<&'static str>)
    ensures
        model@ == "gemini-2.5-pro-preview-06-05"@ ==> (r matches Some(m) && m@ == "gemini-2.0-flash"@),
        model@ != "gemini-2.5-pro-preview-06-05"@ ==> r is None,
{
    if crate::text::str_eq(model, "gemini-2.5-pro-preview-06-05") {
        Some("gemini-2.0-flash")
    } else {
        None
    }
}

/// A text without its leading white space.
pub open spec fn trim_start(s: Seq<char>) -> Seq<char>
    decreases s.len(),
{
    if s.len() > 0 && is_space(s[0]) {
        trim_start(s.drop_first())
    } else {
        s
    }
}

/// A text without its trailing white space.
pub open spec fn trim_end(s: Seq<char>) -> Seq<char>
    decreases s.len(),
{
    if s.len() > 0 && is_space(s.last()) {
        trim_end(s.drop_last())
    } else {
        s
    }
}

/// A text without white space at either end, as `str::trim` gives it.
pub open spec fn trimmed(s: Seq<char>) -> Seq<char> {
    trim_end(trim_start(s))
}

/// Whether `pat` occurs in `s` at or after `from`.
#[verifier::opaque]
pub open spec fn occurs_from(s: Seq<char>, pat: Seq<char>, from: int) -> bool {
    exists|i: int| from <= i && #[trigger] occurs_at(s, pat, i)
}

/// The first place at or after `from` where `pat` occurs in `s`.
#[verifier::opaque]
pub open spec fn first_from(s: Seq<char>, pat: Seq<char>, from: int) -> int {
    choose|i: int| from <= i && occurs_at(s, pat, i) && forall|j: int| from <= j < i ==> !#[trigger] occurs_at(s, pat, j)
}

/// The first place where `c` occurs in `s`.
pub open spec fn first_at(s: Seq<char>, c: char) -> int {
    choose|i: int| 0 <= i < s.len() && s[i] == c && forall|j: int| 0 <= j < i ==> s[j] != c
}

/// The last place where `c` occurs in `s`.
pub open spec fn last_at(s: Seq<char>, c: char) -> int {
    choose|i: int| 0 <= i < s.len() && s[i] == c && forall|j: int| i < j < s.len() ==> s[j] != c
}

/// The text between the first `open` and the next fence of three
/// backticks, trimmed, when the reply holds both with something after the
/// opening.
#[verifier::opaque]
pub open spec fn fenced(t: Seq<char>, open: Seq<char>) -> Option<Seq<char>> {
    if occurs_from(t, open, 0) {
        let start = first_from(t, open, 0) + open.len();
        if start < t.len() && occurs_from(t, "```"@, start) {
            Some(trimmed(t.subrange(start, first_from(t, "```"@, start))))
        } else {
            None
        }
    } else {
        None
    }
}

/// The JSON inside an AI reply, trimmed: the content of a ```json fence,
/// else of a plain ``` fence, else the text from the first `{` to the last
/// `}`, else the whole reply.
pub open spec fn json_in_reply(r: Seq<char>) -> Seq<char> {
    let t = trimmed(r);
    match fenced(t, "```json"@) {
        Some(j) => j,
        None => match fenced(t, "```"@) {
            Some(j) => j,
            None => if t.contains('{') && t.contains('}') && first_at(t, '{') < last_at(t, '}') {
                trimmed(t.subrange(first_at(t, '{'), last_at(t, '}') + 1))
            } else {
                t
            },
        },
    }
}

/// The bounds of `cs[lo..hi]` without white space at either end.
fn trim_bounds(cs: &Vec<char>, lo: usize, hi: usize) -> (r: (usize, usize))
    requires
        lo <= hi <= cs@.len(),
    ensures
        lo <= r.0 <= r.1 <= hi,
        cs@.subrange(r.0 as int, r.1 as int) == trimmed(cs@.subrange(lo as int, hi as int)),
{
    let mut a = lo;
    while a < hi && char_is_space(cs[a])
        invariant
            lo <= a <= hi <= cs@.len(),
            trim_start(cs@.subrange(lo as int, hi as int)) == trim_start(cs@.subrange(a as int, hi as int)),
        decreases hi - a,
    {
        assert(cs@.subrange(a as int, hi as int).drop_first() =~= cs@.subrange(a + 1, hi as int));
        a += 1;
    }
    assert(trim_start(cs@.subrange(a as int, hi as int)) == cs@.subrange(a as int, hi as int));
    let mut b = hi;
    while b > a && char_is_space(cs[b - 1])
        invariant
            lo <= a <= b <= hi <= cs@.len(),
            trim_end(cs@.subrange(a as int, hi as int)) == trim_end(cs@.subrange(a as int, b as int)),
        decreases b - a,
    {
        assert(cs@.subrange(a as int, b as int).drop_last() =~= cs@.subrange(a as int, b - 1));
        b -= 1;
    }
    assert(trim_end(cs@.subrange(a as int, b as int)) == cs@.subrange(a as int, b as int));
    (a, b)
}

fn occurs_here(cs: &Vec<char>, pat: &Vec<char>, i: usize) -> (r: bool)
    ensures
        r == occurs_at(cs@, pat@, i as int),
{
    let n = cs.len();
    if i > n || n - i < pat.len() {
        return false;
    }
    let mut k: usize = 0;
    while k < pat.len()
        invariant
            n == cs@.len(),
            i + pat@.len() <= n,
            k <= pat@.len(),
            forall|m: int| 0 <= m < k ==> cs@[i + m] == pat@[m],
        decreases pat@.len() - k,
    {
        if cs[i + k] != pat[k] {
            assert(cs@.subrange(i as int, i + pat@.len())[k as int] != pat@[k as int]);
            return false;
        }
        k += 1;
    }
    assert(cs@.subrange(i as int, i + pat@.len()) =~= pat@);
    true
}

/// The first place at or after `from` where `pat` occurs in `cs`.
fn find_from(cs: &Vec<char>, pat: &Vec<char>, from: usize) -> (r: Option<usize>)
    ensures
        match r {
            Some(i) => occurs_from(cs@, pat@, from as int) && i == first_from(cs@, pat@, from as int)
                && occurs_at(cs@, pat@, i as int) && from <= i,
            None => !occurs_from(cs@, pat@, from as int),
        },
{
    let n = cs.len();
    if from > n {
        assert forall|j: int| from <= j implies !#[trigger] occurs_at(cs@, pat@, j) by {}
        proof {
            reveal(occurs_from);
        }
        return None;
    }
    let mut i = from;
    while i < n
        invariant
            from <= i <= n,
            n == cs@.len(),
            forall|j: int| from <= j < i ==> !#[trigger] occurs_at(cs@, pat@, j),
        decreases n - i,
    {
        if occurs_here(cs, pat, i) {
            proof {
                lemma_first_is(cs@, pat@, from as int, i as int);
            }
            return Some(i);
        }
        i += 1;
    }
    if occurs_here(cs, pat, n) {
        proof {
            lemma_first_is(cs@, pat@, from as int, n as int);
        }
        return Some(n);
    }
    assert forall|j: int| from <= j implies !#[trigger] occurs_at(cs@, pat@, j) by {
        if j < n {
        } else if j == n {
        } else {
        }
    }
    proof {
        reveal(occurs_from);
    }
    None
}

proof fn lemma_first_is(s: Seq<char>, pat: Seq<char>, from: int, i: int)
    requires
        from <= i,
        occurs_at(s, pat, i),
        forall|j: int| from <= j < i ==> !#[trigger] occurs_at(s, pat, j),
    ensures
        occurs_from(s, pat, from),
        first_from(s, pat, from) == i,
{
    reveal(occurs_from);
    reveal(first_from);
    assert(occurs_from(s, pat, from));
    let f = first_from(s, pat, from);
    if f < i {
        assert(!occurs_at(s, pat, f));
    } else if f > i {
        assert(!occurs_at(s, pat, i));
    }
}

proof fn lemma_fenced_found(t: Seq<char>, open: Seq<char>, start: int, end: int)
    requires
        occurs_from(t, open, 0),
        start == first_from(t, open, 0),
        start + open.len() < t.len(),
        occurs_from(t, "```"@, start + open.len()),
        end == first_from(t, "```"@, start + open.len()),
    ensures
        fenced(t, open) == Some(trimmed(t.subrange(start + open.len(), end))),
{
    reveal(fenced);
}

proof fn lemma_fenced_no_open(t: Seq<char>, open: Seq<char>)
    requires
        !occurs_from(t, open, 0),
    ensures
        fenced(t, open) is None,
{
    reveal(fenced);
}

proof fn lemma_fenced_absent(t: Seq<char>, open: Seq<char>, start: int)
    requires
        occurs_from(t, open, 0),
        start == first_from(t, open, 0),
        start + open.len() >= t.len() || !occurs_from(t, "```"@, start + open.len()),
    ensures
        fenced(t, open) is None,
{
    reveal(fenced);
}

/// The content of the fence that opens with `open`, as `fenced` has it.
fn fenced_bounds(t: &Vec<char>, open: &Vec<char>, fence: &Vec<char>) -> (r: Option<(usize, usize)>)
    requires
        fence@ == "```"@,
    ensures
        match r {
            Some((a, b)) => a <= b <= t@.len() && fenced(t@, open@) == Some(t@.subrange(a as int, b as int)),
            None => fenced(t@, open@) is None,
        },
{
    let n = t.len();
    proof {
        reveal_strlit("```");
    }
    let start = match find_from(t, open, 0) {
        None => {
            proof {
                lemma_fenced_no_open(t@, open@);
            }
            return None;
        },
        Some(start) => start,
    };
    assert(start + open@.len() <= n);
    let search_start = start + open.len();
    if search_start >= n {
        proof {
            lemma_fenced_absent(t@, open@, start as int);
        }
        return None;
    }
    let end_pos = match find_from(t, fence, search_start) {
        None => {
            proof {
                lemma_fenced_absent(t@, open@, start as int);
            }
            return None;
        },
        Some(e) => e,
    };
    assert(end_pos + 3 <= n);
    proof {
        lemma_fenced_found(t@, open@, start as int, end_pos as int);
    }
    let (a, b) = trim_bounds(t, search_start, end_pos);
    Some((a, b))
}

/// The bounds of the text from the first `{` to the last `}`, trimmed,
/// when the first comes before the last; else of the whole text.
fn brace_bounds(t: &Vec<char>) -> (r: (usize, usize))
    ensures
        r.0 <= r.1 <= t@.len(),
        t@.subrange(r.0 as int, r.1 as int) == (if t@.contains('{') && t@.contains('}') && first_at(t@, '{')
            < last_at(t@, '}') {
            trimmed(t@.subrange(first_at(t@, '{'), last_at(t@, '}') + 1))
        } else {
            t@
        }),
{
    let mut first_open: Option<usize> = None;
    let mut k: usize = 0;
    while k < t.len()
        invariant
            k <= t@.len(),
            match first_open {
                Some(p) => p < k && t@[p as int] == '{' && forall|m: int| 0 <= m < p ==> t@[m] != '{',
                None => forall|m: int| 0 <= m < k ==> t@[m] != '{',
            },
        decreases t@.len() - k,
    {
        if first_open.is_none() && t[k] == '{' {
            first_open = Some(k);
        }
        k += 1;
    }
    let mut last_close: Option<usize> = None;
    let mut k: usize = t.len();
    while k > 0
        invariant
            k <= t@.len(),
            match last_close {
                Some(p) => k <= p < t@.len() && t@[p as int] == '}' && forall|m: int| p < m < t@.len() ==> t@[m]
                    != '}',
                None => forall|m: int| k <= m < t@.len() ==> t@[m] != '}',
            },
        decreases k,
    {
        if last_close.is_none() && t[k - 1] == '}' {
            last_close = Some(k - 1);
        }
        k -= 1;
    }
    assert(t@.subrange(0, t@.len() as int) =~= t@);
    match (first_open, last_close) {
        (Some(s), Some(e)) => {
            proof {
                assert(t@.contains('{'));
                assert(t@.contains('}'));
                let io = first_at(t@, '{');
                assert(io == s) by {
                    if io < s {
                        assert(t@[io] == '{');
                    } else if io > s {
                        assert(t@[s as int] == '{');
                    }
                }
                let ic = last_at(t@, '}');
                assert(ic == e) by {
                    if ic < e {
                        assert(t@[e as int] == '}');
                    } else if ic > e {
                        assert(t@[ic] == '}');
                    }
                }
            }
            if e > s {
                trim_bounds(t, s, e + 1)
            } else {
                (0, t.len())
            }
        },
        _ => {
            proof {
                if t@.contains('{') {
                    let w = choose|m: int| 0 <= m < t@.len() && t@[m] == '{';
                    assert(t@[w] == '{');
                }
                if t@.contains('}') {
                    let w = choose|m: int| 0 <= m < t@.len() && t@[m] == '}';
                    assert(t@[w] == '}');
                }
            }
            (0, t.len())
        },
    }
}

fn string_of(t: &Vec<char>, a: usize, b: usize) -> (r: String)
    requires
        a <= b <= t@.len(),
    ensures
        r@ == t@.subrange(a as int, b as int),
{
    let mut out = String::new();
    let mut k = a;
    while k < b
        invariant
            a <= k <= b <= t@.len(),
            out@ == t@.subrange(a as int, k as int),
        decreases b - k,
    {
        crate::text::push_char(&mut out, t[k]);
        assert(out@ =~= t@.subrange(a as int, k + 1));
        k += 1;
    }
    out
}

fn trimmed_chars(response: &str) -> (r: Vec<char>)
    ensures
        r@ == trimmed(response@),
{
    let all = chars_of(response);
    let (lo, hi) = trim_bounds(&all, 0, all.len());
    assert(all@.subrange(0, all@.len() as int) =~= all@);
    let mut t: Vec<char> = Vec::new();
    let mut i = lo;
    while i < hi
        invariant
            lo <= i <= hi <= all@.len(),
            t@ == all@.subrange(lo as int, i as int),
        decreases hi - i,
    {
        t.push(all[i]);
        assert(t@ =~= all@.subrange(lo as int, i + 1));
        i += 1;
    }
    t
}

/// The JSON inside an AI reply.
pub fn extract_json_from_response(response: &str) -> (r: String)
    ensures
        r@ == json_in_reply(response@),
{
    let t = trimmed_chars(response);
    let json_open: Vec<char> = vec!['`', '`', '`', 'j', 's', 'o', 'n'];
    let fence: Vec<char> = vec!['`', '`', '`'];
    proof {
        reveal_strlit("```json");
        reveal_strlit("```");
        assert(json_open@ =~= "```json"@);
        assert(fence@ =~= "```"@);
    }
    match fenced_bounds(&t, &json_open, &fence) {
        Some((a, b)) => string_of(&t, a, b),
        None => match fenced_bounds(&t, &fence, &fence) {
            Some((a, b)) => string_of(&t, a, b),
            None => {
                let (a, b) = brace_bounds(&t);
                string_of(&t, a, b)
            },
        },
    }
}

/// The opening of the prompt that asks for a commit analysis, up to the
/// changes.
pub const COMMIT_PROMPT_HEAD: &'static str = r#"Eres un desarrollador experto y especialista en semantic release que debe analizar cambios de código de forma EXHAUSTIVA y generar un análisis completo de commit.

CAMBIOS EN EL CÓDIGO:
"#;

/// The rest of the prompt that asks for a commit analysis, after the
/// changes: what to analyse and the JSON object to answer with.
pub const COMMIT_PROMPT_TAIL: &'static str = r#"

INSTRUCCIONES CRÍTICAS:
Analiza MINUCIOSAMENTE los cambios proporcionados y genera un JSON con toda la información del commit. Debes ser EXTREMADAMENTE DETALLADO y PRECISO.

ANÁLISIS REQUERIDO:

1. **TÍTULO** (title):
   - Genera un título CONCISO y DESCRIPTIVO en español (máximo 50 caracteres)
   - Usa presente imperativo (ej: "añade", "corrige", "actualiza")
   - Debe explicar QUÉ se hizo específicamente
   - NO incluyas el tipo de commit (feat:, fix:, etc.)
   - Ejemplos: "añade validación de email", "corrige error de memoria"

2. **TIPO DE COMMIT** (commitType):
   - Determina el tipo según semantic release:
   - "feat": Nueva funcionalidad para el usuario final
   - "fix": Corrección de un bug o error
   - "docs": Solo cambios en documentación
   - "style": Cambios de formato sin afectar lógica
   - "refactor": Reestructuración de código sin cambios funcionales
   - "perf": Mejoras de rendimiento
   - "test": Añadir o modificar tests
   - "chore": Cambios de herramientas, configuración, build
   - "revert": Reversión de cambios anteriores

3. **DESCRIPCIÓN** (description):
   - Genera una descripción TÉCNICA EXHAUSTIVA en español (mínimo 150 palabras)
   - Explica QUÉ cambios específicos se hicieron
   - Explica POR QUÉ estos cambios son importantes
   - Describe el IMPACTO técnico y funcional
   - Menciona archivos, funciones, clases específicas modificadas
   - Incluye detalles de implementación relevantes
   - Usa terminología técnica precisa

4. **ÁMBITO/SCOPE** (scope):
   - Identifica el área del código afectada
   - Puede ser: api, ui, database, auth, config, utils, models, services, etc.
   - Si afecta múltiples áreas, usa todas y ordena por el área más importante
   - Si no hay un ámbito claro, usa "general"

5. **ANÁLISIS DE SEGURIDAD** (securityAnalysis):
   - Busca EXHAUSTIVAMENTE vulnerabilidades como:
     * Inyección SQL, XSS, CSRF
     * Manejo inseguro de datos sensibles (passwords, tokens, keys)
     * Validación insuficiente de entrada
     * Exposición de información confidencial
     * Configuraciones de seguridad débiles
     * Dependencias con vulnerabilidades
     * Privilegios elevados innecesarios
     * Manejo inseguro de archivos/rutas
   - Si NO hay riesgos: devuelve cadena vacía ""
   - Si SÍ hay riesgos: describe específicamente qué riesgos encontraste

6. **CAMBIOS QUE ROMPEN COMPATIBILIDAD** (breakingChanges):
   - Identifica breaking changes como:
     * Eliminación de APIs, funciones, clases públicas
     * Cambios en signatures (parámetros, tipos de retorno)
     * Modificación de contratos de interfaz
     * Cambios en formatos de datos o protocolos
     * Eliminación de configuraciones
     * Cambios en comportamiento esperado de APIs
     * Modificaciones de esquemas de BD
     * Cambios en URLs de endpoints
   - Si NO hay breaking changes: devuelve cadena vacía ""
   - Si SÍ hay breaking changes: describe específicamente qué se rompió

7. **ANÁLISIS DE PRUEBAS** (testAnalysis):
   - Recomienda pruebas manuales específicas que una persona debería realizar para verificar los cambios
   - Incluye casos de prueba concretos y pasos detallados
   - Considera diferentes escenarios: casos normales, casos extremos, casos de error
   - Menciona qué funcionalidades específicas probar basándose en los cambios realizados
   - Incluye verificaciones de integración si es aplicable
   - Sugiere datos de prueba específicos si es necesario
   - Estructura las recomendaciones como una lista clara y accionable
   - Si no hay necesidad de pruebas manuales específicas: devuelve cadena vacía ""
   - RESPONDE EN ESPAÑOL

FORMATO DE RESPUESTA:
Responde ÚNICAMENTE con un JSON válido usando EXACTAMENTE esta estructura:

{
  "title": "título conciso aquí",
  "commitType": "tipo_de_commit",
  "description": "descripción técnica exhaustiva aquí",
  "scope": "ámbito_del_código",
  "securityAnalysis": "análisis de seguridad o cadena vacía",
  "breakingChanges": "cambios que rompen compatibilidad o cadena vacía",
  "testAnalysis": "recomendaciones de pruebas manuales en español o cadena vacía"
}

VALIDACIONES:
- El JSON debe ser VÁLIDO y parseable
- Todos los campos son obligatorios (usa cadena vacía si no aplica)
- El título debe ser ≤ 50 caracteres
- La descripción debe ser ≥ 150 palabras
- commitType debe ser uno de los tipos válidos listados
- testAnalysis debe estar en español y ser específico para los cambios realizados
- NO incluyas explicaciones fuera del JSON
- NO uses comillas triples ni formato markdown
- NO agregues texto antes o después del JSON"#;

/// The prompt that asks for a commit analysis of the changes.
pub fn commit_analysis_prompt(changes: &str) -> (r: String)
    ensures
        r@ == COMMIT_PROMPT_HEAD@ + changes@ + COMMIT_PROMPT_TAIL@,
{
    let mut p = COMMIT_PROMPT_HEAD.to_owned();
    p.append(changes);
    p.append(COMMIT_PROMPT_TAIL);
    p
}

/// The keys of the top-level object of a JSON text: none when the text is
/// not JSON, an empty list when it is JSON but not an object.
pub uninterp spec fn json_keys(text: Seq<char>) -> Option<Seq<Seq<char>>>;

/// Calls `serde_json::from_str` for a `serde_json::Value` and gives the
/// keys of the object it reads: `None` when reading fails, no keys when
/// the value is not an object. The keys are named, not described.
#[verifier::external_body]
fn json_object_keys(text: &str) -> (r: Option<Vec<String>>)
    ensures
        match r {
            None => json_keys(text@) is None,
            Some(keys) => json_keys(text@) == Some(strings_view(keys@)),
        },
{
    match serde_json::from_str::<serde_json::Value>(text) {
        Err(_) => None,
        Ok(serde_json::Value::Object(m)) => Some(m.keys().cloned().collect()),
        Ok(serde_json::Value::Null) => Some(Vec::new()),
        Ok(serde_json::Value::Bool(_)) => Some(Vec::new()),
        Ok(serde_json::Value::Number(_)) => Some(Vec::new()),
        Ok(serde_json::Value::String(_)) => Some(Vec::new()),
        Ok(serde_json::Value::Array(_)) => Some(Vec::new()),
    }
}

/// The fields a commit analysis must have.
pub open spec fn analysis_fields() -> Seq<Seq<char>> {
    seq![
        "title"@,
        "commitType"@,
        "description"@,
        "scope"@,
        "securityAnalysis"@,
        "breakingChanges"@,
        "testAnalysis"@,
    ]
}

/// Whether every field of a commit analysis is among the keys.
pub open spec fn has_analysis_fields(keys: Seq<Seq<char>>) -> bool {
    forall|i: int| 0 <= i < 7 ==> keys.contains(#[trigger] analysis_fields()[i])
}

/// The fields of a commit analysis given in place of one the AI could not
/// provide.
#[derive(Debug, Clone)]
pub struct CommitAnalysisFields {
    pub title: String,
    pub commit_type: String,
    pub description: String,
    pub scope: String,
    pub security_analysis: String,
    pub breaking_changes: String,
    pub test_analysis: String,
}

/// A commit analysis: the JSON text the AI answered with, when it has every
/// field, or the fields given in its place.
#[derive(Debug, Clone)]
pub enum CommitAnalysis {
    Reply(String),
    Fallback(CommitAnalysisFields),
}

/// Whether `f` is the analysis given in place of one the AI could not
/// provide: general chore changes, with a description that says whether
/// the reply was incomplete or could not be read, and no security,
/// breaking-change or test analysis.
pub open spec fn is_fallback(f: CommitAnalysisFields, incomplete: bool) -> bool {
    &&& f.title@ == "cambios realizados en el código"@
    &&& f.commit_type@ == "chore"@
    &&& f.description@ == (if incomplete {
        "Se realizaron cambios en el código del proyecto. Respuesta de Gemini incompleta."@
    } else {
        "Se realizaron cambios en el código del proyecto. No se pudo generar un análisis detallado automáticamente."@
    })
    &&& f.scope@ == "general"@
    &&& f.security_analysis@.len() == 0
    &&& f.breaking_changes@.len() == 0
    &&& f.test_analysis@.len() == 0
}

/// The analysis given in place of one the AI could not provide: general
/// chore changes, with a description that says whether the reply was
/// incomplete or could not be read.
pub fn fallback_analysis(incomplete: bool) -> (r: CommitAnalysisFields)
    ensures
        is_fallback(r, incomplete),
{
    let description = if incomplete {
        "Se realizaron cambios en el código del proyecto. Respuesta de Gemini incompleta.".to_owned()
    } else {
        "Se realizaron cambios en el código del proyecto. No se pudo generar un análisis detallado automáticamente.".to_owned()
    };
    CommitAnalysisFields {
        title: "cambios realizados en el código".to_owned(),
        commit_type: "chore".to_owned(),
        description,
        scope: "general".to_owned(),
        security_analysis: String::new(),
        breaking_changes: String::new(),
        test_analysis: String::new(),
    }
}

/// Whether a key is among the keys.
fn has_key(keys: &Vec<String>, key: &str) -> (r: bool)
    ensures
        r == strings_view(keys@).contains(key@),
{
    let mut i: usize = 0;
    while i < keys.len()
        invariant
            i <= keys@.len(),
            forall|j: int| 0 <= j < i ==> keys@[j]@ != key@,
        decreases keys@.len() - i,
    {
        if str_eq(keys[i].as_str(), key) {
            assert(strings_view(keys@)[i as int] == key@);
            return true;
        }
        i += 1;
    }
    assert forall|j: int| 0 <= j < strings_view(keys@).len() implies strings_view(keys@)[j] != key@ by {
        assert(keys@[j]@ != key@);
    }
    false
}

/// The analysis for a reply's JSON text and the keys read from it: the
/// text itself when it has every field; else a fallback, marked incomplete
/// when the text was JSON.
pub fn analysis_from_keys(text: String, keys: Option<Vec<String>>) -> (r: CommitAnalysis)
    ensures
        match keys {
            None => r matches CommitAnalysis::Fallback(f) && is_fallback(f, false),
            Some(k) => if has_analysis_fields(strings_view(k@)) {
                r == CommitAnalysis::Reply(text)
            } else {
                r matches CommitAnalysis::Fallback(f) && is_fallback(f, true)
            },
        },
{
    match keys {
        None => CommitAnalysis::Fallback(fallback_analysis(false)),
        Some(k) => {
            let complete = has_key(&k, "title") && has_key(&k, "commitType") && has_key(&k, "description")
                && has_key(&k, "scope") && has_key(&k, "securityAnalysis") && has_key(&k, "breakingChanges")
                && has_key(&k, "testAnalysis");
            proof {
                if complete {
                    assert forall|i: int| 0 <= i < 7 implies strings_view(k@).contains(
                        #[trigger] analysis_fields()[i],
                    ) by {
                        assert(analysis_fields()[0] == "title"@);
                        assert(analysis_fields()[1] == "commitType"@);
                        assert(analysis_fields()[2] == "description"@);
                        assert(analysis_fields()[3] == "scope"@);
                        assert(analysis_fields()[4] == "securityAnalysis"@);
                        assert(analysis_fields()[5] == "breakingChanges"@);
                        assert(analysis_fields()[6] == "testAnalysis"@);
                    }
                } else {
                    assert(analysis_fields()[0] == "title"@);
                    assert(analysis_fields()[1] == "commitType"@);
                    assert(analysis_fields()[2] == "description"@);
                    assert(analysis_fields()[3] == "scope"@);
                    assert(analysis_fields()[4] == "securityAnalysis"@);
                    assert(analysis_fields()[5] == "breakingChanges"@);
                    assert(analysis_fields()[6] == "testAnalysis"@);
                }
            }
            if complete {
                CommitAnalysis::Reply(text)
            } else {
                CommitAnalysis::Fallback(fallback_analysis(true))
            }
        },
    }
}

/// The commit analysis in an AI reply: its JSON text is taken out of the
/// reply and read; the text is the analysis when its object has every
/// field, else a fallback is given.
pub fn analyze_reply(response: &str) -> (r: CommitAnalysis)
    ensures
        ({
            let text = json_in_reply(response@);
            match json_keys(text) {
                None => r matches CommitAnalysis::Fallback(f) && is_fallback(f, false),
                Some(k) => if has_analysis_fields(k) {
                    r matches CommitAnalysis::Reply(t) && t@ == text
                } else {
                    r matches CommitAnalysis::Fallback(f) && is_fallback(f, true)
                },
            }
        }),
{
    let cleaned = extract_json_from_response(response);
    let keys = json_object_keys(cleaned.as_str());
    analysis_from_keys(cleaned, keys)
}

/// The GraphQL query that searches the items of one board.
pub const BOARD_SEARCH_QUERY: &'static str = r#"
                    query ($boardId: [ID!], $limit: Int!, $queryParams: ItemsQuery) {
                        boards(ids: $boardId) {
                            name
                            items_page(limit: $limit, query_params: $queryParams) {
                                items {
                                    id
                                    name
                                    state
                                    board { id }
                                    updates(limit: 5) {
                                        id
                                        body
                                        created_at
                                        creator {
                                            id
                                            name
                                        }
                                    }
                                }
                            }
                        }
                    }
                "#;

/// The GraphQL query that searches items across boards.
pub const GLOBAL_SEARCH_QUERY: &'static str = r#"
                    query ($limit: Int!, $queryParams: ItemsQuery) {
                        items_page(limit: $limit, query_params: $queryParams) {
                            items {
                                id
                                name
                                state
                                board { id name }
                                updates(limit: 5) {
                                    id
                                    body
                                    created_at
                                    creator {
                                        id
                                        name
                                    }
                                }
                            }
                        }
                    }
                "#;

/// A Monday.com item search: the GraphQL query and its variables, the
/// boards to search (all when none are named), how many items to fetch,
/// the text the item names must contain, and how the rules combine.
#[derive(Debug, Clone)]
pub struct MondaySearchRequest {
    pub query: String,
    pub board_ids: Option<Vec<String>>,
    pub limit: u32,
    pub compare_value: String,
    pub rules_operator: String,
}

/// The item search for a query: in the configured board, 20 items with
/// the rules all holding; without a board, 50 items across boards with
/// any rule holding.
pub fn monday_search_request(board_id: Option<&str>, query: &str) -> (r: MondaySearchRequest)
    ensures
        r.compare_value@ == query@,
        match board_id {
            Some(b) => {
                &&& r.query@ == BOARD_SEARCH_QUERY@
                &&& r.board_ids matches Some(ids) && ids@.len() == 1 && ids@[0]@ == b@
                &&& r.limit == 20
                &&& r.rules_operator@ == "and"@
            },
            None => {
                &&& r.query@ == GLOBAL_SEARCH_QUERY@
                &&& r.board_ids is None
                &&& r.limit == 50
                &&& r.rules_operator@ == "or"@
            },
        },
{
    match board_id {
        Some(b) => MondaySearchRequest {
            query: BOARD_SEARCH_QUERY.to_owned(),
            board_ids: Some(vec![b.to_owned()]),
            limit: 20,
            compare_value: query.to_owned(),
            rules_operator: "and".to_owned(),
        },
        None => MondaySearchRequest {
            query: GLOBAL_SEARCH_QUERY.to_owned(),
            board_ids: None,
            limit: 50,
            compare_value: query.to_owned(),
            rules_operator: "or".to_owned(),
        },
    }
}

/// The outcome of a Monday.com connection test from the user the service
/// answered with, if any, and that user's name and e-mail as far as they
/// were given: the name and e-mail, each `Unknown` when missing, or the
/// failure to get the user.
pub fn monday_connection_result(me: Option<(Option<String>, Option<String>)>) -> (r: Result<String, String>)
    ensures
        match me {
            None => r matches Err(m) && m@ == "Failed to get user information from Monday.com API"@,
            Some((name, email)) => r matches Ok(s) && s@ == (match name {
                Some(n) => n@,
                None => "Unknown"@,
            }) + " ("@ + (match email {
                Some(e) => e@,
                None => "Unknown"@,
            }) + ")"@,
        },
{
    match me {
        None => Err("Failed to get user information from Monday.com API".to_owned()),
        Some((name, email)) => {
            let n = match name {
                Some(n) => n,
                None => "Unknown".to_owned(),
            };
            let e = match email {
                Some(e) => e,
                None => "Unknown".to_owned(),
            };
            Ok(connection_summary(n.as_str(), e.as_str()))
        },
    }
}

/// The prompt that checks that the AI service answers.
pub fn connection_test_prompt() -> (r: &'static str)
    ensures
        r@ == "Responde con 'Conexión exitosa con Google Gemini' si puedes leer este mensaje."@,
{
    "Responde con 'Conexión exitosa con Google Gemini' si puedes leer este mensaje."
}

} // verus!
