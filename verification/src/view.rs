//! What the screen shows for a state of the application: the help line,
//! the rows of the two lists, the titles and the confirmation question.
use vstd::prelude::*;
use vstd::utf8::encode_utf8;
use vstd::string::StringSliceAdditionalSpecFns;
use crate::app::{App, AppState};
use crate::github::{GithubList, Repo};
use crate::text::or_empty;

verus! {

/// A piece of text, bold or not.
pub struct Span {
    pub text: String,
    pub bold: bool,
}

/// Whether `s` is the text `t` with the given weight.
pub open spec fn span_is(s: Span, t: Seq<char>, bold: bool) -> bool {
    s.text@ == t && s.bold == bold
}

/// The help line at the bottom of the screen for `state`.
pub open spec fn footer_is(state: AppState, spans: Seq<Span>) -> bool {
    match state {
        AppState::Loading => spans.len() == 1 && span_is(spans[0], "Loading..."@, false),
        AppState::RepoList => {
            &&& spans.len() == 4
            &&& span_is(spans[0], "↑/↓: Navigate • "@, false)
            &&& span_is(spans[1], "Enter: Select • "@, false)
            &&& span_is(spans[2], "s: AI Suggestion"@, true)
            &&& span_is(spans[3], " • q: Quit"@, false)
        },
        AppState::ListSelect => spans.len() == 1 && span_is(
            spans[0],
            "↑/↓: Navigate • Enter: Confirm • Esc: Back"@,
            false,
        ),
        AppState::Confirmation => spans.len() == 1 && span_is(
            spans[0],
            "y: Confirm • n: Cancel"@,
            false,
        ),
        AppState::Error(_) => spans.len() == 1 && span_is(spans[0], "Press Enter to continue"@, false),
    }
}

fn span(text: &str, bold: bool) -> (r: Span)
    ensures
        span_is(r, text@, bold),
{
    Span { text: String::from_str(text), bold }
}

/// The help line at the bottom of the screen for `state`.
pub fn footer_spans(state: &AppState) -> (r: Vec<Span>)
    ensures
        footer_is(*state, r@),
{
    let mut spans: Vec<Span> = Vec::new();
    match state {
        AppState::Loading => spans.push(span("Loading...", false)),
        AppState::RepoList => {
            spans.push(span("↑/↓: Navigate • ", false));
            spans.push(span("Enter: Select • ", false));
            spans.push(span("s: AI Suggestion", true));
            spans.push(span(" • q: Quit", false));
        },
        AppState::ListSelect => spans.push(span("↑/↓: Navigate • Enter: Confirm • Esc: Back", false)),
        AppState::Confirmation => spans.push(span("y: Confirm • n: Cancel", false)),
        AppState::Error(_) => spans.push(span("Press Enter to continue", false)),
    }
    spans
}

/// The UTF-8 encoding of `...`.
pub open spec fn ellipsis_bytes() -> Seq<u8> {
    seq![46u8, 46u8, 46u8]
}

/// Whether a description can be shortened: a description of more than 60
/// bytes is cut after its 57th byte, which must end a character.
pub open spec fn truncatable(desc: Seq<char>) -> bool {
    encode_utf8(desc).len() > 60 ==> vstd::utf8::is_char_boundary(encode_utf8(desc), 57)
}

/// Whether `r` is `desc` as a row shows it: unchanged up to 60 bytes,
/// else its first 57 bytes and `...`.
pub open spec fn truncated(desc: Seq<char>, r: Seq<char>) -> bool {
    if encode_utf8(desc).len() > 60 {
        encode_utf8(r) == encode_utf8(desc).subrange(0, 57) + ellipsis_bytes()
    } else {
        r == desc
    }
}

proof fn lemma_encode_concat(a: Seq<char>, b: Seq<char>)
    ensures
        encode_utf8(a + b) == encode_utf8(a) + encode_utf8(b),
    decreases a.len(),
{
    if a.len() == 0 {
        assert(a + b =~= b);
        assert(encode_utf8(a) =~= Seq::<u8>::empty());
        assert(encode_utf8(a) + encode_utf8(b) =~= encode_utf8(b));
    } else {
        assert((a + b).drop_first() =~= a.drop_first() + b);
        assert((a + b)[0] == a[0]);
        lemma_encode_concat(a.drop_first(), b);
        assert(encode_utf8(a + b) =~= encode_utf8(a) + encode_utf8(b));
    }
}

proof fn lemma_ellipsis()
    ensures
        encode_utf8("..."@) == ellipsis_bytes(),
{
    reveal_strlit("...");
    let e = "..."@;
    assert((46u32 & 0x7F) as u8 == 46u8) by (bit_vector);
    assert(vstd::utf8::encode_scalar('.' as u32) =~= seq![46u8]);
    let e1 = e.drop_first();
    let e2 = e1.drop_first();
    let e3 = e2.drop_first();
    assert(e3 =~= Seq::<char>::empty());
    assert(encode_utf8(e3) =~= Seq::<u8>::empty());
    assert(encode_utf8(e2) =~= seq![46u8]);
    assert(encode_utf8(e1) =~= seq![46u8, 46u8]);
    assert(encode_utf8(e) =~= ellipsis_bytes());
}

/// A description as a row shows it: more than 60 bytes are cut to their
/// first 57 and `...`.
pub fn truncate_description(desc: &str) -> (r: String)
    requires
        truncatable(desc@),
    ensures
        truncated(desc@, r@),
        encode_utf8(r@).len() <= 60 || r@ == desc@,
{
    if desc.as_bytes().len() > 60 {
        let (head, _tail) = desc.split_at(57);
        let mut out = String::from_str(head);
        out.append("...");
        proof {
            lemma_encode_concat(head@, "..."@);
            lemma_ellipsis();
            assert(encode_utf8(head@) == head.spec_bytes());
            assert(head.spec_bytes() =~= encode_utf8(desc@).subrange(0, 57));
            assert(out@ == head@ + "..."@);
            assert(encode_utf8(out@) == encode_utf8(desc@).subrange(0, 57) + ellipsis_bytes());
        }
        out
    } else {
        String::from_str(desc)
    }
}

/// One row of the repository list.
pub struct RepoRow {
    pub name: String,
    /// The description as shown: shortened, or `No description`.
    pub description: String,
    pub selected: bool,
}

/// The description a row shows for `repo`, before shortening.
pub open spec fn shown_description(repo: Repo) -> Seq<char> {
    match repo.description {
        Some(d) => d@,
        None => "No description"@,
    }
}

/// Whether every repository's description can be shown.
pub open spec fn descriptions_truncatable(repos: Seq<Repo>) -> bool {
    forall|i: int| 0 <= i < repos.len() ==> truncatable(#[trigger] shown_description(repos[i]))
}

/// The rows of the repository list: the selected repository is marked.
pub fn repo_rows(app: &App) -> (r: Vec<RepoRow>)
    requires
        descriptions_truncatable(app.starred_repos@),
    ensures
        r@.len() == app.starred_repos@.len(),
        forall|i: int|
            0 <= i < r@.len() ==> {
                &&& (#[trigger] r@[i]).name@ == app.starred_repos@[i].name@
                &&& truncated(shown_description(app.starred_repos@[i]), r@[i].description@)
                &&& r@[i].selected == (i == app.selected_repo_idx)
            },
{
    let mut rows: Vec<RepoRow> = Vec::new();
    let mut i: usize = 0;
    while i < app.starred_repos.len()
        invariant
            i <= app.starred_repos@.len(),
            rows@.len() == i,
            descriptions_truncatable(app.starred_repos@),
            forall|k: int|
                0 <= k < i ==> {
                    &&& (#[trigger] rows@[k]).name@ == app.starred_repos@[k].name@
                    &&& truncated(shown_description(app.starred_repos@[k]), rows@[k].description@)
                    &&& rows@[k].selected == (k == app.selected_repo_idx)
                },
        decreases app.starred_repos@.len() - i,
    {
        let repo = &app.starred_repos[i];
        let description = match &repo.description {
            Some(d) => d.clone(),
            None => String::from_str("No description"),
        };
        assert(description@ == shown_description(app.starred_repos@[i as int]));
        assert(truncatable(shown_description(app.starred_repos@[i as int])));
        let shown = truncate_description(description.as_str());
        rows.push(RepoRow { name: repo.name.clone(), description: shown, selected: i == app.selected_repo_idx });
        i = i + 1;
    }
    rows
}

/// One row of the list selector.
pub struct ListRow {
    pub name: String,
    pub description: Option<String>,
    pub selected: bool,
    /// Whether this is the list the AI suggested.
    pub suggested: bool,
}

/// Whether `s` holds the text `t`.
pub open spec fn names(s: Option<String>, t: Seq<char>) -> bool {
    s matches Some(v) && v@ == t
}

/// The rows of the list selector: the selected list and the suggested list are marked.
pub fn list_rows(app: &App) -> (r: Vec<ListRow>)
    ensures
        r@.len() == app.user_lists@.len(),
        forall|i: int|
            0 <= i < r@.len() ==> {
                &&& (#[trigger] r@[i]).name@ == app.user_lists@[i].name@
                &&& r@[i].description == app.user_lists@[i].description
                &&& r@[i].selected == (i == app.selected_list_idx)
                &&& r@[i].suggested == names(app.suggested_list, app.user_lists@[i].name@)
            },
{
    let mut rows: Vec<ListRow> = Vec::new();
    let mut i: usize = 0;
    while i < app.user_lists.len()
        invariant
            i <= app.user_lists@.len(),
            rows@.len() == i,
            forall|k: int|
                0 <= k < i ==> {
                    &&& (#[trigger] rows@[k]).name@ == app.user_lists@[k].name@
                    &&& rows@[k].description == app.user_lists@[k].description
                    &&& rows@[k].selected == (k == app.selected_list_idx)
                    &&& rows@[k].suggested == names(app.suggested_list, app.user_lists@[k].name@)
                },
        decreases app.user_lists@.len() - i,
    {
        let list = &app.user_lists[i];
        let suggested = match &app.suggested_list {
            Some(s) => *s == list.name,
            None => false,
        };
        let description = match &list.description {
            Some(d) => Some(d.clone()),
            None => None,
        };
        rows.push(
            ListRow {
                name: list.name.clone(),
                description,
                selected: i == app.selected_list_idx,
                suggested,
            },
        );
        i = i + 1;
    }
    rows
}

/// The title of the list selector, which explains the mark when there is a suggestion.
pub fn list_title(app: &App) -> (r: String)
    ensures
        app.suggested_list is Some ==> r@ == "Select List (Green = AI Suggested)"@,
        app.suggested_list is None ==> r@ == "Select List"@,
{
    if app.suggested_list.is_some() {
        String::from_str("Select List (Green = AI Suggested)")
    } else {
        String::from_str("Select List")
    }
}

/// The question that asks to confirm filing `repo` under `list`.
pub open spec fn confirm_question(repo: Repo, list: GithubList) -> Seq<char> {
    "Add repository '"@ + repo.name@ + "' to list '"@ + list.name@ + "'?"@
}

/// The confirmation question for the selected repository and list; none
/// when either selection is out of range.
pub fn confirm_text(app: &App) -> (r: Option<String>)
    ensures
        app.selected_repo_idx < app.starred_repos@.len() && app.selected_list_idx
            < app.user_lists@.len() <==> r is Some,
        r matches Some(t) ==> t@ == confirm_question(
            app.starred_repos@[app.selected_repo_idx as int],
            app.user_lists@[app.selected_list_idx as int],
        ),
{
    if app.selected_repo_idx < app.starred_repos.len() && app.selected_list_idx
        < app.user_lists.len() {
        let mut t = String::from_str("Add repository '");
        t.append(app.starred_repos[app.selected_repo_idx].name.as_str());
        t.append("' to list '");
        t.append(app.user_lists[app.selected_list_idx].name.as_str());
        t.append("'?");
        Some(t)
    } else {
        None
    }
}

/// The share of a side left on each side of a centred area that takes
/// `percent` of it.
pub fn centered_margin(percent: u16) -> (r: u16)
    requires
        percent <= 100,
    ensures
        r == (100 - percent) / 2,
{
    (100 - percent) / 2
}

/// The colour of a text panel.
#[derive(Debug)]
pub enum Tone {
    Plain,
    Red,
}

/// What the main area of the screen shows.
#[derive(Debug)]
pub enum Panel {
    /// A titled box of text.
    Text { title: String, text: String, tone: Tone },
    /// The repository list (`repo_rows`).
    Repos,
    /// The list selector (`list_rows`).
    Lists,
    /// Nothing.
    Blank,
}

/// Whether `p` is the titled text `title`/`text` in `tone`.
pub open spec fn text_panel(p: Panel, title: Seq<char>, text: Seq<char>, red: bool) -> bool {
    p matches Panel::Text { title: t, text: x, tone } && t@ == title && x@ == text && (tone is Red)
        == red
}

/// Whether `p` is what the main area shows for `app`.
pub open spec fn panel_for(app: App, p: Panel) -> bool {
    match app.state {
        AppState::Loading => text_panel(p, "Loading"@, "Loading data..."@, false),
        AppState::RepoList => p is Repos,
        AppState::ListSelect => p is Lists,
        AppState::Confirmation => if app.selected_repo_idx < app.starred_repos@.len()
            && app.selected_list_idx < app.user_lists@.len() {
            text_panel(
                p,
                "Confirm"@,
                confirm_question(
                    app.starred_repos@[app.selected_repo_idx as int],
                    app.user_lists@[app.selected_list_idx as int],
                ),
                false,
            )
        } else {
            p is Blank
        },
        AppState::Error(m) => text_panel(p, "Error"@, m@, true),
    }
}

/// What the main area of the screen shows for `app`.
pub fn main_panel(app: &App) -> (r: Panel)
    ensures
        panel_for(*app, r),
{
    match &app.state {
        AppState::Loading => Panel::Text {
            title: String::from_str("Loading"),
            text: String::from_str("Loading data..."),
            tone: Tone::Plain,
        },
        AppState::RepoList => Panel::Repos,
        AppState::ListSelect => Panel::Lists,
        AppState::Confirmation => match confirm_text(app) {
            Some(t) => Panel::Text { title: String::from_str("Confirm"), text: t, tone: Tone::Plain },
            None => Panel::Blank,
        },
        AppState::Error(m) => Panel::Text {
            title: String::from_str("Error"),
            text: m.clone(),
            tone: Tone::Red,
        },
    }
}

/// The text of the message box drawn over the screen: the pending message, if any.
pub fn message_box(app: &App) -> (r: Option<String>)
    ensures
        r matches Some(t) ==> app.message matches Some(m) && t@ == m@,
        r is None ==> app.message is None,
{
    match &app.message {
        Some(m) => Some(m.clone()),
        None => None,
    }
}

/// A description over 60 bytes is shown as exactly 60 bytes: its own first
/// 57 bytes followed by three dots; a shorter one is shown whole.
pub proof fn lemma_truncation_keeps_sixty_bytes(desc: Seq<char>, r: Seq<char>)
    requires
        truncated(desc, r),
    ensures
        encode_utf8(desc).len() > 60 ==> {
            &&& encode_utf8(r).len() == 60
            &&& encode_utf8(r).subrange(0, 57) == encode_utf8(desc).subrange(0, 57)
            &&& encode_utf8(r)[57] == 46u8 && encode_utf8(r)[58] == 46u8 && encode_utf8(r)[59] == 46u8
        },
        encode_utf8(desc).len() <= 60 ==> r == desc,
{
    if encode_utf8(desc).len() > 60 {
        assert(encode_utf8(r).subrange(0, 57) =~= encode_utf8(desc).subrange(0, 57));
    }
}

} // verus!
