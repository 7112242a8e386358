//! The application's state and every change the user can make to it.
use std::sync::Arc;
use vstd::prelude::*;
use crate::ai::{
    AiError, AiRequest, AiSuggester, chat_url, has_list_named, prompt_text, request_body, suggestion,
};
use crate::config::Config;
use crate::github::{GitHubClient, GithubError, GithubList, Repo, adding_text, standard_lists};
use crate::json::Json;
use crate::text::{or_empty, text_eq, trim_seq};

verus! {

/// The screen the application shows.
#[derive(Debug)]
pub enum AppState {
    Loading,
    RepoList,
    ListSelect,
    Confirmation,
    Error(String),
}

/// A failure of the application.
#[derive(Debug)]
pub enum AppError {
    /// The starred repositories could not be loaded.
    LoadStarredRepos(GithubError),
    /// The user's lists could not be loaded.
    LoadUserLists(GithubError),
}

impl AppError {
    /// The message shown for this error.
    pub fn message(&self) -> (r: String)
        ensures
            r@ == match self {
                AppError::LoadStarredRepos(_) => "Failed to load starred repositories"@,
                AppError::LoadUserLists(_) => "Failed to load user lists"@,
            },
    {
        match self {
            AppError::LoadStarredRepos(_) => String::from_str("Failed to load starred repositories"),
            AppError::LoadUserLists(_) => String::from_str("Failed to load user lists"),
        }
    }
}

/// A key of a key press.
#[derive(Debug)]
pub enum KeyCode {
    Char(char),
    Enter,
    Esc,
    Up,
    Down,
    /// Any other key.
    Other,
}

/// A key press.
#[derive(Debug)]
pub struct Key {
    pub code: KeyCode,
    /// Whether Control was held.
    pub ctrl: bool,
}

/// Outside work that a key press asks for.
#[derive(Debug)]
pub enum KeyAction {
    /// Send this suggestion request and hand its reply to `App::apply_ai_suggestion`.
    SendSuggestion(AiRequest),
    /// Record this line in the log.
    LogInfo(String),
}

/// The whole state of the application.
pub struct App {
    pub state: AppState,
    pub config: Config,
    pub github_client: Arc<GitHubClient>,
    pub ai_suggester: Option<AiSuggester>,
    pub starred_repos: Vec<Repo>,
    pub user_lists: Vec<GithubList>,
    pub selected_repo_idx: usize,
    pub selected_list_idx: usize,
    pub suggested_list: Option<String>,
    pub scroll_offset: usize,
    pub message: Option<String>,
    pub should_quit: bool,
}

/// Whether `o` holds the text `t`.
pub open spec fn holds_text(o: Option<String>, t: Seq<char>) -> bool {
    o matches Some(s) && s@ == t
}

/// Whether `s` is the error screen showing `t`.
pub open spec fn shows_error(s: AppState, t: Seq<char>) -> bool {
    s matches AppState::Error(m) && m@ == t
}

/// The message of an AI error.
pub open spec fn ai_error_text(e: AiError) -> Seq<char> {
    match e {
        AiError::Send => "Failed to send request to OpenAI API"@,
        AiError::Parse => "Failed to parse OpenAI API response"@,
    }
}

/// `a` after moving the repository selection down, wrapping to the top.
pub open spec fn next_repo_of(a: App) -> App {
    if a.starred_repos@.len() > 0 {
        App {
            selected_repo_idx: ((a.selected_repo_idx + 1) % (a.starred_repos@.len() as int)) as usize,
            suggested_list: None,
            ..a
        }
    } else {
        a
    }
}

/// `a` after moving the repository selection up, wrapping to the bottom.
pub open spec fn prev_repo_of(a: App) -> App {
    if a.starred_repos@.len() > 0 {
        App {
            selected_repo_idx: if a.selected_repo_idx > 0 {
                (a.selected_repo_idx - 1) as usize
            } else {
                (a.starred_repos@.len() - 1) as usize
            },
            suggested_list: None,
            ..a
        }
    } else {
        a
    }
}

/// `a` after moving the list selection down, wrapping to the top.
pub open spec fn next_list_of(a: App) -> App {
    if a.user_lists@.len() > 0 {
        App {
            selected_list_idx: ((a.selected_list_idx + 1) % (a.user_lists@.len() as int)) as usize,
            ..a
        }
    } else {
        a
    }
}

/// `a` after moving the list selection up, wrapping to the bottom.
pub open spec fn prev_list_of(a: App) -> App {
    if a.user_lists@.len() > 0 {
        App {
            selected_list_idx: if a.selected_list_idx > 0 {
                (a.selected_list_idx - 1) as usize
            } else {
                (a.user_lists@.len() - 1) as usize
            },
            ..a
        }
    } else {
        a
    }
}

/// `a` showing the screen `s`.
pub open spec fn with_state(a: App, s: AppState) -> App {
    App { state: s, ..a }
}

/// Whether `b` is `a` with only its message changed, to `t`.
pub open spec fn with_message(a: App, b: App, t: Seq<char>) -> bool {
    &&& b == App { message: b.message, ..a }
    &&& holds_text(b.message, t)
}

/// Whether `req` asks the chat API, with the key `key`, which of `lists` suits `repo`.
pub open spec fn asks_about(req: AiRequest, key: Seq<char>, repo: Repo, lists: Seq<GithubList>) -> bool {
    &&& req.prompt@ == prompt_text(repo, lists)
    &&& req.url@ == chat_url()
    &&& req.authorization@ == "Bearer "@ + key
    &&& req.body@ == request_body(prompt_text(repo, lists))
}

/// Whether asking for a suggestion in state `a` sends a request.
pub open spec fn suggestion_sent(a: App) -> bool {
    &&& a.ai_suggester is Some
    &&& a.selected_repo_idx < a.starred_repos@.len()
    &&& a.user_lists@.len() > 0
}

/// Whether asking for a suggestion takes `a` to `b` and sends `r`.
pub open spec fn suggestion_started(a: App, b: App, r: Option<AiRequest>) -> bool {
    match a.ai_suggester {
        None => with_message(a, b, "OpenAI API key not configured."@) && r is None,
        Some(ai) => if a.selected_repo_idx >= a.starred_repos@.len() {
            b == a && r is None
        } else if a.user_lists@.len() == 0 {
            b == App { suggested_list: None, message: None, ..a } && r is None
        } else {
            &&& with_message(a, b, "Generating AI suggestion..."@)
            &&& r matches Some(req) && asks_about(
                req,
                ai@,
                a.starred_repos@[a.selected_repo_idx as int],
                a.user_lists@,
            )
        },
    }
}

/// Whether `i` is the first position of a list named `name`.
pub open spec fn first_list_named(lists: Seq<GithubList>, name: Seq<char>, i: int) -> bool {
    &&& 0 <= i < lists.len()
    &&& lists[i].name@ == name
    &&& forall|k: int| 0 <= k < i ==> #[trigger] lists[k].name@ != name
}

/// Whether the reply `outcome` to a suggestion request takes `a` to `b`.
pub open spec fn suggestion_applied(a: App, outcome: Result<Json, AiError>, b: App) -> bool {
    match outcome {
        Ok(resp) => {
            let s = suggestion(resp, a.user_lists@);
            &&& b == App {
                suggested_list: b.suggested_list,
                selected_list_idx: b.selected_list_idx,
                message: None,
                ..a
            }
            &&& match s {
                Some(name) => holds_text(b.suggested_list, name) && first_list_named(
                    a.user_lists@,
                    name,
                    b.selected_list_idx as int,
                ),
                None => b.suggested_list is None && b.selected_list_idx == a.selected_list_idx,
            }
        },
        Err(e) => with_message(a, b, "AI suggestion error: "@ + ai_error_text(e)),
    }
}

/// The message that tells that `repo` was filed under `list`.
pub open spec fn added_text(repo: Repo, list: GithubList) -> Seq<char> {
    "Added '"@ + repo.name@ + "' to list '"@ + list.name@ + "'"@
}

/// Whether filing the selected repository under the selected list takes `a`
/// to `b` and records `log`.
pub open spec fn repo_added(a: App, b: App, log: Option<String>) -> bool {
    if a.selected_repo_idx < a.starred_repos@.len() && a.selected_list_idx < a.user_lists@.len() {
        let repo = a.starred_repos@[a.selected_repo_idx as int];
        let list = a.user_lists@[a.selected_list_idx as int];
        &&& with_message(a, b, added_text(repo, list))
        &&& log matches Some(line) && line@ == adding_text(
            or_empty(repo.owner_login),
            repo.name@,
            list.name@,
        )
    } else {
        b == a && log is None
    }
}

/// The suggestion request among the work asked for.
pub open spec fn sent_request(r: Option<KeyAction>) -> Option<AiRequest> {
    match r {
        Some(KeyAction::SendSuggestion(req)) => Some(req),
        _ => None,
    }
}

/// The log line among the work asked for.
pub open spec fn logged_line(r: Option<KeyAction>) -> Option<String> {
    match r {
        Some(KeyAction::LogInfo(line)) => Some(line),
        _ => None,
    }
}

/// Whether `key` is the character `c`, whatever the modifiers.
pub open spec fn is_char(key: Key, c: char) -> bool {
    key.code matches KeyCode::Char(x) && x == c
}

/// `q` or Escape.
pub open spec fn is_back(key: Key) -> bool {
    is_char(key, 'q') || key.code is Esc
}

/// `j` or Down.
pub open spec fn is_down(key: Key) -> bool {
    is_char(key, 'j') || key.code is Down
}

/// `k` or Up.
pub open spec fn is_up(key: Key) -> bool {
    is_char(key, 'k') || key.code is Up
}

/// `l` or Enter.
pub open spec fn is_select(key: Key) -> bool {
    is_char(key, 'l') || key.code is Enter
}

/// Control-C, which quits from every screen.
pub open spec fn is_interrupt(key: Key) -> bool {
    is_char(key, 'c') && key.ctrl
}

/// Whether the key press `key` in state `a`, as the screen dispatches it, takes `a` to `b` and asks for the work `r`.
pub open spec fn key_dispatched(a: App, key: Key, b: App, r: Option<KeyAction>) -> bool {
    match a.state {
        AppState::Loading => b == a && r is None,
        AppState::RepoList => if is_back(key) {
            b == App { should_quit: true, ..a } && r is None
        } else if is_down(key) {
            b == next_repo_of(a) && r is None
        } else if is_up(key) {
            b == prev_repo_of(a) && r is None
        } else if is_select(key) {
            b == with_state(a, AppState::ListSelect) && r is None
        } else if is_char(key, 's') {
            suggestion_started(a, b, sent_request(r)) && logged_line(r) is None
        } else {
            b == a && r is None
        },
        AppState::ListSelect => if is_back(key) {
            b == with_state(a, AppState::RepoList) && r is None
        } else if is_down(key) {
            b == next_list_of(a) && r is None
        } else if is_up(key) {
            b == prev_list_of(a) && r is None
        } else if is_select(key) {
            b == with_state(a, AppState::Confirmation) && r is None
        } else {
            b == a && r is None
        },
        AppState::Confirmation => if is_char(key, 'y') || key.code is Enter {
            repo_added(a, with_state(b, a.state), logged_line(r)) && b.state is RepoList && sent_request(r) is None
        } else if is_char(key, 'n') || key.code is Esc {
            b == with_state(a, AppState::ListSelect) && r is None
        } else {
            b == a && r is None
        },
        AppState::Error(_) => if key.code is Enter || key.code is Esc {
            b == with_state(a, AppState::RepoList) && r is None
        } else {
            b == a && r is None
        },
    }
}

/// Whether the key press `key` takes `a` to `b` and asks for the work `r`.
pub open spec fn key_handled(a: App, key: Key, b: App, r: Option<KeyAction>) -> bool {
    if is_interrupt(key) {
        b == App { should_quit: true, ..a } && r is None
    } else {
        key_dispatched(a, key, b, r)
    }
}

/// Whether handling `key` in state `a` cannot overflow a selection index.
pub open spec fn key_in_range(a: App, key: Key) -> bool {
    &&& (a.state is RepoList && is_down(key) && a.starred_repos@.len() > 0) ==> a.selected_repo_idx
        < usize::MAX
    &&& (a.state is ListSelect && is_down(key) && a.user_lists@.len() > 0) ==> a.selected_list_idx
        < usize::MAX
}

/// Whether `key` is the character `c`.
fn key_is_char(key: &Key, c: char) -> (r: bool)
    ensures
        r == is_char(*key, c),
{
    match key.code {
        KeyCode::Char(x) => x == c,
        _ => false,
    }
}

fn key_is_back(key: &Key) -> (r: bool)
    ensures
        r == is_back(*key),
{
    key_is_char(key, 'q') || matches!(key.code, KeyCode::Esc)
}

fn key_is_down(key: &Key) -> (r: bool)
    ensures
        r == is_down(*key),
{
    key_is_char(key, 'j') || matches!(key.code, KeyCode::Down)
}

fn key_is_up(key: &Key) -> (r: bool)
    ensures
        r == is_up(*key),
{
    key_is_char(key, 'k') || matches!(key.code, KeyCode::Up)
}

fn key_is_select(key: &Key) -> (r: bool)
    ensures
        r == is_select(*key),
{
    key_is_char(key, 'l') || matches!(key.code, KeyCode::Enter)
}

impl App {
    /// The application at start: loading, with nothing selected, talking to
    /// GitHub through `github_client` and to OpenAI when `config` has a key.
    pub fn new(config: Config, github_client: GitHubClient) -> (r: App)
        requires
            config.github_token is Some,
            config.github_username matches Some(u) && github_client.user() == u@,
        ensures
            r.state is Loading,
            r.config == config,
            *r.github_client == github_client,
            config.openai_api_key is None ==> r.ai_suggester is None,
            config.openai_api_key matches Some(k) ==> (r.ai_suggester matches Some(ai) && ai@ == k@),
            r.starred_repos@.len() == 0,
            r.user_lists@.len() == 0,
            r.selected_repo_idx == 0,
            r.selected_list_idx == 0,
            r.suggested_list is None,
            r.scroll_offset == 0,
            r.message is None,
            !r.should_quit,
    {
        let ai_suggester = match &config.openai_api_key {
            Some(k) => Some(AiSuggester::new(k.clone())),
            None => None,
        };
        App {
            state: AppState::Loading,
            config,
            github_client: Arc::new(github_client),
            ai_suggester,
            starred_repos: Vec::new(),
            user_lists: Vec::new(),
            selected_repo_idx: 0,
            selected_list_idx: 0,
            suggested_list: None,
            scroll_offset: 0,
            message: None,
            should_quit: false,
        }
    }

    /// Shows the loaded repositories and the user's lists, from the outcome
    /// `starred` of the request for the starred repositories.
    pub fn load_data(&mut self, starred: Result<Vec<Repo>, GithubError>) -> (r: Result<(), AppError>)
        ensures
            starred matches Err(e) ==> r == Err::<(), AppError>(AppError::LoadStarredRepos(e))
                && *final(self) == with_state(*old(self), AppState::Loading),
            starred matches Ok(repos) ==> {
                &&& r is Ok
                &&& *final(self) == App {
                    state: final(self).state,
                    starred_repos: repos,
                    user_lists: final(self).user_lists,
                    ..*old(self)
                }
                &&& standard_lists(final(self).user_lists@)
                &&& repos@.len() == 0 ==> shows_error(
                    final(self).state,
                    "No starred repositories found."@,
                )
                &&& repos@.len() > 0 ==> final(self).state is RepoList
            },
    {
        self.state = AppState::Loading;
        match starred {
            Err(e) => {
                return Err(AppError::LoadStarredRepos(e));
            },
            Ok(repos) => {
                self.starred_repos = repos;
            },
        }
        match self.github_client.get_user_lists() {
            Err(e) => {
                return Err(AppError::LoadUserLists(e));
            },
            Ok(lists) => {
                self.user_lists = lists;
            },
        }
        if self.starred_repos.len() == 0 {
            self.state = AppState::Error(String::from_str("No starred repositories found."));
            return Ok(());
        }
        if self.user_lists.len() == 0 {
            self.state = AppState::Error(
                String::from_str("No GitHub lists found. Please create at least one list."),
            );
            return Ok(());
        }
        self.state = AppState::RepoList;
        Ok(())
    }

    /// Selects the next repository, after the last the first, and drops the suggestion.
    pub fn next_repo(&mut self)
        requires
            old(self).starred_repos@.len() > 0 ==> old(self).selected_repo_idx < usize::MAX,
        ensures
            *final(self) == next_repo_of(*old(self)),
    {
        if self.starred_repos.len() > 0 {
            self.selected_repo_idx = (self.selected_repo_idx + 1) % self.starred_repos.len();
            self.suggested_list = None;
        }
    }

    /// Selects the previous repository, before the first the last, and drops the suggestion.
    pub fn prev_repo(&mut self)
        ensures
            *final(self) == prev_repo_of(*old(self)),
    {
        if self.starred_repos.len() > 0 {
            self.selected_repo_idx = if self.selected_repo_idx > 0 {
                self.selected_repo_idx - 1
            } else {
                self.starred_repos.len() - 1
            };
            self.suggested_list = None;
        }
    }

    /// Selects the next list, after the last the first.
    pub fn next_list(&mut self)
        requires
            old(self).user_lists@.len() > 0 ==> old(self).selected_list_idx < usize::MAX,
        ensures
            *final(self) == next_list_of(*old(self)),
    {
        if self.user_lists.len() > 0 {
            self.selected_list_idx = (self.selected_list_idx + 1) % self.user_lists.len();
        }
    }

    /// Selects the previous list, before the first the last.
    pub fn prev_list(&mut self)
        ensures
            *final(self) == prev_list_of(*old(self)),
    {
        if self.user_lists.len() > 0 {
            self.selected_list_idx = if self.selected_list_idx > 0 {
                self.selected_list_idx - 1
            } else {
                self.user_lists.len() - 1
            };
        }
    }

    /// Starts asking for a list for the selected repository. Returns the
    /// request to send when one is needed; its reply goes to `apply_ai_suggestion`.
    pub fn get_ai_suggestion(&mut self) -> (r: Option<AiRequest>)
        ensures
            suggestion_started(*old(self), *final(self), r),
            r is Some <==> suggestion_sent(*old(self)),
            r matches Some(req) ==> req.prompt@ == prompt_text(
                old(self).starred_repos@[old(self).selected_repo_idx as int],
                old(self).user_lists@,
            ),
    {
        match &self.ai_suggester {
            None => {
                self.message = Some(String::from_str("OpenAI API key not configured."));
                None
            },
            Some(ai) => {
                if self.selected_repo_idx < self.starred_repos.len() {
                    let req = ai.suggest_list_request(
                        &self.starred_repos[self.selected_repo_idx],
                        self.user_lists.as_slice(),
                    );
                    match req {
                        None => {
                            self.suggested_list = None;
                            self.message = None;
                            None
                        },
                        Some(req) => {
                            self.message = Some(String::from_str("Generating AI suggestion..."));
                            Some(req)
                        },
                    }
                } else {
                    None
                }
            },
        }
    }

    /// Takes in the reply to a suggestion request: keeps the suggested list
    /// and selects it, or shows why there is none.
    pub fn apply_ai_suggestion(&mut self, outcome: Result<Json, AiError>)
        ensures
            suggestion_applied(*old(self), outcome, *final(self)),
    {
        match outcome {
            Ok(response) => {
                let suggested = AiSuggester::suggested_list_from_response(
                    &response,
                    self.user_lists.as_slice(),
                );
                match &suggested {
                    Some(name) => {
                        let mut i: usize = 0;
                        while i < self.user_lists.len() && !text_eq(
                            self.user_lists[i].name.as_str(),
                            name.as_str(),
                        )
                            invariant
                                i <= self.user_lists@.len(),
                                has_list_named(self.user_lists@, name@),
                                forall|k: int| 0 <= k < i ==> #[trigger] self.user_lists@[k].name@ != name@,
                            decreases self.user_lists@.len() - i,
                        {
                            i = i + 1;
                        }
                        if i < self.user_lists.len() {
                            self.selected_list_idx = i;
                        }
                    },
                    None => {},
                }
                self.suggested_list = suggested;
                self.message = None;
            },
            Err(e) => {
                let mut text = String::from_str("AI suggestion error: ");
                let detail = e.message();
                text.append(detail.as_str());
                self.message = Some(text);
            },
        }
    }

    /// Files the selected repository under the selected list and says so.
    /// Returns the line to record in the log when a repository was filed.
    pub fn add_current_repo_to_list(&mut self) -> (r: Result<Option<String>, GithubError>)
        ensures
            r matches Ok(log) && repo_added(*old(self), *final(self), log),
    {
        if self.selected_repo_idx < self.starred_repos.len() && self.selected_list_idx
            < self.user_lists.len() {
            let repo = &self.starred_repos[self.selected_repo_idx];
            let list = &self.user_lists[self.selected_list_idx];
            let owner = match &repo.owner_login {
                Some(login) => login.clone(),
                None => String::new(),
            };
            let line = match self.github_client.add_repo_to_list(
                owner.as_str(),
                repo.name.as_str(),
                list.name.as_str(),
            ) {
                Ok(line) => line,
                Err(e) => {
                    return Err(e);
                },
            };
            let mut text = String::from_str("Added '");
            text.append(repo.name.as_str());
            text.append("' to list '");
            text.append(list.name.as_str());
            text.append("'");
            self.message = Some(text);
            return Ok(Some(line));
        }
        Ok(None)
    }

    /// Shows the repository list.
    pub fn select_repo_list(&mut self)
        ensures
            *final(self) == with_state(*old(self), AppState::RepoList),
    {
        self.state = AppState::RepoList;
    }

    /// Shows the list selector.
    pub fn select_list_selector(&mut self)
        ensures
            *final(self) == with_state(*old(self), AppState::ListSelect),
    {
        self.state = AppState::ListSelect;
    }

    /// Asks to confirm filing the selected repository.
    pub fn confirm_action(&mut self)
        ensures
            *final(self) == with_state(*old(self), AppState::Confirmation),
    {
        self.state = AppState::Confirmation;
    }

    /// Shows `error`.
    pub fn set_error(&mut self, error: String)
        ensures
            *final(self) == with_state(*old(self), AppState::Error(error)),
    {
        self.state = AppState::Error(error);
    }
    /// Reacts to a key press on the current screen; Control-C quits from every
    /// screen. Returns the outside work the key asks for: a suggestion request
    /// to send, or a line to record in the log.
    pub fn handle_key(&mut self, key: Key) -> (r: Option<KeyAction>)
        requires
            key_in_range(*old(self), key),
        ensures
            key_handled(*old(self), key, *final(self), r),
    {
        let mut action: Option<KeyAction> = None;
        match self.state {
            AppState::Loading => {},
            AppState::RepoList => {
                if key_is_back(&key) {
                    self.should_quit = true;
                } else if key_is_down(&key) {
                    self.next_repo();
                } else if key_is_up(&key) {
                    self.prev_repo();
                } else if key_is_select(&key) {
                    self.select_list_selector();
                } else if key_is_char(&key, 's') {
                    match self.get_ai_suggestion() {
                        Some(req) => action = Some(KeyAction::SendSuggestion(req)),
                        None => {},
                    }
                }
            },
            AppState::ListSelect => {
                if key_is_back(&key) {
                    self.select_repo_list();
                } else if key_is_down(&key) {
                    self.next_list();
                } else if key_is_up(&key) {
                    self.prev_list();
                } else if key_is_select(&key) {
                    self.confirm_action();
                }
            },
            AppState::Confirmation => {
                if key_is_char(&key, 'y') || matches!(key.code, KeyCode::Enter) {
                    match self.add_current_repo_to_list() {
                        Ok(log) => {
                            match log {
                                Some(line) => action = Some(KeyAction::LogInfo(line)),
                                None => {},
                            }
                            self.select_repo_list();
                        },
                        Err(e) => {
                            let mut text = String::from_str("Failed to add to list: ");
                            let detail = e.message();
                            text.append(detail.as_str());
                            self.set_error(text);
                        },
                    }
                } else if key_is_char(&key, 'n') || matches!(key.code, KeyCode::Esc) {
                    self.select_list_selector();
                }
            },
            AppState::Error(_) => {
                if matches!(key.code, KeyCode::Enter) || matches!(key.code, KeyCode::Esc) {
                    self.select_repo_list();
                }
            },
        }
        if key_is_char(&key, 'c') && key.ctrl {
            self.should_quit = true;
        }
        action
    }
}

/// `a` after moving the repository selection down `k` times.
pub open spec fn next_repo_times(a: App, k: nat) -> App
    decreases k,
{
    if k == 0 {
        a
    } else {
        next_repo_of(next_repo_times(a, (k - 1) as nat))
    }
}

/// `a` after moving the list selection down `k` times.
pub open spec fn next_list_times(a: App, k: nat) -> App
    decreases k,
{
    if k == 0 {
        a
    } else {
        next_list_of(next_list_times(a, (k - 1) as nat))
    }
}

proof fn lemma_next_index(i: int, n: int)
    requires
        0 <= i < n,
    ensures
        (i + 1) % n == if i + 1 < n { i + 1 } else { 0 },
{
    if i + 1 < n {
        vstd::arithmetic::div_mod::lemma_small_mod((i + 1) as nat, n as nat);
    } else {
        vstd::arithmetic::div_mod::lemma_mod_self_0(n);
    }
}

proof fn lemma_mod_step(x: int, n: int)
    requires
        x >= 0,
        n > 0,
    ensures
        ((x % n) + 1) % n == (x + 1) % n,
{
    vstd::arithmetic::div_mod::lemma_add_mod_noop(x, 1, n);
    if n == 1 {
        assert((x % n) == 0) by {
            vstd::arithmetic::div_mod::lemma_mod_bound(x, n);
        }
        vstd::arithmetic::div_mod::lemma_mod_bound(x + 1, n);
    } else {
        vstd::arithmetic::div_mod::lemma_small_mod(1, n as nat);
    }
}

/// Moving the repository selection up undoes moving it down, but for the
/// suggestion, which either move drops.
pub proof fn lemma_prev_repo_undoes_next_repo(a: App)
    requires
        a.selected_repo_idx < a.starred_repos@.len() <= usize::MAX,
    ensures
        prev_repo_of(next_repo_of(a)) == (App { suggested_list: None, ..a }),
{
    lemma_next_index(a.selected_repo_idx as int, a.starred_repos@.len() as int);
}

/// Moving the repository selection down undoes moving it up, but for the
/// suggestion, which either move drops.
pub proof fn lemma_next_repo_undoes_prev_repo(a: App)
    requires
        a.selected_repo_idx < a.starred_repos@.len() <= usize::MAX,
    ensures
        next_repo_of(prev_repo_of(a)) == (App { suggested_list: None, ..a }),
{
    let n = a.starred_repos@.len() as int;
    let p = if a.selected_repo_idx > 0 { a.selected_repo_idx - 1 } else { n - 1 };
    lemma_next_index(p, n);
}

/// Moving the list selection up undoes moving it down.
pub proof fn lemma_prev_list_undoes_next_list(a: App)
    requires
        a.selected_list_idx < a.user_lists@.len() <= usize::MAX,
    ensures
        prev_list_of(next_list_of(a)) == a,
{
    lemma_next_index(a.selected_list_idx as int, a.user_lists@.len() as int);
}

/// Moving the list selection down undoes moving it up.
pub proof fn lemma_next_list_undoes_prev_list(a: App)
    requires
        a.selected_list_idx < a.user_lists@.len() <= usize::MAX,
    ensures
        next_list_of(prev_list_of(a)) == a,
{
    let n = a.user_lists@.len() as int;
    let p = if a.selected_list_idx > 0 { a.selected_list_idx - 1 } else { n - 1 };
    lemma_next_index(p, n);
}

/// A selection that points at an entry keeps pointing at one whichever way it moves.
pub proof fn lemma_selection_stays_in_range(a: App)
    requires
        a.starred_repos@.len() <= usize::MAX,
        a.user_lists@.len() <= usize::MAX,
    ensures
        a.selected_repo_idx < a.starred_repos@.len() ==> {
            &&& next_repo_of(a).selected_repo_idx < a.starred_repos@.len()
            &&& prev_repo_of(a).selected_repo_idx < a.starred_repos@.len()
        },
        a.selected_list_idx < a.user_lists@.len() ==> {
            &&& next_list_of(a).selected_list_idx < a.user_lists@.len()
            &&& prev_list_of(a).selected_list_idx < a.user_lists@.len()
        },
        a.starred_repos@.len() > 0 ==> next_repo_of(a).selected_repo_idx < a.starred_repos@.len(),
        a.user_lists@.len() > 0 ==> next_list_of(a).selected_list_idx < a.user_lists@.len(),
{
    if a.starred_repos@.len() > 0 {
        vstd::arithmetic::div_mod::lemma_mod_pos_bound(a.selected_repo_idx + 1, a.starred_repos@.len() as int);
    }
    if a.user_lists@.len() > 0 {
        vstd::arithmetic::div_mod::lemma_mod_pos_bound(a.selected_list_idx + 1, a.user_lists@.len() as int);
    }
}

/// Moving the repository selection down `k` times from an entry selects the
/// entry `k` further on, counting round from the top.
pub proof fn lemma_next_repo_times(a: App, k: nat)
    requires
        a.selected_repo_idx < a.starred_repos@.len() <= usize::MAX,
    ensures
        next_repo_times(a, k).selected_repo_idx == (a.selected_repo_idx + k) % (a.starred_repos@.len() as int),
        k > 0 ==> next_repo_times(a, k) == (App {
            selected_repo_idx: next_repo_times(a, k).selected_repo_idx,
            suggested_list: None,
            ..a
        }),
    decreases k,
{
    let n = a.starred_repos@.len() as int;
    if k == 0 {
        vstd::arithmetic::div_mod::lemma_small_mod(a.selected_repo_idx as nat, n as nat);
    } else {
        lemma_next_repo_times(a, (k - 1) as nat);
        lemma_mod_step(a.selected_repo_idx + k - 1, n);
        vstd::arithmetic::div_mod::lemma_mod_pos_bound(a.selected_repo_idx + k - 1, n);
    }
}

/// Moving the repository selection down once per repository comes back to
/// the repository it started from.
pub proof fn lemma_next_repo_cycles(a: App)
    requires
        a.selected_repo_idx < a.starred_repos@.len() <= usize::MAX,
    ensures
        next_repo_times(a, a.starred_repos@.len()).selected_repo_idx == a.selected_repo_idx,
{
    let n = a.starred_repos@.len();
    lemma_next_repo_times(a, n);
    vstd::arithmetic::div_mod::lemma_mod_add_multiples_vanish(a.selected_repo_idx as int, n as int);
    vstd::arithmetic::div_mod::lemma_small_mod(a.selected_repo_idx as nat, n);
}

/// Moving the list selection down `k` times from a list selects the list
/// `k` further on, counting round from the top.
pub proof fn lemma_next_list_times(a: App, k: nat)
    requires
        a.selected_list_idx < a.user_lists@.len() <= usize::MAX,
    ensures
        next_list_times(a, k).selected_list_idx == (a.selected_list_idx + k) % (a.user_lists@.len() as int),
        next_list_times(a, k) == (App { selected_list_idx: next_list_times(a, k).selected_list_idx, ..a }),
    decreases k,
{
    let n = a.user_lists@.len() as int;
    if k == 0 {
        vstd::arithmetic::div_mod::lemma_small_mod(a.selected_list_idx as nat, n as nat);
    } else {
        lemma_next_list_times(a, (k - 1) as nat);
        lemma_mod_step(a.selected_list_idx + k - 1, n);
        vstd::arithmetic::div_mod::lemma_mod_pos_bound(a.selected_list_idx + k - 1, n);
    }
}

/// Moving the list selection down once per list comes back to where it started.
pub proof fn lemma_next_list_cycles(a: App)
    requires
        a.selected_list_idx < a.user_lists@.len() <= usize::MAX,
    ensures
        next_list_times(a, a.user_lists@.len()) == a,
{
    let n = a.user_lists@.len();
    lemma_next_list_times(a, n);
    vstd::arithmetic::div_mod::lemma_mod_add_multiples_vanish(a.selected_list_idx as int, n as int);
    vstd::arithmetic::div_mod::lemma_small_mod(a.selected_list_idx as nat, n);
}

/// Control-C quits from every screen and changes nothing else.
pub proof fn lemma_interrupt_quits(a: App, key: Key, b: App, r: Option<KeyAction>)
    requires
        key_handled(a, key, b, r),
        is_interrupt(key),
    ensures
        b == (App { should_quit: true, ..a }),
        r is None,
{
}

/// Keys other than Control-C leave the loading screen as it is.
pub proof fn lemma_loading_ignores_keys(a: App, key: Key, b: App, r: Option<KeyAction>)
    requires
        key_handled(a, key, b, r),
        a.state is Loading,
        !is_interrupt(key),
    ensures
        b == a,
        r is None,
{
}

/// Opening the list selector from the repository list and going back
/// returns to the state it started from.
pub proof fn lemma_list_selector_round_trip(
    a: App,
    open: Key,
    b: App,
    r1: Option<KeyAction>,
    back: Key,
    c: App,
    r2: Option<KeyAction>,
)
    requires
        a.state is RepoList,
        is_select(open),
        key_handled(a, open, b, r1),
        is_back(back),
        key_handled(b, back, c, r2),
    ensures
        c == a,
        r1 is None,
        r2 is None,
{
}

/// A request is sent only for `s` on the repository list, with an AI key,
/// a selected repository and at least one list.
pub proof fn lemma_request_only_for_suggestion(a: App, key: Key, b: App, r: Option<KeyAction>)
    requires
        key_handled(a, key, b, r),
        sent_request(r) is Some,
    ensures
        a.state is RepoList,
        is_char(key, 's'),
        suggestion_sent(a),
{
}

/// After a reply that suggests a list, the selected list is the suggested one.
pub proof fn lemma_applied_suggestion_is_selected(a: App, resp: Json, b: App)
    requires
        suggestion_applied(a, Ok(resp), b),
        b.suggested_list is Some,
    ensures
        b.selected_list_idx < b.user_lists@.len(),
        holds_text(b.suggested_list, b.user_lists@[b.selected_list_idx as int].name@),
{
}

/// A suggestion request asks, with the configured key, about the selected
/// repository and the loaded lists: its prompt is the question about the
/// repository at the selection, its body carries that prompt, and its header
/// carries the key.
pub proof fn lemma_request_is_about_selection(a: App, b: App, req: AiRequest)
    requires
        suggestion_started(a, b, Some(req)),
    ensures
        a.ai_suggester matches Some(ai) && req.authorization@ == "Bearer "@ + ai@,
        a.selected_repo_idx < a.starred_repos@.len(),
        a.user_lists@.len() > 0,
        req.prompt@ == prompt_text(a.starred_repos@[a.selected_repo_idx as int], a.user_lists@),
        req.body@ == request_body(req.prompt@),
        req.url@ == "https://api.openai.com/v1/chat/completions"@,
        b == (App { message: b.message, ..a }),
        b.message matches Some(m) && m@ == "Generating AI suggestion..."@,
{
}

/// Asking for a suggestion without a key only says that the key is missing;
/// with the selection past the last repository it does nothing; with no
/// lists it clears the suggestion and the message.
pub proof fn lemma_no_request_cases(a: App, b: App, r: Option<AiRequest>)
    requires
        suggestion_started(a, b, r),
    ensures
        a.ai_suggester is None ==> r is None && b == (App { message: b.message, ..a })
            && (b.message matches Some(m) && m@ == "OpenAI API key not configured."@),
        a.ai_suggester is Some && a.selected_repo_idx >= a.starred_repos@.len() ==> r is None && b
            == a,
        a.ai_suggester is Some && a.selected_repo_idx < a.starred_repos@.len() && a.user_lists@.len()
            == 0 ==> r is None && b == (App { suggested_list: None, message: None, ..a }),
{
}

/// Taking in a reply whose first choice's content, trimmed, names a list
/// keeps that name as the suggestion, selects the first list with that name
/// and clears the message; when no list has that name the suggestion is
/// dropped and the selection kept.
pub proof fn lemma_reply_selects_named_list(
    a: App,
    resp: Json,
    b: App,
    choices: Json,
    first: Json,
    message: Json,
    content: String,
)
    requires
        suggestion_applied(a, Ok(resp), b),
        resp.member("choices"@) == Some(choices),
        choices.element(0) == Some(first),
        first.member("message"@) == Some(message),
        message.member("content"@) == Some(Json::String(content)),
    ensures
        b.message is None,
        b.starred_repos == a.starred_repos && b.user_lists == a.user_lists && b.state == a.state,
        (exists|i: int| 0 <= i < a.user_lists@.len() && #[trigger] a.user_lists@[i].name@ == trim_seq(content@)) ==> {
            &&& b.suggested_list matches Some(s) && s@ == trim_seq(content@)
            &&& b.selected_list_idx < a.user_lists@.len()
            &&& a.user_lists@[b.selected_list_idx as int].name@ == trim_seq(content@)
            &&& forall|k: int| 0 <= k < b.selected_list_idx ==> #[trigger] a.user_lists@[k].name@ != trim_seq(content@)
        },
        (forall|i: int| 0 <= i < a.user_lists@.len() ==> #[trigger] a.user_lists@[i].name@ != trim_seq(content@))
            ==> b.suggested_list is None && b.selected_list_idx == a.selected_list_idx,
{
    crate::ai::lemma_suggestion_of_reply(resp, a.user_lists@, choices, first, message, content);
}

/// A failed suggestion request shows why, and changes nothing else.
pub proof fn lemma_failed_reply_message(a: App, e: AiError, b: App)
    requires
        suggestion_applied(a, Err(e), b),
    ensures
        b == (App { message: b.message, ..a }),
        e is Send ==> (b.message matches Some(m) && m@ == "AI suggestion error: "@ + "Failed to send request to OpenAI API"@),
        e is Parse ==> (b.message matches Some(m) && m@ == "AI suggestion error: "@ + "Failed to parse OpenAI API response"@),
{
}

/// The keys of the repository list: `q`/Escape quits, `j`/Down and `k`/Up
/// move the repository selection round the list and drop the suggestion,
/// `l`/Enter opens the list selector, and `s` asks about the selected repository.
pub proof fn lemma_repo_list_keys(a: App, key: Key, b: App, r: Option<KeyAction>)
    requires
        a.state is RepoList,
        key_handled(a, key, b, r),
        a.starred_repos@.len() <= usize::MAX,
    ensures
        key.code == KeyCode::Esc || key.code == KeyCode::Char('q') ==> b == (App { should_quit: true, ..a }) && r is None,
        (key.code == KeyCode::Down || key.code == KeyCode::Char('j')) && a.selected_repo_idx < a.starred_repos@.len() ==> r is None && b == (App {
            selected_repo_idx: if a.selected_repo_idx + 1 < a.starred_repos@.len() { (a.selected_repo_idx + 1) as usize } else { 0 },
            suggested_list: None,
            ..a
        }),
        (key.code == KeyCode::Up || key.code == KeyCode::Char('k')) && a.starred_repos@.len() > 0 ==> r is None && b == (App {
            selected_repo_idx: if a.selected_repo_idx > 0 { (a.selected_repo_idx - 1) as usize } else { (a.starred_repos@.len() - 1) as usize },
            suggested_list: None,
            ..a
        }),
        (key.code == KeyCode::Down || key.code == KeyCode::Char('j') || key.code == KeyCode::Up || key.code == KeyCode::Char('k')) && a.starred_repos@.len() == 0 ==> b == a && r is None,
        key.code == KeyCode::Enter || key.code == KeyCode::Char('l') ==> b == (App { state: AppState::ListSelect, ..a }) && r is None,
        key.code == KeyCode::Char('s') ==> (r is None || r matches Some(KeyAction::SendSuggestion(_))),
        key.code == KeyCode::Char('s') ==> (r matches Some(KeyAction::SendSuggestion(req)) ==> req.prompt@ == prompt_text(
            a.starred_repos@[a.selected_repo_idx as int],
            a.user_lists@,
        )),
{
    if a.selected_repo_idx < a.starred_repos@.len() {
        lemma_next_index(a.selected_repo_idx as int, a.starred_repos@.len() as int);
    }
}

/// The keys of the list selector: `q`/Escape goes back to the repository
/// list, `j`/Down and `k`/Up move the list selection round the lists and
/// change nothing else, `l`/Enter asks for confirmation.
pub proof fn lemma_list_selector_keys(a: App, key: Key, b: App, r: Option<KeyAction>)
    requires
        a.state is ListSelect,
        key_handled(a, key, b, r),
        a.user_lists@.len() <= usize::MAX,
    ensures
        key.code == KeyCode::Esc || key.code == KeyCode::Char('q') ==> b == (App { state: AppState::RepoList, ..a }) && r is None,
        (key.code == KeyCode::Down || key.code == KeyCode::Char('j')) && a.selected_list_idx < a.user_lists@.len() ==> r is None && b == (App {
            selected_list_idx: if a.selected_list_idx + 1 < a.user_lists@.len() { (a.selected_list_idx + 1) as usize } else { 0 },
            ..a
        }),
        (key.code == KeyCode::Up || key.code == KeyCode::Char('k')) && a.user_lists@.len() > 0 ==> r is None && b == (App {
            selected_list_idx: if a.selected_list_idx > 0 { (a.selected_list_idx - 1) as usize } else { (a.user_lists@.len() - 1) as usize },
            ..a
        }),
        (key.code == KeyCode::Down || key.code == KeyCode::Char('j') || key.code == KeyCode::Up || key.code == KeyCode::Char('k')) && a.user_lists@.len() == 0 ==> b == a && r is None,
        key.code == KeyCode::Enter || key.code == KeyCode::Char('l') ==> b == (App { state: AppState::Confirmation, ..a }) && r is None,
{
    if a.selected_list_idx < a.user_lists@.len() {
        lemma_next_index(a.selected_list_idx as int, a.user_lists@.len() as int);
    }
}

/// The keys of the confirmation: `y` or Enter files the selected repository
/// under the selected list, says so, records the log line and returns to the
/// repository list; `n` or Escape returns to the list selector.
pub proof fn lemma_confirmation_keys(a: App, key: Key, b: App, r: Option<KeyAction>)
    requires
        a.state is Confirmation,
        key_handled(a, key, b, r),
    ensures
        (key.code == KeyCode::Enter || key.code == KeyCode::Char('y')) && a.selected_repo_idx < a.starred_repos@.len()
            && a.selected_list_idx < a.user_lists@.len() ==> {
            let repo = a.starred_repos@[a.selected_repo_idx as int];
            let list = a.user_lists@[a.selected_list_idx as int];
            &&& b == (App { state: AppState::RepoList, message: b.message, ..a })
            &&& b.message matches Some(m) && m@ == "Added '"@ + repo.name@ + "' to list '"@ + list.name@ + "'"@
            &&& r matches Some(KeyAction::LogInfo(line)) && line@ == "Adding repository "@ + or_empty(repo.owner_login)
                + "/"@ + repo.name@ + " to list '"@ + list.name@ + "'"@
        },
        (key.code == KeyCode::Enter || key.code == KeyCode::Char('y')) && !(a.selected_repo_idx < a.starred_repos@.len()
            && a.selected_list_idx < a.user_lists@.len()) ==> b == (App { state: AppState::RepoList, ..a }) && r is None,
        key.code == KeyCode::Esc || key.code == KeyCode::Char('n') ==> b == (App { state: AppState::ListSelect, ..a }) && r is None,
{
}

/// On the error screen Enter or Escape returns to the repository list.
pub proof fn lemma_error_screen_keys(a: App, key: Key, b: App, r: Option<KeyAction>)
    requires
        a.state is Error,
        key_handled(a, key, b, r),
    ensures
        key.code == KeyCode::Enter || key.code == KeyCode::Esc ==> b == (App { state: AppState::RepoList, ..a }) && r is None,
{
}

/// Control-C quits from every screen and changes nothing else, and a key with
/// no meaning on the current screen changes nothing.
pub proof fn lemma_other_keys_change_nothing(a: App, key: Key, b: App, r: Option<KeyAction>)
    requires
        key_handled(a, key, b, r),
    ensures
        key.code == KeyCode::Char('c') && key.ctrl ==> b == (App { should_quit: true, ..a }) && r is None,
        key.code == KeyCode::Other ==> b == a && r is None,
        a.state is Loading && !(key.code == KeyCode::Char('c') && key.ctrl) ==> b == a && r is None,
        (key.code matches KeyCode::Char(c) && c != 'q' && c != 'j' && c != 'k' && c != 'l' && c != 's')
            && a.state is RepoList && !(key.code == KeyCode::Char('c') && key.ctrl) ==> b == a && r is None,
        (key.code matches KeyCode::Char(c) && c != 'q' && c != 'j' && c != 'k' && c != 'l')
            && a.state is ListSelect && !(key.code == KeyCode::Char('c') && key.ctrl) ==> b == a && r is None,
        (key.code matches KeyCode::Char(c) && c != 'y' && c != 'n') && a.state is Confirmation && !(
        key.code == KeyCode::Char('c') && key.ctrl) ==> b == a && r is None,
        (key.code is Up || key.code is Down || key.code matches KeyCode::Char(_)) && a.state is Error
            && !(key.code == KeyCode::Char('c') && key.ctrl) ==> b == a && r is None,
{
}

} // verus!
