use std::sync::Arc;

use gh_stars::{AiError, App, AppState, Config, GitHubClient, GithubList, Json, Key, KeyAction, KeyCode, Repo};

fn client() -> GitHubClient {
    let rt: &'static tokio::runtime::Runtime =
        Box::leak(Box::new(tokio::runtime::Runtime::new().expect("runtime")));
    let _guard = rt.enter();
    let octo = octocrab::Octocrab::builder()
        .personal_token("token".to_string())
        .build()
        .expect("client");
    GitHubClient::new(Arc::new(octo), "alice".to_string())
}

fn repo(name: &str, desc: Option<&str>) -> Repo {
    Repo {
        name: name.to_string(),
        description: desc.map(|d| d.to_string()),
        topics: None,
        owner_login: Some("octo".to_string()),
    }
}

fn config_with_key(key: Option<&str>) -> Config {
    let mut c = Config::default();
    c.github_token = Some("token".to_string());
    c.github_username = Some("alice".to_string());
    c.openai_api_key = key.map(|k| k.to_string());
    c
}

fn loaded_app(key: Option<&str>, repos: Vec<Repo>) -> App {
    let mut app = App::new(config_with_key(key), client());
    app.load_data(Ok(repos)).expect("load");
    app
}

fn key(code: KeyCode) -> Key {
    Key { code, ctrl: false }
}

fn ch(c: char) -> Key {
    key(KeyCode::Char(c))
}

fn three_repos() -> Vec<Repo> {
    vec![repo("a", Some("first")), repo("b", None), repo("c", Some("third"))]
}

fn reply(content: &str) -> Json {
    Json::Object(vec![(
        "choices".to_string(),
        Json::Array(vec![Json::Object(vec![(
            "message".to_string(),
            Json::Object(vec![
                ("role".to_string(), Json::String("assistant".to_string())),
                ("content".to_string(), Json::String(content.to_string())),
            ]),
        )])]),
    )])
}

#[test]
fn new_app_starts_loading_with_nothing_selected() {
    let app = App::new(config_with_key(Some("sk")), client());
    assert!(matches!(app.state, AppState::Loading));
    assert!(app.ai_suggester.is_some());
    assert!(app.starred_repos.is_empty());
    assert!(app.user_lists.is_empty());
    assert_eq!(app.selected_repo_idx, 0);
    assert_eq!(app.selected_list_idx, 0);
    assert!(app.message.is_none());
    assert!(!app.should_quit);
    assert_eq!(app.github_client.username(), "alice");
    let app2 = App::new(config_with_key(None), client());
    assert!(app2.ai_suggester.is_none());
}

#[test]
fn load_data_shows_repositories_and_standard_lists() {
    let app = loaded_app(None, three_repos());
    assert!(matches!(app.state, AppState::RepoList));
    assert_eq!(app.starred_repos.len(), 3);
    let names: Vec<&str> = app.user_lists.iter().map(|l| l.name.as_str()).collect();
    assert_eq!(names, vec!["Frontend", "Backend", "Tools", "Learning"]);
}

#[test]
fn load_data_without_repositories_shows_error() {
    let app = loaded_app(None, vec![]);
    match &app.state {
        AppState::Error(m) => assert_eq!(m, "No starred repositories found."),
        _ => panic!("expected the error screen"),
    }
}

#[test]
fn load_data_failure_keeps_loading() {
    let mut app = App::new(config_with_key(None), client());
    let r = app.load_data(Err(gh_stars::GithubError::StarredRepos("offline".to_string())));
    let e = r.unwrap_err();
    assert_eq!(e.message(), "Failed to load starred repositories");
    assert!(matches!(app.state, AppState::Loading));
    assert!(app.starred_repos.is_empty());
}

#[test]
fn repo_navigation_wraps_and_clears_suggestion() {
    let mut app = loaded_app(None, three_repos());
    app.suggested_list = Some("Tools".to_string());
    app.next_repo();
    assert_eq!(app.selected_repo_idx, 1);
    assert!(app.suggested_list.is_none());
    app.next_repo();
    app.next_repo();
    assert_eq!(app.selected_repo_idx, 0);
    app.prev_repo();
    assert_eq!(app.selected_repo_idx, 2);
    app.prev_repo();
    assert_eq!(app.selected_repo_idx, 1);
}

#[test]
fn list_navigation_wraps_and_keeps_suggestion() {
    let mut app = loaded_app(None, three_repos());
    app.suggested_list = Some("Tools".to_string());
    app.prev_list();
    assert_eq!(app.selected_list_idx, 3);
    app.next_list();
    assert_eq!(app.selected_list_idx, 0);
    assert_eq!(app.suggested_list.as_deref(), Some("Tools"));
}

#[test]
fn navigation_on_empty_lists_does_nothing() {
    let mut app = App::new(config_with_key(None), client());
    app.selected_repo_idx = 5;
    app.next_repo();
    app.prev_repo();
    app.next_list();
    app.prev_list();
    assert_eq!(app.selected_repo_idx, 5);
    assert_eq!(app.selected_list_idx, 0);
}

#[test]
fn prev_repo_undoes_next_repo_on_values() {
    let mut app = loaded_app(None, three_repos());
    for start in 0..3 {
        app.selected_repo_idx = start;
        app.next_repo();
        app.prev_repo();
        assert_eq!(app.selected_repo_idx, start);
    }
}

#[test]
fn next_list_cycles_through_every_list() {
    let mut app = loaded_app(None, three_repos());
    app.selected_list_idx = 2;
    for _ in 0..app.user_lists.len() {
        app.next_list();
    }
    assert_eq!(app.selected_list_idx, 2);
}

#[test]
fn suggestion_without_key_reports_missing_key() {
    let mut app = loaded_app(None, three_repos());
    let r = app.get_ai_suggestion();
    assert!(r.is_none());
    assert_eq!(app.message.as_deref(), Some("OpenAI API key not configured."));
}

#[test]
fn suggestion_with_key_builds_request() {
    let mut app = loaded_app(Some("sk-1"), three_repos());
    let r = app.get_ai_suggestion().expect("a request");
    assert_eq!(r.url, "https://api.openai.com/v1/chat/completions");
    assert_eq!(r.authorization, "Bearer sk-1");
    assert!(r.body.starts_with("{\"max_tokens\":50,\"messages\":[{\"content\":\"I have a GitHub repository called 'a'"));
    assert!(r.body.ends_with(",\"role\":\"user\"}],\"model\":\"gpt-3.5-turbo\"}"));
    assert_eq!(app.message.as_deref(), Some("Generating AI suggestion..."));
}

#[test]
fn suggestion_without_lists_clears_suggestion() {
    let mut app = loaded_app(Some("sk-1"), three_repos());
    app.user_lists.clear();
    app.suggested_list = Some("x".to_string());
    app.message = Some("m".to_string());
    assert!(app.get_ai_suggestion().is_none());
    assert!(app.suggested_list.is_none());
    assert!(app.message.is_none());
}

#[test]
fn suggestion_with_selection_out_of_range_does_nothing() {
    let mut app = loaded_app(Some("sk-1"), three_repos());
    app.selected_repo_idx = 7;
    assert!(app.get_ai_suggestion().is_none());
    assert!(app.message.is_none());
}

#[test]
fn applied_suggestion_selects_list() {
    let mut app = loaded_app(Some("sk-1"), three_repos());
    app.message = Some("Generating AI suggestion...".to_string());
    app.apply_ai_suggestion(Ok(reply("  Tools\n")));
    assert_eq!(app.suggested_list.as_deref(), Some("Tools"));
    assert_eq!(app.selected_list_idx, 2);
    assert!(app.message.is_none());
}

#[test]
fn unknown_suggestion_is_dropped() {
    let mut app = loaded_app(Some("sk-1"), three_repos());
    app.selected_list_idx = 1;
    app.apply_ai_suggestion(Ok(reply("Databases")));
    assert!(app.suggested_list.is_none());
    assert_eq!(app.selected_list_idx, 1);
}

#[test]
fn failed_suggestion_shows_error() {
    let mut app = loaded_app(Some("sk-1"), three_repos());
    app.apply_ai_suggestion(Err(AiError::Send));
    assert_eq!(app.message.as_deref(), Some("AI suggestion error: Failed to send request to OpenAI API"));
    app.apply_ai_suggestion(Err(AiError::Parse));
    assert_eq!(app.message.as_deref(), Some("AI suggestion error: Failed to parse OpenAI API response"));
}

#[test]
fn adding_repo_reports_it() {
    let mut app = loaded_app(None, three_repos());
    app.selected_repo_idx = 2;
    app.selected_list_idx = 3;
    assert_eq!(
        app.add_current_repo_to_list().unwrap().as_deref(),
        Some("Adding repository octo/c to list 'Learning'")
    );
    assert_eq!(app.message.as_deref(), Some("Added 'c' to list 'Learning'"));
}

#[test]
fn adding_with_selection_out_of_range_does_nothing() {
    let mut app = loaded_app(None, three_repos());
    app.selected_list_idx = 9;
    assert_eq!(app.add_current_repo_to_list().unwrap(), None);
    assert!(app.message.is_none());
}

#[test]
fn screen_setters_change_state() {
    let mut app = loaded_app(None, three_repos());
    app.select_list_selector();
    assert!(matches!(app.state, AppState::ListSelect));
    app.confirm_action();
    assert!(matches!(app.state, AppState::Confirmation));
    app.set_error("boom".to_string());
    assert!(matches!(&app.state, AppState::Error(m) if m == "boom"));
    app.select_repo_list();
    assert!(matches!(app.state, AppState::RepoList));
}

#[test]
fn keys_walk_through_filing_a_repository() {
    let mut app = loaded_app(None, three_repos());
    assert!(app.handle_key(ch('j')).is_none());
    assert_eq!(app.selected_repo_idx, 1);
    app.handle_key(key(KeyCode::Down));
    app.handle_key(key(KeyCode::Up));
    assert_eq!(app.selected_repo_idx, 1);
    app.handle_key(key(KeyCode::Enter));
    assert!(matches!(app.state, AppState::ListSelect));
    app.handle_key(ch('j'));
    assert_eq!(app.selected_list_idx, 1);
    app.handle_key(ch('l'));
    assert!(matches!(app.state, AppState::Confirmation));
    app.handle_key(ch('n'));
    assert!(matches!(app.state, AppState::ListSelect));
    app.handle_key(key(KeyCode::Enter));
    let logged = app.handle_key(ch('y'));
    assert!(matches!(logged, Some(KeyAction::LogInfo(ref l)) if l == "Adding repository octo/b to list 'Backend'"));
    assert!(matches!(app.state, AppState::RepoList));
    assert_eq!(app.message.as_deref(), Some("Added 'b' to list 'Backend'"));
    assert!(!app.should_quit);
}

#[test]
fn escape_leaves_list_selector_and_quits_repo_list() {
    let mut app = loaded_app(None, three_repos());
    app.handle_key(ch('l'));
    app.handle_key(key(KeyCode::Esc));
    assert!(matches!(app.state, AppState::RepoList));
    assert!(!app.should_quit);
    app.handle_key(ch('q'));
    assert!(app.should_quit);
}

#[test]
fn error_screen_returns_on_enter() {
    let mut app = loaded_app(None, three_repos());
    app.set_error("bad".to_string());
    app.handle_key(ch('x'));
    assert!(matches!(app.state, AppState::Error(_)));
    app.handle_key(key(KeyCode::Enter));
    assert!(matches!(app.state, AppState::RepoList));
}

#[test]
fn control_c_quits_from_every_screen() {
    for setup in 0..5 {
        let mut app = loaded_app(None, three_repos());
        match setup {
            0 => app.state = AppState::Loading,
            1 => app.state = AppState::RepoList,
            2 => app.state = AppState::ListSelect,
            3 => app.state = AppState::Confirmation,
            _ => app.state = AppState::Error("e".to_string()),
        }
        let r = app.handle_key(Key { code: KeyCode::Char('c'), ctrl: true });
        assert!(r.is_none());
        assert!(app.should_quit);
    }
}

#[test]
fn loading_screen_ignores_keys() {
    let mut app = App::new(config_with_key(None), client());
    app.handle_key(ch('q'));
    app.handle_key(key(KeyCode::Enter));
    assert!(matches!(app.state, AppState::Loading));
    assert!(!app.should_quit);
}

#[test]
fn s_key_asks_for_suggestion() {
    let mut app = loaded_app(Some("k"), three_repos());
    let r = app.handle_key(ch('s'));
    assert!(matches!(r, Some(KeyAction::SendSuggestion(_))));
    let mut other = loaded_app(None, three_repos());
    assert!(other.handle_key(ch('s')).is_none());
    assert_eq!(other.message.as_deref(), Some("OpenAI API key not configured."));
    let lists: Vec<GithubList> = other.user_lists;
    assert_eq!(lists.len(), 4);
}
