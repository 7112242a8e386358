use std::sync::Arc;

use gh_stars::ai::AiSuggester;
use gh_stars::github::{GitHubClient, GithubList, Repo};
use gh_stars::json::Json;
use gh_stars::text::{join_strings, trim_text};
use gh_stars::view::{
    main_panel, message_box, Panel, Tone,
    centered_margin, confirm_text, footer_spans, list_rows, list_title, repo_rows, truncate_description,
};
use gh_stars::{App, AppState, Config};

fn client() -> GitHubClient {
    let rt: &'static tokio::runtime::Runtime =
        Box::leak(Box::new(tokio::runtime::Runtime::new().expect("runtime")));
    let _guard = rt.enter();
    let octo = octocrab::Octocrab::builder()
        .personal_token("token".to_string())
        .build()
        .expect("client");
    GitHubClient::new(Arc::new(octo), "bob".to_string())
}

fn list(name: &str, desc: Option<&str>) -> GithubList {
    GithubList { name: name.to_string(), description: desc.map(|d| d.to_string()) }
}

fn repo(name: &str, desc: Option<&str>, topics: Option<Vec<&str>>) -> Repo {
    Repo {
        name: name.to_string(),
        description: desc.map(|d| d.to_string()),
        topics: topics.map(|t| t.into_iter().map(|s| s.to_string()).collect()),
        owner_login: None,
    }
}

fn app_with(repos: Vec<Repo>) -> App {
    let mut config = Config::default();
    config.github_token = Some("token".to_string());
    config.github_username = Some("bob".to_string());
    let mut app = App::new(config, client());
    app.load_data(Ok(repos)).expect("load");
    app
}

#[test]
fn config_default_is_empty() {
    let c = Config::default();
    assert!(c.github_token.is_none());
    assert!(c.github_username.is_none());
    assert!(c.openai_api_key.is_none());
    assert!(c.default_list.is_none());
    assert!(!c.has_credentials());
}

#[test]
fn config_overrides_win_and_absent_ones_keep_values() {
    let mut c = Config::default();
    c.github_token = Some("old".to_string());
    c.openai_api_key = Some("key".to_string());
    c.default_list = Some("Tools".to_string());
    c.apply_overrides(Some("new".to_string()), Some("alice".to_string()), None);
    assert_eq!(c.github_token.as_deref(), Some("new"));
    assert_eq!(c.github_username.as_deref(), Some("alice"));
    assert_eq!(c.openai_api_key.as_deref(), Some("key"));
    assert_eq!(c.default_list.as_deref(), Some("Tools"));
    assert!(c.has_credentials());
}

#[test]
fn trim_removes_unicode_white_space() {
    assert_eq!(trim_text("  Tools \n"), "Tools");
    assert_eq!(trim_text("\u{3000}Backend\u{a0}"), "Backend");
    assert_eq!(trim_text(" \t "), "");
    assert_eq!(trim_text("a b"), "a b");
    assert_eq!(trim_text(""), "");
}

#[test]
fn join_puts_separator_between_parts() {
    let parts = vec!["rust".to_string(), "cli".to_string(), "tui".to_string()];
    assert_eq!(join_strings(&parts, ", "), "rust, cli, tui");
    assert_eq!(join_strings(&vec![], ", "), "");
    assert_eq!(join_strings(&vec!["one".to_string()], ", "), "one");
}

#[test]
fn json_lookup_takes_first_matching_key() {
    let v = Json::Object(vec![
        ("a".to_string(), Json::Number("1".to_string())),
        ("b".to_string(), Json::String("x".to_string())),
        ("b".to_string(), Json::String("y".to_string())),
    ]);
    assert_eq!(v.get_key("b").and_then(|j| j.as_str()), Some("x"));
    assert!(v.get_key("c").is_none());
    assert!(v.get_index(0).is_none());
    let arr = Json::Array(vec![Json::Null, Json::Bool(true)]);
    assert!(matches!(arr.get_index(1), Some(Json::Bool(true))));
    assert!(arr.get_index(2).is_none());
    assert!(arr.get_key("a").is_none());
    assert_eq!(arr.as_array().map(|a| a.len()), Some(2));
}

#[test]
fn user_lists_are_the_standard_four() {
    let lists = client().get_user_lists().expect("lists");
    assert_eq!(lists.len(), 4);
    assert_eq!(lists[0].name, "Frontend");
    assert_eq!(lists[0].description.as_deref(), Some("Frontend development projects and libraries"));
    assert_eq!(lists[1].description.as_deref(), Some("Backend development and server technologies"));
    assert_eq!(lists[2].description.as_deref(), Some("Development tools and utilities"));
    assert_eq!(lists[3].name, "Learning");
    assert_eq!(lists[3].description.as_deref(), Some("Educational resources and learning projects"));
}

#[test]
fn adding_to_a_list_succeeds_with_log_line() {
    assert_eq!(
        client().add_repo_to_list("octo", "repo", "Tools").unwrap(),
        "Adding repository octo/repo to list 'Tools'"
    );
}

#[test]
fn starred_route_names_the_user() {
    assert_eq!(client().starred_route(), "users/bob/starred");
}

#[test]
fn request_body_escapes_control_characters() {
    let ai = AiSuggester::new("k".to_string());
    let r = repo("tab\\there\u{1}", None, None);
    let lists = vec![list("L", None)];
    let req = ai.suggest_list_request(&r, &lists).expect("request");
    assert!(req.body.contains(r#"called 'tab\\there\u0001' with description: ''.\nIt has"#));
    assert_eq!(req.prompt, AiSuggester::prompt(&r, &lists));
}

#[test]
fn starred_items_come_from_the_items_array() {
    let page = Json::Object(vec![(
        "items".to_string(),
        Json::Array(vec![Json::Null, Json::Object(vec![])]),
    )]);
    assert_eq!(GitHubClient::starred_items(&page).map(|v| v.len()), Some(2));
    let no_items = Json::Object(vec![("items".to_string(), Json::Null)]);
    assert!(GitHubClient::starred_items(&no_items).is_none());
    assert!(GitHubClient::starred_items(&Json::Array(vec![])).is_none());
}

#[test]
fn unparsed_entries_are_left_out() {
    let parsed = vec![Some(repo("a", None, None)), None, Some(repo("c", None, None)), None];
    let repos = GitHubClient::collect_repos(parsed);
    let names: Vec<&str> = repos.iter().map(|r| r.name.as_str()).collect();
    assert_eq!(names, vec!["a", "c"]);
}

#[test]
fn prompt_describes_repository_and_lists() {
    let r = repo("ratatui", Some("TUI library"), Some(vec!["rust", "tui"]));
    let lists = vec![list("Tools", Some("Dev tools")), list("Misc", None)];
    let p = AiSuggester::prompt(&r, &lists);
    assert_eq!(
        p,
        "I have a GitHub repository called 'ratatui' with description: 'TUI library'.\n\
         It has the following topics: rust, tui.\n\n\
         I want to add it to one of my GitHub lists. Here are my available lists:\n\
         - Tools: Dev tools\n- Misc: \n\n\
         Which list would be the most appropriate for this repository? \
         Return just the list name without any explanation."
    );
}

#[test]
fn request_body_escapes_the_prompt() {
    let ai = AiSuggester::new("sk-test".to_string());
    let r = repo("say \"hi\"", None, None);
    let lists = vec![list("Tools", None)];
    let req = ai.suggest_list_request(&r, &lists).expect("request");
    let expected_prompt = AiSuggester::prompt(&r, &lists);
    let quoted = serde_json::to_string(&expected_prompt).unwrap();
    assert!(quoted.contains("\\\"hi\\\""));
    assert_eq!(
        req.body,
        format!(
            "{{\"max_tokens\":50,\"messages\":[{{\"content\":{},\"role\":\"user\"}}],\"model\":\"gpt-3.5-turbo\"}}",
            quoted
        )
    );
    let parsed: serde_json::Value = serde_json::from_str(&req.body).unwrap();
    assert_eq!(parsed["messages"][0]["content"], serde_json::Value::String(expected_prompt));
    assert_eq!(req.authorization, "Bearer sk-test");
    assert!(ai.suggest_list_request(&r, &[]).is_none());
}

#[test]
fn reply_content_is_trimmed_and_checked_against_lists() {
    let lists = vec![list("Tools", None), list("Learning", None)];
    let reply = |content: Json| {
        Json::Object(vec![(
            "choices".to_string(),
            Json::Array(vec![Json::Object(vec![(
                "message".to_string(),
                Json::Object(vec![("content".to_string(), content)]),
            )])]),
        )])
    };
    assert_eq!(
        AiSuggester::suggested_list_from_response(&reply(Json::String(" Learning\n".to_string())), &lists)
            .as_deref(),
        Some("Learning")
    );
    assert!(AiSuggester::suggested_list_from_response(&reply(Json::String("Games".to_string())), &lists)
        .is_none());
    assert!(AiSuggester::suggested_list_from_response(&reply(Json::Number("3".to_string())), &lists)
        .is_none());
    assert!(AiSuggester::suggested_list_from_response(&Json::Object(vec![]), &lists).is_none());
    assert!(AiSuggester::suggested_list_from_response(
        &Json::Object(vec![("choices".to_string(), Json::Array(vec![]))]),
        &lists
    )
    .is_none());
}

#[test]
fn footer_follows_the_screen() {
    let f = footer_spans(&AppState::RepoList);
    let texts: Vec<(&str, bool)> = f.iter().map(|s| (s.text.as_str(), s.bold)).collect();
    assert_eq!(
        texts,
        vec![
            ("↑/↓: Navigate • ", false),
            ("Enter: Select • ", false),
            ("s: AI Suggestion", true),
            (" • q: Quit", false)
        ]
    );
    assert_eq!(footer_spans(&AppState::Loading)[0].text, "Loading...");
    assert_eq!(footer_spans(&AppState::ListSelect)[0].text, "↑/↓: Navigate • Enter: Confirm • Esc: Back");
    assert_eq!(footer_spans(&AppState::Confirmation)[0].text, "y: Confirm • n: Cancel");
    assert_eq!(footer_spans(&AppState::Error("x".to_string()))[0].text, "Press Enter to continue");
}

#[test]
fn long_descriptions_are_cut_to_sixty_bytes() {
    let long = "x".repeat(70);
    let t = truncate_description(&long);
    assert_eq!(t, format!("{}...", "x".repeat(57)));
    assert_eq!(t.len(), 60);
    let exact = "y".repeat(60);
    assert_eq!(truncate_description(&exact), exact);
    let accented = format!("{}é{}", "a".repeat(55), "b".repeat(10));
    assert_eq!(truncate_description(&accented), format!("{}é...", "a".repeat(55)));
}

#[test]
fn repo_rows_mark_the_selection_and_default_description() {
    let mut app = app_with(vec![repo("a", Some("short"), None), repo("b", None, None)]);
    app.selected_repo_idx = 1;
    let rows = repo_rows(&app);
    assert_eq!(rows.len(), 2);
    assert_eq!(rows[0].name, "a");
    assert_eq!(rows[0].description, "short");
    assert!(!rows[0].selected);
    assert_eq!(rows[1].description, "No description");
    assert!(rows[1].selected);
}

#[test]
fn list_rows_mark_selection_and_suggestion() {
    let mut app = app_with(vec![repo("a", None, None)]);
    app.selected_list_idx = 1;
    app.suggested_list = Some("Tools".to_string());
    let rows = list_rows(&app);
    assert_eq!(rows.len(), 4);
    assert!(rows[1].selected && !rows[1].suggested);
    assert!(rows[2].suggested && !rows[2].selected);
    assert_eq!(rows[2].description.as_deref(), Some("Development tools and utilities"));
    assert_eq!(list_title(&app), "Select List (Green = AI Suggested)");
    app.suggested_list = None;
    assert_eq!(list_title(&app), "Select List");
}

#[test]
fn confirmation_names_repository_and_list() {
    let mut app = app_with(vec![repo("a", None, None)]);
    app.selected_list_idx = 3;
    assert_eq!(confirm_text(&app).as_deref(), Some("Add repository 'a' to list 'Learning'?"));
    app.selected_list_idx = 4;
    assert!(confirm_text(&app).is_none());
}

#[test]
fn popup_margins_centre_the_area() {
    assert_eq!(centered_margin(60), 20);
    assert_eq!(centered_margin(20), 40);
    assert_eq!(centered_margin(100), 0);
    assert_eq!(centered_margin(0), 50);
}

fn repository_json(name: &str, with_owner: bool) -> String {
    let owner = if with_owner {
        r#","owner":{"login":"octo","id":1,"node_id":"N","avatar_url":"https://a.example/x","gravatar_id":"","url":"https://api.github.com/users/octo","html_url":"https://github.com/octo","followers_url":"https://api.github.com/users/octo/followers","following_url":"https://api.github.com/users/octo/following","gists_url":"https://api.github.com/users/octo/gists","starred_url":"https://api.github.com/users/octo/starred","subscriptions_url":"https://api.github.com/users/octo/subscriptions","organizations_url":"https://api.github.com/users/octo/orgs","repos_url":"https://api.github.com/users/octo/repos","events_url":"https://api.github.com/users/octo/events","received_events_url":"https://api.github.com/users/octo/received_events","type":"User","site_admin":false}"#
    } else {
        ""
    };
    format!(
        r#"{{"id":7,"name":"{}","url":"https://api.github.com/repos/octo/{}","description":"A tool","topics":["cli","rust"]{}}}"#,
        name, name, owner
    )
}

#[test]
fn repositories_are_read_from_json_and_bad_entries_dropped() {
    let items = vec![
        repository_json("first", false),
        "{\"name\":\"no id\"}".to_string(),
        "not json".to_string(),
        repository_json("second", true),
    ];
    let repos = GitHubClient::repos_from_items(&items);
    assert_eq!(repos.len(), 2);
    assert_eq!(repos[0].name, "first");
    assert_eq!(repos[0].description.as_deref(), Some("A tool"));
    assert_eq!(repos[0].topics.as_ref().map(|t| t.join(",")), Some("cli,rust".to_string()));
    assert!(repos[0].owner_login.is_none());
    assert_eq!(repos[1].name, "second");
    assert_eq!(repos[1].owner_login.as_deref(), Some("octo"));
}

#[test]
fn json_text_is_compact_and_escaped() {
    let v = Json::Object(vec![
        ("a\"b".to_string(), Json::Array(vec![Json::Null, Json::Bool(true), Json::Number("-1.5".to_string())])),
        ("c".to_string(), Json::String("x\ny".to_string())),
        ("d".to_string(), Json::Object(vec![])),
        ("e".to_string(), Json::Array(vec![])),
    ]);
    assert_eq!(v.to_text(), r#"{"a\"b":[null,true,-1.5],"c":"x\ny","d":{},"e":[]}"#);
    let parsed: serde_json::Value = serde_json::from_str(&v.to_text()).unwrap();
    assert_eq!(parsed["c"], serde_json::Value::String("x\ny".to_string()));
}

fn repository_value(name: &str) -> Json {
    Json::Object(vec![
        ("id".to_string(), Json::Number("7".to_string())),
        ("name".to_string(), Json::String(name.to_string())),
        ("url".to_string(), Json::String(format!("https://api.github.com/repos/octo/{}", name))),
        ("description".to_string(), Json::Null),
        (
            "topics".to_string(),
            Json::Array(vec![Json::String("tui".to_string())]),
        ),
    ])
}

#[test]
fn page_items_become_repositories_in_order() {
    let page = Json::Object(vec![(
        "items".to_string(),
        Json::Array(vec![
            repository_value("one"),
            Json::String("not a repository".to_string()),
            repository_value("two"),
        ]),
    )]);
    let repos = GitHubClient::repos_from_page(&page);
    let names: Vec<&str> = repos.iter().map(|r| r.name.as_str()).collect();
    assert_eq!(names, vec!["one", "two"]);
    assert!(repos[0].description.is_none());
    assert_eq!(repos[1].topics.as_ref().map(|t| t.len()), Some(1));
}

#[test]
fn page_without_items_has_no_repositories() {
    assert!(GitHubClient::repos_from_page(&Json::Array(vec![repository_value("one")])).is_empty());
    let page = Json::Object(vec![("items".to_string(), Json::Null)]);
    assert!(GitHubClient::repos_from_page(&page).is_empty());
}

#[test]
fn main_panel_follows_the_screen() {
    let mut app = app_with(vec![repo("a", None, None)]);
    assert!(matches!(main_panel(&app), Panel::Repos));
    app.state = AppState::ListSelect;
    assert!(matches!(main_panel(&app), Panel::Lists));
    app.state = AppState::Confirmation;
    match main_panel(&app) {
        Panel::Text { title, text, tone } => {
            assert_eq!(title, "Confirm");
            assert_eq!(text, "Add repository 'a' to list 'Frontend'?");
            assert!(matches!(tone, Tone::Plain));
        }
        _ => panic!("expected the confirmation"),
    }
    app.selected_list_idx = 9;
    assert!(matches!(main_panel(&app), Panel::Blank));
    app.state = AppState::Error("bad".to_string());
    match main_panel(&app) {
        Panel::Text { title, text, tone } => {
            assert_eq!(title, "Error");
            assert_eq!(text, "bad");
            assert!(matches!(tone, Tone::Red));
        }
        _ => panic!("expected the error"),
    }
    app.state = AppState::Loading;
    assert!(matches!(main_panel(&app), Panel::Text { ref text, .. } if text == "Loading data..."));
    assert!(message_box(&app).is_none());
    app.message = Some("hello".to_string());
    assert_eq!(message_box(&app).as_deref(), Some("hello"));
}
