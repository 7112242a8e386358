//! Sorting starred GitHub repositories into lists: the application's state,
//! its key handling, the AI suggestion protocol and what the screen shows.
pub mod text;
pub mod json;
pub mod config;
pub mod github;
pub mod ai;
pub mod app;
pub mod view;

pub use ai::{AiError, AiRequest, AiSuggester};
pub use app::{App, AppError, AppState, Key, KeyAction, KeyCode};
pub use config::Config;
pub use github::{GitHubClient, GithubError, GithubList, Repo};
pub use json::Json;
