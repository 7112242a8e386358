//! GitHub-side data: starred repositories, the user's lists and the client
//! that the application talks to GitHub through.
use std::sync::Arc;
use vstd::prelude::*;
use vstd::std_specs::iter::IteratorSpec;
use crate::json::{Json, json_text};
use crate::text::string_views;

verus! {

/// The GitHub API client of the `octocrab` crate.
#[verifier::external_type_specification]
#[verifier::external_body]
pub struct ExOctocrab(octocrab::Octocrab);

/// A list that starred repositories can be filed into.
#[derive(Debug, Clone)]
pub struct GithubList {
    pub name: String,
    pub description: Option<String>,
}

/// What the application reads of a starred repository.
#[derive(Debug)]
pub struct Repo {
    pub name: String,
    pub description: Option<String>,
    pub topics: Option<Vec<String>>,
    /// The login of the repository's owner, when GitHub reports one.
    pub owner_login: Option<String>,
}

/// What a repository holds, as character sequences.
pub ghost struct RepoView {
    pub name: Seq<char>,
    pub description: Option<Seq<char>>,
    pub topics: Option<Seq<Seq<char>>>,
    pub owner_login: Option<Seq<char>>,
}

/// The characters of an optional string.
pub open spec fn opt_view(s: Option<String>) -> Option<Seq<char>> {
    match s {
        Some(t) => Some(t@),
        None => None,
    }
}

impl View for Repo {
    type V = RepoView;

    open spec fn view(&self) -> RepoView {
        RepoView {
            name: self.name@,
            description: opt_view(self.description),
            topics: match self.topics {
                Some(t) => Some(t@.map_values(|s: String| s@)),
                None => None,
            },
            owner_login: opt_view(self.owner_login),
        }
    }
}

/// The repository that the JSON text `text` describes, as `serde_json` reads
/// it into `octocrab::models::Repository`; none when it does not parse.
pub uninterp spec fn repository_json(text: Seq<char>) -> Option<RepoView>;

/// Reads a repository from JSON text with `serde_json::from_str` into
/// `octocrab::models::Repository` and keeps its name, description, topics and
/// owner's login. The contract claims only that the outcome is
/// `repository_json` of the text; which texts parse is left to `serde_json`
/// and `octocrab`'s model.
#[verifier::external_body]
fn parse_repository(text: &str) -> (r: Option<Repo>)
    ensures
        r matches Some(repo) ==> repository_json(text@) == Some(repo@),
        r is None ==> repository_json(text@) is None,
{
    serde_json::from_str::<octocrab::models::Repository>(text).ok().map(
        |r| Repo {
            name: r.name,
            description: r.description,
            topics: r.topics,
            owner_login: r.owner.map(|o| o.login),
        },
    )
}

/// The repositories that the JSON texts describe, in order, leaving out the
/// texts that do not parse as repositories.
pub open spec fn repos_of_texts(texts: Seq<Seq<char>>) -> Seq<RepoView>
    decreases texts.len(),
{
    if texts.len() == 0 {
        Seq::empty()
    } else {
        repos_of_texts(texts.drop_last()) + match repository_json(texts.last()) {
            Some(r) => seq![r],
            None => Seq::empty(),
        }
    }
}

/// A failure while talking to GitHub.
#[derive(Debug)]
pub enum GithubError {
    /// The request for the starred repositories failed; the detail is the client's report.
    StarredRepos(String),
}

impl GithubError {
    /// The message shown for this error.
    pub fn message(&self) -> (r: String)
        ensures
            r@ == "Failed to get starred repos"@,
    {
        String::from_str("Failed to get starred repos")
    }
}

/// Whether `l` is named `name` and described by `desc`.
pub open spec fn list_is(l: GithubList, name: Seq<char>, desc: Seq<char>) -> bool {
    &&& l.name@ == name
    &&& l.description matches Some(d) && d@ == desc
}

/// The placeholder lists offered in place of the user's own: GitHub offers no
/// API to read a user's lists.
pub open spec fn standard_lists(lists: Seq<GithubList>) -> bool {
    &&& lists.len() == 4
    &&& list_is(lists[0], "Frontend"@, "Frontend development projects and libraries"@)
    &&& list_is(lists[1], "Backend"@, "Backend development and server technologies"@)
    &&& list_is(lists[2], "Tools"@, "Development tools and utilities"@)
    &&& list_is(lists[3], "Learning"@, "Educational resources and learning projects"@)
}

/// The log line that records filing `owner/name` under `list`.
pub open spec fn adding_text(owner: Seq<char>, name: Seq<char>, list: Seq<char>) -> Seq<char> {
    "Adding repository "@ + owner + "/"@ + name + " to list '"@ + list + "'"@
}

/// The repositories among `parsed`, in order, leaving out the entries that did not parse.
pub open spec fn parsed_repos(parsed: Seq<Option<Repo>>) -> Seq<Repo>
    decreases parsed.len(),
{
    if parsed.len() == 0 {
        Seq::empty()
    } else {
        parsed_repos(parsed.drop_last()) + match parsed.last() {
            Some(r) => seq![r],
            None => Seq::empty(),
        }
    }
}

fn new_list(name: &str, description: &str) -> (r: GithubList)
    ensures
        list_is(r, name@, description@),
{
    GithubList { name: String::from_str(name), description: Some(String::from_str(description)) }
}

proof fn lemma_parsed_views(parsed: Seq<Option<Repo>>, texts: Seq<Seq<char>>)
    requires
        parsed.len() == texts.len(),
        forall|k: int|
            0 <= k < parsed.len() ==> match #[trigger] parsed[k] {
                Some(repo) => repository_json(texts[k]) == Some(repo@),
                None => repository_json(texts[k]) is None,
            },
    ensures
        parsed_repos(parsed).map_values(|repo: Repo| repo@) == repos_of_texts(texts),
    decreases parsed.len(),
{
    if parsed.len() > 0 {
        let p = parsed.drop_last();
        let t = texts.drop_last();
        assert forall|k: int| 0 <= k < p.len() implies match #[trigger] p[k] {
            Some(repo) => repository_json(t[k]) == Some(repo@),
            None => repository_json(t[k]) is None,
        } by {
            assert(p[k] == parsed[k]);
            assert(t[k] == texts[k]);
        }
        lemma_parsed_views(p, t);
        let last = parsed[parsed.len() - 1];
        assert(match last {
            Some(repo) => repository_json(texts.last()) == Some(repo@),
            None => repository_json(texts.last()) is None,
        });
        let tail: Seq<Repo> = match parsed.last() {
            Some(r) => seq![r],
            None => Seq::empty(),
        };
        assert((parsed_repos(p) + tail).map_values(|repo: Repo| repo@) =~= parsed_repos(p).map_values(
            |repo: Repo| repo@,
        ) + tail.map_values(|repo: Repo| repo@));
    }
}

/// A client for the GitHub API, acting for one user.
pub struct GitHubClient {
    client: Arc<octocrab::Octocrab>,
    username: String,
}

impl GitHubClient {
    /// The user the client acts for.
    pub closed spec fn user(&self) -> Seq<char> {
        self.username@
    }

    /// The API client that requests go through.
    pub closed spec fn api_client(&self) -> Arc<octocrab::Octocrab> {
        self.client
    }

    /// A client that sends its requests through `client` on behalf of `username`.
    pub fn new(client: Arc<octocrab::Octocrab>, username: String) -> (r: GitHubClient)
        ensures
            r.user() == username@,
            r.api_client() == client,
    {
        GitHubClient { client, username }
    }

    /// The underlying API client.
    pub fn api(&self) -> (r: &Arc<octocrab::Octocrab>)
        ensures
            *r == self.api_client(),
    {
        &self.client
    }

    /// The user the client acts for.
    pub fn username(&self) -> (r: &String)
        ensures
            r@ == self.user(),
    {
        &self.username
    }

    /// The user's lists. GitHub offers no API to read them, so these are four
    /// placeholder lists.
    pub fn get_user_lists(&self) -> (r: Result<Vec<GithubList>, GithubError>)
        ensures
            r matches Ok(lists) && standard_lists(lists@),
    {
        let mut lists: Vec<GithubList> = Vec::new();
        lists.push(new_list("Frontend", "Frontend development projects and libraries"));
        lists.push(new_list("Backend", "Backend development and server technologies"));
        lists.push(new_list("Tools", "Development tools and utilities"));
        lists.push(new_list("Learning", "Educational resources and learning projects"));
        Ok(lists)
    }

    /// Files `repo_owner/repo_name` under the list `list_name`. GitHub offers
    /// no API for this, so it succeeds without a request; the result is the
    /// line to record in the log.
    pub fn add_repo_to_list(&self, repo_owner: &str, repo_name: &str, list_name: &str) -> (r:
        Result<String, GithubError>)
        ensures
            r matches Ok(line) && line@ == adding_text(repo_owner@, repo_name@, list_name@),
    {
        let mut line = String::from_str("Adding repository ");
        line.append(repo_owner);
        line.append("/");
        line.append(repo_name);
        line.append(" to list '");
        line.append(list_name);
        line.append("'");
        Ok(line)
    }

    /// The API route that lists the starred repositories of the user the
    /// client acts for.
    pub fn starred_route(&self) -> (r: String)
        ensures
            r@ == "users/"@ + self.user() + "/starred"@,
    {
        let mut route = String::from_str("users/");
        route.append(self.username.as_str());
        route.append("/starred");
        route
    }

    /// The entries of the `items` array of a page of starred repositories.
    pub fn starred_items(page: &Json) -> (r: Option<&Vec<Json>>)
        ensures
            r matches Some(items) ==> page.member("items"@) == Some(Json::Array(*items)),
            r is None ==> !(page.member("items"@) matches Some(Json::Array(_))),
    {
        match page.get_key("items") {
            Some(items) => items.as_array(),
            None => None,
        }
    }

    /// The starred repositories described by the JSON texts of a page's
    /// entries, in order: the entries that do not parse as repositories are left out.
    pub fn repos_from_items(items: &Vec<String>) -> (r: Vec<Repo>)
        ensures
            r@.map_values(|repo: Repo| repo@) == repos_of_texts(string_views(items@)),
    {
        let mut parsed: Vec<Option<Repo>> = Vec::new();
        let mut i: usize = 0;
        while i < items.len()
            invariant
                i <= items@.len(),
                parsed@.len() == i,
                forall|k: int|
                    0 <= k < i ==> match #[trigger] parsed@[k] {
                        Some(repo) => repository_json(items@[k]@) == Some(repo@),
                        None => repository_json(items@[k]@) is None,
                    },
            decreases items@.len() - i,
        {
            parsed.push(parse_repository(items[i].as_str()));
            i = i + 1;
        }
        let ghost all = parsed@;
        let r = Self::collect_repos(parsed);
        proof {
            lemma_parsed_views(all, string_views(items@));
        }
        r
    }

    /// The starred repositories of a page of the starred-repositories API, in
    /// the order of its `items` array; the entries that do not parse as
    /// repositories are left out, and a page without an `items` array has none.
    pub fn repos_from_page(page: &Json) -> (r: Vec<Repo>)
        ensures
            r@.map_values(|repo: Repo| repo@) == match page.member("items"@) {
                Some(Json::Array(items)) => repos_of_texts(items@.map_values(|i: Json| json_text(i))),
                _ => Seq::empty(),
            },
    {
        match Self::starred_items(page) {
            Some(items) => {
                let mut texts: Vec<String> = Vec::new();
                let mut i: usize = 0;
                while i < items.len()
                    invariant
                        i <= items@.len(),
                        texts@.len() == i,
                        forall|k: int| 0 <= k < i ==> (#[trigger] texts@[k])@ == json_text(items@[k]),
                    decreases items@.len() - i,
                {
                    texts.push(items[i].to_text());
                    i = i + 1;
                }
                assert(string_views(texts@) =~= items@.map_values(|i: Json| json_text(i)));
                Self::repos_from_items(&texts)
            },
            None => {
                let r: Vec<Repo> = Vec::new();
                assert(r@.map_values(|repo: Repo| repo@) =~= Seq::<RepoView>::empty());
                r
            },
        }
    }

    /// The starred repositories of a page, from its entries as they parsed:
    /// the entries that did not parse as repositories are left out.
    pub fn collect_repos(parsed: Vec<Option<Repo>>) -> (r: Vec<Repo>)
        ensures
            r@ == parsed_repos(parsed@),
    {
        let mut out: Vec<Repo> = Vec::new();
        let ghost all = parsed@;
        for p in iter: parsed.into_iter()
            invariant
                iter.seq() == all,
                out@ == parsed_repos(all.take(iter.index() as int)),
        {
            proof {
                let k = iter.index() as int;
                assert(all.take(k + 1).drop_last() =~= all.take(k));
                assert(all.take(k + 1).last() == all[k]);
            }
            if let Some(repo) = p {
                out.push(repo);
            }
        }
        assert(all.take(all.len() as int) =~= all);
        out
    }
}

/// Keeping the entries that parsed keeps every entry when all parsed, in
/// order, none when none did, and never more than there were.
pub proof fn lemma_parsed_repos_keeps_parsed(parsed: Seq<Option<Repo>>)
    ensures
        parsed_repos(parsed).len() <= parsed.len(),
        (forall|i: int| 0 <= i < parsed.len() ==> (#[trigger] parsed[i]) is Some) ==> parsed_repos(parsed)
            == parsed.map_values(|o: Option<Repo>| o->0),
        (forall|i: int| 0 <= i < parsed.len() ==> (#[trigger] parsed[i]) is None) ==> parsed_repos(parsed)
            == Seq::<Repo>::empty(),
    decreases parsed.len(),
{
    if parsed.len() > 0 {
        let p = parsed.drop_last();
        assert forall|i: int| 0 <= i < p.len() implies (#[trigger] p[i]) == parsed[i] by {}
        lemma_parsed_repos_keeps_parsed(p);
        if forall|i: int| 0 <= i < parsed.len() ==> (#[trigger] parsed[i]) is Some {
            assert(parsed[parsed.len() - 1] is Some);
            assert forall|i: int| 0 <= i < p.len() implies (#[trigger] p[i]) is Some by {
                assert(p[i] == parsed[i]);
            }
            assert(parsed_repos(parsed) =~= parsed.map_values(|o: Option<Repo>| o->0));
        }
        if forall|i: int| 0 <= i < parsed.len() ==> (#[trigger] parsed[i]) is None {
            assert(parsed[parsed.len() - 1] is None);
            assert forall|i: int| 0 <= i < p.len() implies (#[trigger] p[i]) is None by {
                assert(p[i] == parsed[i]);
            }
            assert(parsed_repos(parsed) =~= Seq::<Repo>::empty());
        }
    }
}

} // verus!
