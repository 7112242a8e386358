//! Suggesting a list for a repository with the OpenAI chat API: the request
//! that is sent, and what is read back from the reply.
use vstd::prelude::*;
use crate::github::{GithubList, Repo};
use crate::json::{Json, json_escaped, json_quote, json_string_literal};
use crate::text::{join_seq, join_strings, or_empty, string_views, text_eq, trim_seq, trim_text};

verus! {

/// The endpoint that suggestions are requested from.
pub open spec fn chat_url() -> Seq<char> {
    "https://api.openai.com/v1/chat/completions"@
}

/// The line that describes one list to the model.
pub open spec fn list_line(l: GithubList) -> Seq<char> {
    "- "@ + l.name@ + ": "@ + or_empty(l.description)
}

/// The lists, one line each.
pub open spec fn lists_text(lists: Seq<GithubList>) -> Seq<char> {
    join_seq(lists.map_values(|l: GithubList| list_line(l)), "\n"@)
}

/// The repository's topics, separated by commas.
pub open spec fn topics_text(topics: Option<Vec<String>>) -> Seq<char> {
    match topics {
        Some(t) => join_seq(string_views(t@), ", "@),
        None => Seq::empty(),
    }
}

/// The question put to the model about `repo`.
pub open spec fn prompt_text(repo: Repo, lists: Seq<GithubList>) -> Seq<char> {
    "I have a GitHub repository called '"@ + repo.name@ + "' with description: '"@ + or_empty(
        repo.description,
    ) + "'.\nIt has the following topics: "@ + topics_text(repo.topics)
        + ".\n\nI want to add it to one of my GitHub lists. Here are my available lists:\n"@
        + lists_text(lists)
        + "\n\nWhich list would be the most appropriate for this repository? Return just the list name without any explanation."@
}

/// The JSON body of a chat completion request that asks `prompt`.
pub open spec fn request_body(prompt: Seq<char>) -> Seq<char> {
    "{\"max_tokens\":50,\"messages\":[{\"content\":"@ + json_string_literal(prompt)
        + ",\"role\":\"user\"}],\"model\":\"gpt-3.5-turbo\"}"@
}

/// The message text of the first choice of a chat completion reply.
pub open spec fn response_content(resp: Json) -> Option<Seq<char>> {
    match resp.member("choices"@) {
        Some(choices) => match choices.element(0) {
            Some(choice) => match choice.member("message"@) {
                Some(message) => match message.member("content"@) {
                    Some(content) => content.text(),
                    None => None,
                },
                None => None,
            },
            None => None,
        },
        None => None,
    }
}

/// Whether one of `lists` is named `name`.
pub open spec fn has_list_named(lists: Seq<GithubList>, name: Seq<char>) -> bool {
    exists|i: int| 0 <= i < lists.len() && #[trigger] lists[i].name@ == name
}

/// The list a reply suggests: its trimmed message text, when that names one of `lists`.
pub open spec fn suggestion(resp: Json, lists: Seq<GithubList>) -> Option<Seq<char>> {
    match response_content(resp) {
        Some(c) => if has_list_named(lists, trim_seq(c)) {
            Some(trim_seq(c))
        } else {
            None
        },
        None => None,
    }
}

/// A suggestion is always the name of one of the lists offered, and the
/// reply's message text without surrounding white space.
pub proof fn lemma_suggestion_is_offered(resp: Json, lists: Seq<GithubList>)
    ensures
        suggestion(resp, lists) matches Some(name) ==> {
            &&& has_list_named(lists, name)
            &&& response_content(resp) matches Some(c) && name == trim_seq(c)
        },
{
}

/// A request to the chat API, ready to send.
#[derive(Debug)]
pub struct AiRequest {
    /// The question the request asks.
    pub prompt: String,
    pub url: String,
    /// The value of the `Authorization` header.
    pub authorization: String,
    /// The JSON body.
    pub body: String,
}

/// Why no suggestion came back.
#[derive(Debug)]
pub enum AiError {
    /// The request could not be sent, or no reply came.
    Send,
    /// The reply was not JSON.
    Parse,
}

impl AiError {
    /// The message shown for this error.
    pub fn message(&self) -> (r: String)
        ensures
            r@ == match self {
                AiError::Send => "Failed to send request to OpenAI API"@,
                AiError::Parse => "Failed to parse OpenAI API response"@,
            },
    {
        match self {
            AiError::Send => String::from_str("Failed to send request to OpenAI API"),
            AiError::Parse => String::from_str("Failed to parse OpenAI API response"),
        }
    }
}

/// Suggests lists for repositories with the OpenAI chat API.
pub struct AiSuggester {
    api_key: String,
}

impl View for AiSuggester {
    type V = Seq<char>;

    /// The API key.
    closed spec fn view(&self) -> Seq<char> {
        self.api_key@
    }
}

fn list_lines(lists: &[GithubList]) -> (r: Vec<String>)
    ensures
        string_views(r@) == lists@.map_values(|l: GithubList| list_line(l)),
{
    let mut out: Vec<String> = Vec::new();
    let mut i: usize = 0;
    while i < lists.len()
        invariant
            i <= lists@.len(),
            string_views(out@) =~= lists@.take(i as int).map_values(|l: GithubList| list_line(l)),
        decreases lists@.len() - i,
    {
        let mut line = String::from_str("- ");
        line.append(lists[i].name.as_str());
        line.append(": ");
        match &lists[i].description {
            Some(d) => line.append(d.as_str()),
            None => {},
        }
        assert(line@ == list_line(lists@[i as int]));
        let ghost before = out@;
        out.push(line);
        proof {
            assert(lists@.take(i + 1) =~= lists@.take(i as int).push(lists@[i as int]));
            assert(out@ == before.push(line));
            assert(string_views(out@) =~= string_views(before).push(line@));
        }
        i = i + 1;
    }
    assert(lists@.take(lists@.len() as int) =~= lists@);
    out
}

impl AiSuggester {
    /// A suggester that authenticates with `api_key`.
    pub fn new(api_key: String) -> (r: AiSuggester)
        ensures
            r@ == api_key@,
    {
        AiSuggester { api_key }
    }

    /// The question put to the model about `repo`.
    pub fn prompt(repo: &Repo, available_lists: &[GithubList]) -> (r: String)
        ensures
            r@ == prompt_text(*repo, available_lists@),
    {
        let mut p = String::from_str("I have a GitHub repository called '");
        p.append(repo.name.as_str());
        p.append("' with description: '");
        match &repo.description {
            Some(d) => p.append(d.as_str()),
            None => {},
        }
        p.append("'.\nIt has the following topics: ");
        match &repo.topics {
            Some(t) => {
                let joined = join_strings(t, ", ");
                p.append(joined.as_str());
            },
            None => {},
        }
        p.append(".\n\nI want to add it to one of my GitHub lists. Here are my available lists:\n");
        let lines = list_lines(available_lists);
        let listed = join_strings(&lines, "\n");
        p.append(listed.as_str());
        p.append(
            "\n\nWhich list would be the most appropriate for this repository? Return just the list name without any explanation.",
        );
        p
    }

    /// The request that asks which of `available_lists` suits `repo`; none
    /// when there is no list to choose from, so that no suggestion is made.
    pub fn suggest_list_request(&self, repo: &Repo, available_lists: &[GithubList]) -> (r: Option<
        AiRequest,
    >)
        ensures
            available_lists@.len() == 0 <==> r is None,
            r matches Some(req) ==> {
                &&& req.prompt@ == prompt_text(*repo, available_lists@)
                &&& req.url@ == chat_url()
                &&& req.authorization@ == "Bearer "@ + self@
                &&& req.body@ == request_body(prompt_text(*repo, available_lists@))
            },
    {
        if available_lists.len() == 0 {
            return None;
        }
        let prompt = Self::prompt(repo, available_lists);
        let mut body = String::from_str("{\"max_tokens\":50,\"messages\":[{\"content\":");
        let quoted = json_quote(prompt.as_str());
        body.append(quoted.as_str());
        body.append(",\"role\":\"user\"}],\"model\":\"gpt-3.5-turbo\"}");
        let mut authorization = String::from_str("Bearer ");
        authorization.append(self.api_key.as_str());
        Some(
            AiRequest {
                prompt,
                url: String::from_str("https://api.openai.com/v1/chat/completions"),
                authorization,
                body,
            },
        )
    }

    /// The message text of the first choice of a chat completion reply.
    pub fn response_content(response: &Json) -> (r: Option<&str>)
        ensures
            r matches Some(t) ==> response_content(*response) == Some(t@),
            r is None ==> response_content(*response) is None,
    {
        let choices = match response.get_key("choices") {
            Some(c) => c,
            None => return None,
        };
        let choice = match choices.get_index(0) {
            Some(c) => c,
            None => return None,
        };
        let message = match choice.get_key("message") {
            Some(m) => m,
            None => return None,
        };
        let content = match message.get_key("content") {
            Some(c) => c,
            None => return None,
        };
        content.as_str()
    }

    /// The list a reply suggests: the trimmed message text, kept only when it
    /// is the name of one of `available_lists`.
    pub fn suggested_list_from_response(response: &Json, available_lists: &[GithubList]) -> (r:
        Option<String>)
        ensures
            r matches Some(s) ==> suggestion(*response, available_lists@) == Some(s@),
            r is None ==> suggestion(*response, available_lists@) is None,
    {
        let content = match Self::response_content(response) {
            Some(c) => c,
            None => return None,
        };
        let suggested = trim_text(content);
        let mut i: usize = 0;
        while i < available_lists.len()
            invariant
                i <= available_lists@.len(),
                suggested@ == trim_seq(content@),
                response_content(*response) == Some(content@),
                forall|k: int| 0 <= k < i ==> available_lists@[k].name@ != suggested@,
            decreases available_lists@.len() - i,
        {
            if text_eq(available_lists[i].name.as_str(), suggested.as_str()) {
                assert(available_lists@[i as int].name@ == suggested@);
                assert(has_list_named(available_lists@, trim_seq(content@)));
                return Some(suggested);
            }
            i = i + 1;
        }
        None
    }
}

/// The suggestion for a reply whose first choice's message content is the
/// string `content`: the trimmed content when a list at any position has
/// that name, and none when no list has it.
pub proof fn lemma_suggestion_of_reply(
    resp: Json,
    lists: Seq<GithubList>,
    choices: Json,
    first: Json,
    message: Json,
    content: String,
)
    requires
        resp.member("choices"@) == Some(choices),
        choices.element(0) == Some(first),
        first.member("message"@) == Some(message),
        message.member("content"@) == Some(Json::String(content)),
    ensures
        (exists|i: int| 0 <= i < lists.len() && #[trigger] lists[i].name@ == trim_seq(content@))
            ==> suggestion(resp, lists) == Some(trim_seq(content@)),
        (forall|i: int| 0 <= i < lists.len() ==> #[trigger] lists[i].name@ != trim_seq(content@))
            ==> suggestion(resp, lists) is None,
{
}

/// A reply without a first choice whose message content is a string suggests nothing.
pub proof fn lemma_no_suggestion_without_content(resp: Json, lists: Seq<GithubList>)
    ensures
        resp.member("choices"@) is None ==> suggestion(resp, lists) is None,
        resp.member("choices"@) matches Some(ch) && ch.element(0) is None ==> suggestion(resp, lists) is None,
        (resp.member("choices"@) matches Some(ch) && ch.element(0) matches Some(f) && (f.member(
            "message"@,
        ) matches Some(m) && m.member("content"@) matches Some(c) && !(c is String)))
            ==> suggestion(resp, lists) is None,
{
}

/// Whatever is suggested is the name of a list at some position.
pub proof fn lemma_suggestion_names_a_list(resp: Json, lists: Seq<GithubList>)
    ensures
        suggestion(resp, lists) matches Some(n) ==> exists|i: int|
            0 <= i < lists.len() && #[trigger] lists[i].name@ == n,
{
}

/// The question names the repository and its description first, then its
/// topics, then the lists.
pub proof fn lemma_prompt_starts_with_repository(repo: Repo, lists: Seq<GithubList>)
    ensures
        prompt_text(repo, lists) == "I have a GitHub repository called '"@ + repo.name@
            + "' with description: '"@ + or_empty(repo.description)
            + "'.\nIt has the following topics: "@ + topics_text(repo.topics)
            + ".\n\nI want to add it to one of my GitHub lists. Here are my available lists:\n"@
            + join_seq(lists.map_values(|l: GithubList| "- "@ + l.name@ + ": "@ + or_empty(l.description)), "\n"@)
            + "\n\nWhich list would be the most appropriate for this repository? Return just the list name without any explanation."@,
{
    assert(lists.map_values(|l: GithubList| list_line(l)) =~= lists.map_values(
        |l: GithubList| "- "@ + l.name@ + ": "@ + or_empty(l.description),
    ));
}

/// The request body is a chat completion for `gpt-3.5-turbo` with at most 50
/// tokens whose one user message is the prompt, as a JSON string.
pub proof fn lemma_request_body_shape(prompt: Seq<char>)
    ensures
        request_body(prompt) == "{\"max_tokens\":50,\"messages\":[{\"content\":"@ + seq!['"']
            + json_escaped(prompt) + seq!['"'] + ",\"role\":\"user\"}],\"model\":\"gpt-3.5-turbo\"}"@,
        chat_url() == "https://api.openai.com/v1/chat/completions"@,
{
}

} // verus!
