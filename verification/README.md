# gh_stars

A terminal tool for filing starred GitHub repositories into lists, with an
optional suggestion from the OpenAI chat API. The library in `src/` carries
proofs of its contracts; `app/` is the program around it.

- `src/app.rs`: the application state, navigation, loading, the suggestion
  protocol, filing a repository, key handling, and the laws about them.
- `src/ai.rs`: the prompt, the chat request and reading the reply.
- `src/github.rs`: repositories, lists and the GitHub client.
- `src/view.rs`: what each screen shows (help line, rows, titles).
- `src/json.rs`, `src/text.rs`, `src/config.rs`: JSON values, string helpers, settings.
- `app/`: command line, settings file, HTTP requests, terminal drawing and the event loop.
