# orchy

The decision logic of an AI-driven project orchestrator, verified with Verus.

- `src/` is the library. Every function in it carries a contract that Verus
  proves: the status machines of tasks, issues, agents and code; the model of
  the responses that language models give back and of the actions they ask
  for; the text handling that pulls JSON, actions and files out of a model's
  answer; the commands, names and messages chosen while actions run; the
  managers' statistics and retry policy; the project manager's decisions
  (which agent takes a task, what a task run asks for and what its outcome
  does, which tasks of a run in dependency order run or are skipped, a
  project's counts); the database schema, its migration and the helpers that
  read identifiers and dates.
- `app/` is the program around the library: the command line, file and
  process I/O, the Gemini client, SQLite, and the serde forms of the
  library's values.
- `tests/` holds the scenarios that run the library.

Calls into other crates (regex, uuid, chrono, and a few functions of std)
stand behind small trusted wrappers whose doc comments say what is assumed of
them.

The second model that prompts may go to is called `Secondary` throughout:
its display name is "secondary" and its context file is `SECONDARY.md`.
