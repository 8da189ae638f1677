# GitHub Actions Editor

A desktop editor for GitHub Actions workflows: open or create a workflow,
edit its jobs and steps, and pick actions from the marketplace with fuzzy
search. Marketplace data and action metadata are cached on disk with a time
to live.

## Layout

- `src/` is the verified library (Verus). Verus checks every function there
  against its contract (a constructor of a field-less type, such as
  `FuzzySearch::new`, has nothing to state):
  - `app` — the editor's state and `App::update`, the state machine that
    handles every message and names the outside work to do (`Command`);
  - `cache` — cache keys and time-to-live values, cache entries and their
    freshness, the in-memory index and the step-by-step read of a cached
    value (memory, then disk, with expiry and a stale grace period);
  - `github` — token validation results, repository and marketplace data
    built from API replies, version tags, the lookup of an action's
    metadata file;
  - `models` — workflows, action metadata and marketplace data;
  - `ui` — fuzzy ranking of actions and the texts the views show;
  - `strmap`, `text`, `time` — an insertion-ordered string map, string
    helpers and UTC instants.
  Laws relating several functions are public proof functions whose names
  start with `law_`.
- `app/` is the program: the iced window, network and keyring access, the
  file system side of the cache, and serde. Its GitHub client calls
  `octocrab`, which is not listed in `Cargo.toml`: together with iced it
  exceeds the number of packages this build may lock, so `app/` does not
  build here until that crate can be added.
- `tests/` exercises the library on concrete values.
