# Git Control

Git Control is a local desktop client that makes daily Git work task-driven and
safer than raw commands. This project keeps everything that the client decides
or computes in a library whose behaviour is stated in contracts and proved by
Verus.

## Layout

- `src/`: the verified library.
  - `status`, `object_id`, `clock`, `paths`, `text`, `sort`: the vocabulary, with
    the few calls into `git2`, `chrono` and the standard library that are taken
    on trust. Each of those says what is trusted of it.
  - `model`, `readings`: what is shown of a repository, and what has to be read
    of one to show it.
  - `git_service`, `collect`: from what was read to summaries and snapshots.
  - `plans`: the steps that staging, committing, branching, resolving, resetting
    and syncing take.
  - `graph`: the layout of the commit graph.
  - `actions`, `effects`, `app`, `clicks`: the state of the application and how
    it moves; what has to be done outside is returned as a step.
  - `widgets`, `panels`, `panes`: what the window shows.
  - `laws`: what holds over every event and every sequence of events, such as
    the two-step reset and the guard against conflict markers.
- `app/`: the window around the library: drawing with `egui`, reading and
  changing repositories with `git2`, running `git`.
- `tests/`: the library at work on concrete values, with the outside crates
  linked.
