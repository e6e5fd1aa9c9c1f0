# Zrush panel

The panel lists a repository's worktrees and the agent sessions held in them. A
click on a row opens its worktree and starts or resumes an agent there; a
right-click offers to remove a worktree or delete a session.

`src/` is the verified library: every decision the panel takes, on plain values.

- `path`, `path_map`, `node_map`, `node_set`: paths, maps keyed by them, and
  sets of nodes
- `model`: rows, sessions and git states
- `host`: the queue of what the service asks of its host
- `pending`: the run that waits for a workspace being built
- `terminal`: which terminal a command owns, and how one is spawned
- `row`, `status`: what a row offers, starts and shows of its git state
- `panel`: loading and refreshing
- `activation`: what a click does, one reply of the outside world at a time
- `menu`: context menus, confirmations and their outcome
- `view`: what the panel shows
- `settings`: where the panel is docked

`app/` is the plumbing around it: it paints, prompts, spawns terminals and calls
the service, and hands each outcome back to the library.
