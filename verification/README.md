# codex_acp

A bridge between a client of the Agent Client Protocol and a Codex session. The
library under `src/` decides everything the bridge decides; it is written in
Verus, and every function states what it returns or changes. The program under
`app/` does the input and output around it.

## How it is put together

- `text`, `paths`, `collections`, `json` hold what the rest is built from.
- `protocol`, `events` hold the data that is exchanged. Each type has a view,
  and the contracts speak of the views.
- `command_safety`, `permissions`, `session_config`, `models`, `agent`, `title`
  hold rules: which commands are dangerous, what a permission request offers and
  what its answer means, which mode follows from a configuration, how models and
  efforts are named and found again, what a title is.
- `prompt_state`, `command_events`, `tool_events`, `approval_events`,
  `prompt_events` hold a turn as a state machine: each event gives the next state
  and a list of effects, which the program carries out in order.
- `title_flow`, `config_options`, `settings`, `replay`, `prompts`, `actor` hold
  the session: its title, its options, its history, what a prompt leads to, and
  the messages it takes.

Public proof functions state what holds of several of these together, such as
that a turn is answered once, or that an option on offer can be chosen.

## What is taken on trust

The functions marked `external_body` and the `assume_specification` items in
`text`, `json`, `models` and `tool_events`. Each says which function of the
standard library, `serde_json`, `heck` or `agent_client_protocol` it stands for,
and what is claimed of it.
