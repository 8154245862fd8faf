# comtrya

A configuration-management tool for the local machine: manifests (YAML
files) list actions — run a command, copy or link files, install packages,
add groups, download release binaries — and the tool plans each action as
steps, orders the manifests by their dependencies and carries out the
steps that still have work to do.

The planning and ordering logic is a Verus library (`src/`), each function
with a contract that Verus proves:

- `steps`, `actions`, `files`, `link`, `macos`, `binary`: what each action
  plans, as steps built from atoms, initializers and finalizers;
- `package`, `package_actions`, `providers/`, `group`: package managers and
  group providers and what they plan;
- `dag`, `depgraph`: the graph of manifests (built with `petgraph`) and the
  orders in which it is traversed;
- `apply`: the run over the manifests as a state machine — every decision of
  a run (skipping, planning, checking, running, stopping) is a transition,
  and its invariants (a dry run changes nothing, a failure stops the run,
  only selected manifests are worked on) are proved;
- `cli`, `plugin`, `plugin_spec`, `plugins`, `template`, `keyed`, `text`,
  `zip`: the command line and configuration, plugins, templates, and the
  text and map helpers the rest is built on;
- `host`: the calls into the machine and into outside crates, with the
  contracts they are trusted to meet.

`app/` is the program around it: argument parsing, reading files and
manifests, evaluating `where` conditions and templates, and running
commands.
