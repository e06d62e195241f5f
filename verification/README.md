# set_status

The rules behind a worker's `set_status` tool, verified with Verus.

A worker reports progress, or the outcome of its task. A report is redacted,
shown in a short form, and, where it is an outcome, accepted only with evidence
of what was run and only once the completion of the run has been claimed.

- `src/call.rs`: one call of the tool, step by step. Each step says what is
  asked of the surrounding program and takes its answer.
- `src/status.rs`: arguments, evidence, output and error.
- `src/text.rs`: white space, sizes in bytes, and the short form of a status.
- `src/lifecycle.rs`, `src/event.rs`: the states of a run, and what is published.
- `src/definition.rs`: how the tool is described to a language model.
- `src/laws.rs`: what holds of reports as a whole.
- `app/`: the tool as an agent calls it. Redaction, prompts and the record of
  runs are the surrounding program's, behind the trait `Host`.
