# resonate-plugins

Transport plugins that put an external system behind a durable promise:
Airflow, Bannerbear, Baserow, Elasticsearch, Gotify, Grafana, n8n and
Rundeck. Each plugin takes one delivered promise to a verdict — resolve,
reject with a code, halt for an operator, or release for redelivery.

## Layout

- `src/` — the library, verified with Verus. Every plugin is a state
  machine: `begin` reads the promise's param and names the first action,
  `step` takes the stage and what came of the last action (an answer, a
  lost request, a wake-up) to the next stage and action. The contracts
  state each step exactly over spec functions (`start_v`, `next_v`), and
  the laws each plugin keeps are proof functions at the end of its module:
  no sleep runs past the promise's deadline, a failed poll is absorbed at
  most four times in a row, rejected credentials halt, every rejection
  names its code, and work an earlier delivery started is found again
  rather than started twice.
  - `json`, `http`, `verdict`, `promise`: documents, requests and
    responses, verdicts, and the param a promise carries.
  - `text`, `frame`, `clock`, `args`, `query`: percent-encoding, decimal
    integers, the identity stamped on provider records, sleeps bounded by
    the deadline, and reading args into queries.
  - `worker`: the frame around a plugin — acquire the task, beat its lease,
    settle or hand it back.
- `app/` — the plugins as the server runs them: the HTTP exchange, the
  clock and the sleeps, JSON text, and the configuration as the server
  spells it.
- `tests/` — each plugin's machine driven through scripted answers.
