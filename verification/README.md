# app_launcher

Runs an HPC application on a cluster under a power strategy written in JSON:
first the cluster is prepared (fans at full speed, then a wait until the power
draw is stable), then the application runs, and each time its output shows the
hint of the next action, the cluster goes through that action's states.

- `src/` is the verified library (Verus):
  - `json.rs`: a JSON document as plain values;
  - `text.rs`: decimal text of integers, and searching text;
  - `state.rs`: states, settings and the state manager, with the laws of switching;
  - `execute.rs`: actions and the executor that fires them, with the laws of acting;
  - `prepare.rs`: blowing the fans, and deciding when the power draw is stable;
  - `logger.rs`: the decisions of the power logger.
- `app/` is the program around it: command line, files, the application's
  process, the cluster's commands and power readings, sleeping, threads.
- `tests/` runs the library on concrete values.
