# versust

Structured concurrency patterns: `sync`, `race`, `rush` and `branch` run each
job on a thread of its own.

- `src/` is the verified library: the job types (`Job`, `RaceJob`, built with
  `into_job` and `into_race_job`), the race-job flag helpers (`should_stop`,
  `claim_finish`), the decision of what a race or a rush answers
  (`first_finished`) and `NoSuccessfulJobError`.
- `app/` spawns and joins the threads, owns the channels and the macros
  (`sync!`, `race!`, `rush!`, `branch!`), and gives the error its `Display`.
- `tests/` exercises the library.
