# Houston

A terminal dashboard for GitHub Actions: browse repositories, trigger
workflows (with a form for their `workflow_dispatch` inputs), follow runs,
read the jobs and steps of a run, and see deployments by environment.

The library under `src/` is written in Verus and verified. It holds:

- the panel model, the layout tree and the preset layouts (`panel`,
  `panel_set`, `layout`, `window_manager`);
- the application state and every change a key press or a finished request
  makes to it (`app_state`, `navigation`, `dialog`, `inputs`, `dispatch`,
  `keys`, `log_view`, `cycle`);
- the reading of GitHub API answers and workflow files (`doc`, `github`,
  `api`), and the saved pins (`config`);
- what each panel, the header, the footer and the dialogs show, as styled
  lines (`screen`, `format`, `status`, `chrome`, `lists`, `runs_view`,
  `log_lines`, `deployments_view`, `pull_requests_view`, `dialog_view`);
- laws about these operations (`app_laws` and the `law_` proof functions of
  the modules).

`app/` is the program around it: the terminal, the GitHub requests, the
configuration file and the main loop. `tests/` runs the library on concrete
values.
