# depy

depy installs programs with the [scoop](https://scoop.sh/) package manager into a
scoop tree of its own (`%userprofile%\depy\scoop`), without touching the user's
PATH, and writes `.depyvenv\activate.bat` / `activate.ps1`, which put the installed
programs on the PATH of one shell only.

## Layout

- `src/` is the library, verified with Verus: reading `depy.json` and scoop
  manifests (`package`, `parsing`, `json`, `path`), bucket names and urls
  (`bucket`), the scoop command lines and how to judge what scoop printed
  (`shell::*`), the activation scripts (`shell::venv`), the order in which
  packages are installed (`shell::install`), and the state machine of the
  graphical front end (`app_state`).
- `app/` is the command line program: it reads the options, runs the commands
  the library builds, reads and writes the files, downloads manifests, and hands
  the results back to the library.
- `tests/` holds the tests of the library.
