# devcont

Run [devcontainers](https://containers.dev/) outside of Visual Studio Code, from
your terminal: `devcont` (start or resume), `devcont rebuild [--no-cache]`.

The library (`src/`) is verified with Verus:

- `devcontainers::config`, `one_or_many`, `run_args`, `paths`, `copying`: the
  parsed `devcontainer.json`, container names, `runArgs` checks, workspace path
  checks and the copy targets for the git configuration and dotfiles.
- `devcontainers` (`mod.rs`): choosing and configuring the engine backend.
- `devcontainers::lifecycle`: a session as a state machine. `Session::step`
  takes the outcome of the last piece of outside work and returns the next one
  to do; the laws about consent, creation and shutdown are proved over it.
- `provider`: the command lines of the Docker, Podman and Compose backends,
  and the redaction of environment values in what is printed.
- `listing`, `text`: reading engine output, and string helpers with exact
  specifications.

`app/` is the command line program: argument parsing, reading the
configuration and settings files, spawning the engine, prompting, and driving
the session.
