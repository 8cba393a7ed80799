# cargo_artifact_dependency

A stable alternative to cargo's artifact dependencies: a binary crate is
installed with `cargo install` into an install root under the temporary
directory whose name is made of the dependency's settings, and found there
again on later resolutions.

- `src/` is the verified library: the dependency description and its builder
  (`dependency`), sanitising and joining of path components (`naming`), the
  install root (`install_root`), finding the artifact in an install root and
  reading the outcome as a cache check (`lookup`), and the configuration of
  `cargo install` with the decisions of a resolution (`install`).
- `app/` drives a resolution: it reads the temporary directory, lists the
  `bin` directory when the library asks for it, runs `cargo install`, and
  offers an error type that implements `std::error::Error`.
- `tests/` runs the library on concrete values.
