# uvl_macros

Compile-time variability for Rust driven by UVL feature-model configurations
(the JSON files that the UVL language server writes). A presence condition
such as `"Electric && sel(Autopilot) + sel(ParkAssist) <= 1"` is evaluated
against the configuration to decide which code a crate keeps.

- `src/` is the verified library:
  - `names` normalizes feature names,
  - `manifest` parses a manifest with `toml` and finds
    `[package.metadata] uvl_config_path` in it,
  - `json` and `features` parse a configuration with `serde_json` and load
    the features that a condition needs into an `evalexpr` context,
  - `evaluation` holds the trusted boundary to `evalexpr`, the `sel`
    conversion, and the functions that the library installs in every
    context,
  - `builtins` gives checked forms of the `evalexpr` builtins that can
    panic (`shl`, `shr`, `math::abs`, `str::substring`); the context calls
    them in place of the builtins,
  - `macros` makes the decisions of `feat_if!`, `feat_ifdef!`,
    `feat_value!` and `#[feat]`, and states the laws that relate them.
    Each decision has two forms: one for a configuration that loads (and,
    for `feat_value!`, defines the feature), which is what the macros
    assume, and a `try_` form that reports why a configuration does not
    load, for the caller to stop with the matching message.
- `app/` reads the manifest and the configuration file, handles Rust tokens
  with `syn` and `quote`, and holds the car configurator example.
- `tests/` exercises the library on concrete configurations.
