//! User settings (`~/.config/devcont/config.toml`).

use vstd::prelude::*;

verus! {

/// Container engine provider selection.
#[derive(Debug, Clone, Copy, PartialEq, Eq, Structural)]
pub enum Provider {
    /// Use Docker (default).
    Docker,
    /// Use Podman.
    Podman,
}

impl Default for Provider {
    fn default() -> (r: Self)
        ensures
            r == Provider::Docker,
    {
        Provider::Docker
    }
}

/// User settings loaded from `~/.config/devcont/config.toml`.
#[derive(Debug)]
pub struct Settings {
    /// Dotfiles to copy into the container (relative paths from `~`).
    pub dotfiles: Vec<String>,
    /// Container engine to use.
    pub provider: Provider,
}

impl Default for Settings {
    fn default() -> (r: Self)
        ensures
            r.dotfiles@.len() == 0,
            r.provider == Provider::Docker,
    {
        Settings { dotfiles: Vec::new(), provider: Provider::Docker }
    }
}

} // verus!
