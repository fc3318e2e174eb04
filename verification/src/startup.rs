//! Startup: which Vault the desktop opens, and whether the user must choose one first.

use vstd::prelude::*;

verus! {

/// What the settings file says about the Vault.
#[derive(Debug, Clone)]
pub enum VaultStartup {
    /// A Vault folder was chosen; `is_dir` says whether it is still a folder.
    Configured { path: String, is_dir: bool },
    /// The user has not finished choosing; `intro_required` says whether the welcome is
    /// still to be shown.
    Pending { intro_required: bool },
    /// Nothing was ever recorded.
    Unset,
}

/// Which Vault the desktop opens, and what it must ask of the user.
#[derive(Debug, Clone)]
pub struct VaultResolution {
    pub path: String,
    /// The user must choose a Vault before working.
    pub setup_required: bool,
    /// The default Vault of an existing installation is recorded as its choice.
    pub persist_path: bool,
    /// The first-run welcome is shown.
    pub intro_required: bool,
}

/// The Vault the desktop opens: a forced folder always wins; a configured folder that
/// still exists is used; an existing installation without a setting keeps the default
/// folder and records it; otherwise the user must choose, with the welcome on a first run.
pub open spec fn resolution(default: Seq<char>, database_existed: bool, startup: VaultStartup, forced: Option<Seq<char>>) -> (Seq<char>, bool, bool, bool) {
    match forced {
        Some(path) => (path, false, false, false),
        None => match startup {
            VaultStartup::Configured { path, is_dir } => if is_dir {
                (path@, false, false, false)
            } else {
                (default, true, false, false)
            },
            VaultStartup::Pending { intro_required } => (default, true, false, intro_required),
            VaultStartup::Unset => if database_existed {
                (default, false, true, false)
            } else {
                (default, true, false, true)
            },
        },
    }
}

/// Resolves the Vault at startup.
pub fn resolve_vault(default: &str, database_existed: bool, startup: VaultStartup, forced: Option<&str>) -> (r: VaultResolution)
    ensures
        (r.path@, r.setup_required, r.persist_path, r.intro_required) == resolution(
            default@,
            database_existed,
            startup,
            match forced {
                Some(f) => Some(f@),
                None => None,
            },
        ),
{
    if let Some(path) = forced {
        return VaultResolution {
            path: path.to_owned(),
            setup_required: false,
            persist_path: false,
            intro_required: false,
        };
    }
    match startup {
        VaultStartup::Configured { path, is_dir } => {
            if is_dir {
                VaultResolution { path, setup_required: false, persist_path: false, intro_required: false }
            } else {
                VaultResolution {
                    path: default.to_owned(),
                    setup_required: true,
                    persist_path: false,
                    intro_required: false,
                }
            }
        },
        VaultStartup::Pending { intro_required } => VaultResolution {
            path: default.to_owned(),
            setup_required: true,
            persist_path: false,
            intro_required,
        },
        VaultStartup::Unset => {
            if database_existed {
                VaultResolution {
                    path: default.to_owned(),
                    setup_required: false,
                    persist_path: true,
                    intro_required: false,
                }
            } else {
                VaultResolution {
                    path: default.to_owned(),
                    setup_required: true,
                    persist_path: false,
                    intro_required: true,
                }
            }
        },
    }
}

/// A Vault is recorded only when nothing else is asked of the user, and the welcome
/// comes only with a Vault to choose.
pub proof fn setup_and_recording_exclude(default: Seq<char>, database_existed: bool, startup: VaultStartup, forced: Option<Seq<char>>)
    ensures
        ({
            let r = resolution(default, database_existed, startup, forced);
            &&& !(r.1 && r.2)
            &&& r.3 ==> r.1
        }),
{
}

} // verus!
