//! The settings that the library goes by, with the keys they are stored
//! under and what holds where a key is not set.

use vstd::prelude::*;
use crate::binary::repo::FRESH_FOR_SECS;
use crate::text::{same_text, text_of};

verus! {

/// The folder for binaries, under the settings folder.
pub const KEY_BINARIES_ROOT: &'static str = "run.binaries-root";

/// The folder for installs, under the settings folder.
pub const KEY_INSTALL_PATH: &'static str = "bin.install_path";

/// Whether the crawl starts from the built-in page: `true` or anything
/// else.
pub const KEY_USE_DEFAULT_REPOS: &'static str = "install.use_default_repos";

/// One more page to start the crawl from.
pub const KEY_CUSTOM_REPO: &'static str = "install.custom_repo";

/// For how many hours the cache stays fresh.
pub const KEY_UPDATE_FREQUENCY: &'static str = "binary.repo_update_frequency";

/// The folder for binaries and for installs where none is set.
pub const DEFAULT_FOLDER: &'static str = "bin";

/// What switches the built-in page on.
pub const YES: &'static str = "true";

/// The seconds of an hour.
pub const HOUR_SECS: u64 = 3600;

/// The settings as the library uses them.
pub struct Settings {
    /// The settings folder.
    pub root: String,
    pub binaries_root: String,
    pub install_path: String,
    pub use_default_repos: bool,
    pub custom_repo: Option<String>,
    /// For how many seconds the cache stays fresh.
    pub fresh_for: u64,
}

/// The settings, as contracts speak of it.
pub struct SettingsView {
    pub root: Seq<char>,
    pub binaries_root: Seq<char>,
    pub install_path: Seq<char>,
    pub use_default_repos: bool,
    pub custom_repo: Option<Seq<char>>,
    pub fresh_for: u64,
}

impl View for Settings {
    type V = SettingsView;

    open spec fn view(&self) -> SettingsView {
        SettingsView {
            root: self.root@,
            binaries_root: self.binaries_root@,
            install_path: self.install_path@,
            use_default_repos: self.use_default_repos,
            custom_repo: text_of(self.custom_repo),
            fresh_for: self.fresh_for,
        }
    }
}

/// The folder that is set, or the default one.
pub open spec fn folder_or_default(folder: Option<Seq<char>>) -> Seq<char> {
    match folder {
        Some(folder) => folder,
        None => DEFAULT_FOLDER@,
    }
}

/// Whether the built-in page is used: unless something else than `true`
/// is set.
pub open spec fn default_repos_on(value: Option<Seq<char>>) -> bool {
    match value {
        Some(value) => value == YES@,
        None => true,
    }
}

/// The seconds that a number of hours comes to, and the largest number
/// there is where that is too large; a day where no number is set.
pub open spec fn fresh_seconds(hours: Option<u64>) -> u64 {
    match hours {
        Some(hours) => if hours * HOUR_SECS <= u64::MAX {
            (hours * HOUR_SECS) as u64
        } else {
            u64::MAX
        },
        None => FRESH_FOR_SECS,
    }
}

/// The settings that the values stored under the keys come to; `None`
/// stands for a key that is not set.
pub fn settings_from(
    root: String,
    binaries_root: Option<String>,
    install_path: Option<String>,
    use_default_repos: Option<String>,
    custom_repo: Option<String>,
    update_frequency: Option<u64>,
) -> (r: Settings)
    ensures
        r@ == (SettingsView {
            root: root@,
            binaries_root: folder_or_default(text_of(binaries_root)),
            install_path: folder_or_default(text_of(install_path)),
            use_default_repos: default_repos_on(text_of(use_default_repos)),
            custom_repo: text_of(custom_repo),
            fresh_for: fresh_seconds(update_frequency),
        }),
{
    let binaries_root = match binaries_root {
        Some(folder) => folder,
        None => DEFAULT_FOLDER.to_owned(),
    };
    let install_path = match install_path {
        Some(folder) => folder,
        None => DEFAULT_FOLDER.to_owned(),
    };
    let use_default_repos = match use_default_repos {
        Some(value) => same_text(value.as_str(), YES),
        None => true,
    };
    let fresh_for = match update_frequency {
        Some(hours) => if hours <= u64::MAX / HOUR_SECS {
            hours * HOUR_SECS
        } else {
            u64::MAX
        },
        None => FRESH_FOR_SECS,
    };
    Settings { root, binaries_root, install_path, use_default_repos, custom_repo, fresh_for }
}

} // verus!
