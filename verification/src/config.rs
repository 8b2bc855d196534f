//! Which file-count script a session runs.

use crate::text::same_text;
use vstd::prelude::*;
use vstd::string::*;

verus! {

/// The settings of a session.
#[derive(Debug)]
pub struct Config {
    /// The name of the script variant: `mac_zsh`, `mac_bash` or `windows`.
    pub filecount_script: String,
}

/// The variant that is used where the settings name none.
pub open spec fn default_variant() -> Seq<char> {
    "mac_zsh"@
}

/// The file that holds the script of a variant. A name that is no
/// variant's stands for the default variant.
pub open spec fn script_path_of(variant: Seq<char>) -> Seq<char> {
    if variant == "mac_bash"@ {
        "mac_linux_bash_filecount.sh"@
    } else if variant == "windows"@ {
        "windows_filecount.ps1"@
    } else {
        "filecount.sh"@
    }
}

/// The variant that counts: the one set, or the default.
pub open spec fn variant_in_force(setting: Option<String>) -> Seq<char> {
    match setting {
        Some(name) => name@,
        None => default_variant(),
    }
}

/// The script variant used where the settings name none.
pub fn default_filecount_script() -> (name: String)
    ensures
        name@ == default_variant(),
{
    String::from_str("mac_zsh")
}

impl Config {
    /// The settings for what a settings file says of the script variant:
    /// `None` where there is no file, or the file does not name a variant.
    pub fn from_setting(setting: Option<String>) -> (config: Config)
        ensures
            config.filecount_script@ == variant_in_force(setting),
    {
        match setting {
            Some(name) => Config { filecount_script: name },
            None => Config { filecount_script: default_filecount_script() },
        }
    }

    /// The file that holds the file-count script of these settings.
    pub fn get_filecount_script_path(&self) -> (path: String)
        ensures
            path@ == script_path_of(self.filecount_script@),
    {
        let variant = self.filecount_script.as_str();
        if same_text(variant, "mac_bash") {
            String::from_str("mac_linux_bash_filecount.sh")
        } else if same_text(variant, "windows") {
            String::from_str("windows_filecount.ps1")
        } else {
            String::from_str("filecount.sh")
        }
    }
}

} // verus!
