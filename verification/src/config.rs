//! The preferences that steer the booster.

use crate::paths::path_exists;
use crate::priority::PriorityLevel;
use vstd::prelude::*;
use vstd::string::StringExecFns;

verus! {

/// The installation directory that is assumed where none is configured.
pub const DEFAULT_ROBLOX_PATH: &'static str = "C:\\Users\\Admin\\AppData\\Local\\Roblox\\Versions";

/// The preferences of the user.
#[derive(Debug, PartialEq, Eq)]
pub struct Config {
    /// Enable the booster when the program starts.
    pub auto_start_booster: bool,
    /// Boost the game client when it appears while the booster is enabled.
    pub auto_detect_roblox: bool,
    /// The priority level to boost to: 0 normal, 1 above normal, 2 high.
    pub priority_level: u8,
    /// Report memory optimisation as part of a boost.
    pub clear_memory_cache: bool,
    /// Report whether boosted processes sit at a class that favours their
    /// graphics work.
    pub enable_gpu_boost: bool,
    /// An installation directory to trust instead of the detected ones.
    pub custom_roblox_path: Option<String>,
}

/// A `Config` with its texts as character sequences.
pub struct ConfigView {
    pub auto_start_booster: bool,
    pub auto_detect_roblox: bool,
    pub priority_level: u8,
    pub clear_memory_cache: bool,
    pub enable_gpu_boost: bool,
    pub custom_roblox_path: Option<Seq<char>>,
}

impl View for Config {
    type V = ConfigView;

    open spec fn view(&self) -> ConfigView {
        ConfigView {
            auto_start_booster: self.auto_start_booster,
            auto_detect_roblox: self.auto_detect_roblox,
            priority_level: self.priority_level,
            clear_memory_cache: self.clear_memory_cache,
            enable_gpu_boost: self.enable_gpu_boost,
            custom_roblox_path: match self.custom_roblox_path {
                Some(path) => Some(path@),
                None => None,
            },
        }
    }
}

impl ConfigView {
    /// The preferences of a fresh installation.
    pub open spec fn initial() -> ConfigView {
        ConfigView {
            auto_start_booster: false,
            auto_detect_roblox: true,
            priority_level: 1,
            clear_memory_cache: true,
            enable_gpu_boost: true,
            custom_roblox_path: None,
        }
    }

    /// The custom directory, where one is set and not empty.
    pub open spec fn custom_path(self) -> Option<Seq<char>> {
        match self.custom_roblox_path {
            Some(path) => if path.len() > 0 {
                Some(path)
            } else {
                None
            },
            None => None,
        }
    }

    /// Validity, given whether the custom directory is on disk.
    pub open spec fn valid_when(self, custom_on_disk: bool) -> bool {
        self.priority_level <= 2 && (self.custom_path() is Some ==> custom_on_disk)
    }

    /// The directory in effect, given whether the custom one is on disk.
    pub open spec fn roblox_path_when(self, custom_on_disk: bool) -> Seq<char> {
        if self.custom_path() is Some && custom_on_disk {
            self.custom_path()->0
        } else {
            DEFAULT_ROBLOX_PATH@
        }
    }

    /// The priority level that the number in the preferences stands for.
    pub open spec fn target_level(self) -> PriorityLevel {
        if self.priority_level == 0 {
            PriorityLevel::Normal
        } else if self.priority_level == 1 {
            PriorityLevel::AboveNormal
        } else {
            PriorityLevel::High
        }
    }

    /// The name of the priority level.
    pub open spec fn priority_name(self) -> Seq<char> {
        if self.priority_level == 0 {
            "Normal"@
        } else if self.priority_level == 1 {
            "Above Normal"@
        } else {
            "High"@
        }
    }

    /// Whether the graphics report is switched on, in words.
    pub open spec fn gpu_status(self) -> Seq<char> {
        if self.enable_gpu_boost {
            "Enabled"@
        } else {
            "Disabled"@
        }
    }
}

impl Default for Config {
    fn default() -> (config: Config)
        ensures
            config@ == ConfigView::initial(),
    {
        Config {
            auto_start_booster: false,
            auto_detect_roblox: true,
            priority_level: 1,
            clear_memory_cache: true,
            enable_gpu_boost: true,
            custom_roblox_path: None,
        }
    }
}

impl Clone for Config {
    fn clone(&self) -> (copy: Config)
        ensures
            copy@ == self@,
    {
        Config {
            auto_start_booster: self.auto_start_booster,
            auto_detect_roblox: self.auto_detect_roblox,
            priority_level: self.priority_level,
            clear_memory_cache: self.clear_memory_cache,
            enable_gpu_boost: self.enable_gpu_boost,
            custom_roblox_path: match &self.custom_roblox_path {
                Some(path) => Some(path.clone()),
                None => None,
            },
        }
    }
}

impl Config {
    /// Whether a custom directory is set and not empty.
    pub fn has_custom_path(&self) -> (set: bool)
        ensures
            set == self@.custom_path() is Some,
    {
        match &self.custom_roblox_path {
            Some(path) => !path.as_str().is_empty(),
            None => false,
        }
    }

    /// Validity, given whether the custom directory is on disk: the
    /// priority level is one of the three, and a custom directory that is
    /// set exists.
    pub fn is_valid_when(&self, custom_on_disk: bool) -> (valid: bool)
        ensures
            valid == self@.valid_when(custom_on_disk),
    {
        if self.priority_level > 2 {
            return false;
        }
        if self.has_custom_path() {
            custom_on_disk
        } else {
            true
        }
    }

    /// Whether the preferences can be used. Where a custom directory is
    /// set, the disk is asked whether it exists.
    pub fn is_valid(&self) -> (valid: bool)
        ensures
            exists|custom_on_disk: bool| valid == self@.valid_when(custom_on_disk),
    {
        let on_disk = match &self.custom_roblox_path {
            Some(custom) => !custom.as_str().is_empty() && path_exists(custom.as_str()),
            None => false,
        };
        let valid = self.is_valid_when(on_disk);
        assert(valid == self@.valid_when(on_disk));
        valid
    }

    /// The name of the priority level.
    pub fn priority_name(&self) -> (name: &'static str)
        ensures
            name@ == self@.priority_name(),
    {
        match self.priority_level {
            0 => "Normal",
            1 => "Above Normal",
            _ => "High",
        }
    }

    /// Whether the graphics report is switched on, in words.
    pub fn gpu_status(&self) -> (status: &'static str)
        ensures
            status@ == self@.gpu_status(),
    {
        if self.enable_gpu_boost {
            "Enabled"
        } else {
            "Disabled"
        }
    }

    /// The priority level to boost to.
    pub fn target_level(&self) -> (level: PriorityLevel)
        ensures
            level == self@.target_level(),
    {
        match self.priority_level {
            0 => PriorityLevel::Normal,
            1 => PriorityLevel::AboveNormal,
            _ => PriorityLevel::High,
        }
    }

    /// The directory in effect, given whether the custom one is on disk.
    pub fn get_roblox_path_when(&self, custom_on_disk: bool) -> (path: String)
        ensures
            path@ == self@.roblox_path_when(custom_on_disk),
    {
        match &self.custom_roblox_path {
            Some(custom) => {
                if !custom.as_str().is_empty() && custom_on_disk {
                    return custom.clone();
                }
            },
            None => {},
        }
        String::from_str(DEFAULT_ROBLOX_PATH)
    }

    /// The directory in effect: the custom one where it is set and exists
    /// on disk, else the default one.
    pub fn get_roblox_path(&self) -> (path: String)
        ensures
            exists|custom_on_disk: bool| path@ == self@.roblox_path_when(custom_on_disk),
    {
        let on_disk = match &self.custom_roblox_path {
            Some(custom) => !custom.as_str().is_empty() && path_exists(custom.as_str()),
            None => false,
        };
        let path = self.get_roblox_path_when(on_disk);
        path
    }
}

} // verus!
