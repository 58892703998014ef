//! What the server is told on its command line, and the settings that come
//! of it once the defaults are filled in.

use vstd::prelude::*;
use vstd::string::StringExecFns;
use vstd::string::StrSliceExecFns;

verus! {

/// The width and the height of the canvas when none is given.
pub const DEFAULT_SIDE: u32 = 1000;

/// The seconds between two scheduled saves when none are given.
pub const DEFAULT_SAVE_INTERVAL: u64 = 120;

/// The options as they were given. An option that was left out is `None`.
#[derive(Debug, Clone)]
pub struct ConfigArgs {
    pub address: Option<String>,
    pub height: Option<u32>,
    pub width: Option<u32>,
    pub save_interval: Option<u64>,
    pub save_location: Option<String>,
    pub save_all_images: Option<bool>,
}

/// The options with every default filled in.
#[derive(Debug, Clone)]
pub struct Settings {
    /// The address to listen on.
    pub address: String,
    /// The number of columns of the canvas.
    pub width: u32,
    /// The number of rows of the canvas.
    pub height: u32,
    /// The seconds between two scheduled saves.
    pub save_interval: u64,
    /// The file that the canvas is saved to.
    pub save_location: String,
    /// Whether the file of the save before is kept under another name.
    pub save_all_images: bool,
}

/// Why a set of options is refused.
#[derive(Debug, Clone, Copy, PartialEq, Eq, Structural)]
pub enum ConfigError {
    /// The file to save to does not end in `.png`.
    NotPng,
}

/// Whether a path ends in `.png`.
pub open spec fn ends_with_png(path: Seq<char>) -> bool {
    path.len() >= 4 && path.subrange(path.len() - 4, path.len() as int) == seq!['.', 'p', 'n', 'g']
}

/// The address to listen on when none is given.
pub open spec fn default_address() -> Seq<char> {
    "0.0.0.0:8080"@
}

/// The file to save to when none is given.
pub open spec fn default_save_location() -> Seq<char> {
    "place.png"@
}

/// What a [`Settings`] value says, with its strings as sequences of
/// characters.
pub struct SettingsView {
    pub address: Seq<char>,
    pub width: u32,
    pub height: u32,
    pub save_interval: u64,
    pub save_location: Seq<char>,
    pub save_all_images: bool,
}

impl View for Settings {
    type V = SettingsView;

    open spec fn view(&self) -> SettingsView {
        SettingsView {
            address: self.address@,
            width: self.width,
            height: self.height,
            save_interval: self.save_interval,
            save_location: self.save_location@,
            save_all_images: self.save_all_images,
        }
    }
}

impl Settings {
    /// The path to save to ends in `.png`, as it does in all settings that
    /// [`ConfigArgs::resolve`] lets through.
    pub open spec fn wf(&self) -> bool {
        ends_with_png(self.save_location@)
    }
}

impl ConfigArgs {
    /// What these options ask for, with each option that was left out at its
    /// default.
    pub open spec fn resolved(self) -> SettingsView {
        SettingsView {
            address: match self.address {
                Some(address) => address@,
                None => default_address(),
            },
            width: match self.width {
                Some(width) => width,
                None => DEFAULT_SIDE,
            },
            height: match self.height {
                Some(height) => height,
                None => DEFAULT_SIDE,
            },
            save_interval: match self.save_interval {
                Some(seconds) => seconds,
                None => DEFAULT_SAVE_INTERVAL,
            },
            save_location: match self.save_location {
                Some(path) => path@,
                None => default_save_location(),
            },
            save_all_images: match self.save_all_images {
                Some(keep) => keep,
                None => false,
            },
        }
    }

    /// Fills in the defaults and checks the path to save to. The options are
    /// refused exactly when that path does not end in `.png`.
    pub fn resolve(self) -> (outcome: Result<Settings, ConfigError>)
        ensures
            outcome is Ok <==> ends_with_png(self.resolved().save_location),
            outcome matches Ok(settings) ==> settings@ == self.resolved() && settings.wf(),
            outcome matches Err(error) ==> error == ConfigError::NotPng,
    {
        let address = match self.address {
            Some(address) => address,
            None => String::from_str("0.0.0.0:8080"),
        };
        let width: u32 = match self.width {
            Some(width) => width,
            None => DEFAULT_SIDE,
        };
        let height: u32 = match self.height {
            Some(height) => height,
            None => DEFAULT_SIDE,
        };
        let save_interval: u64 = match self.save_interval {
            Some(seconds) => seconds,
            None => DEFAULT_SAVE_INTERVAL,
        };
        let save_location = match self.save_location {
            Some(path) => path,
            None => String::from_str("place.png"),
        };
        let save_all_images = match self.save_all_images {
            Some(keep) => keep,
            None => false,
        };
        if !has_png_suffix(save_location.as_str()) {
            return Err(ConfigError::NotPng);
        }
        Ok(Settings { address, width, height, save_interval, save_location, save_all_images })
    }
}

/// Tells whether a path ends in `.png`.
pub fn has_png_suffix(path: &str) -> (found: bool)
    ensures
        found == ends_with_png(path@),
{
    let len: usize = path.unicode_len();
    if len < 4 {
        return false;
    }
    let found = path.get_char(len - 4) == '.' && path.get_char(len - 3) == 'p' && path.get_char(
        len - 2,
    ) == 'n' && path.get_char(len - 1) == 'g';
    proof {
        let tail = path@.subrange(len - 4, len as int);
        if found {
            assert(tail =~= seq!['.', 'p', 'n', 'g']);
        } else {
            assert(tail[0] == path@[len - 4] && tail[1] == path@[len - 3] && tail[2] == path@[len
                - 2] && tail[3] == path@[len - 1]);
        }
    }
    found
}

} // verus!
