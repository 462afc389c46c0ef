//! The settings of an emulator.

use vstd::prelude::*;

verus! {

/// The settings of an emulator: the path of the ROM file.
#[derive(Debug, Clone)]
pub struct Config {
    pub file_path: String,
}

impl Config {
    /// Returns the settings for the ROM file at `file_path`.
    pub fn new(file_path: String) -> (r: Self)
        ensures
            r.file_path == file_path,
    {
        Config { file_path }
    }

    /// Returns the path of the ROM file.
    pub fn get_file_path(&self) -> (r: &str)
        ensures
            r@ == self.file_path@,
    {
        self.file_path.as_str()
    }
}

} // verus!
