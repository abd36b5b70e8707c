use vstd::prelude::*;
use std::path::PathBuf;

verus! {

/// `std::path::PathBuf`, carried through opaquely.
#[verifier::external_type_specification]
#[verifier::external_body]
pub struct ExPathBuf(PathBuf);

/// `PathBuf::clone` (std), which the derived `Clone` of the settings calls:
/// the contract claims that the copy equals the path it was made from.
pub assume_specification[ <PathBuf as Clone>::clone ](p: &PathBuf) -> (r: PathBuf)
    ensures
        r == *p,
;

/// Emulation speed and where save files go.
#[derive(Debug, Clone)]
pub struct Settings {
    pub speed: SpeedOption,
    pub save_location: SaveLocation,
}

impl Settings {
    /// Normal speed, saves beside the game file.
    pub fn default() -> (s: Settings)
        ensures
            s.speed == SpeedOption::Normal,
            s.save_location == SaveLocation::GameLoc,
    {
        Settings { speed: SpeedOption::Normal, save_location: SaveLocation::GameLoc }
    }

    /// Normal speed, saves in `save_folder`.
    pub fn new(save_folder: PathBuf) -> (s: Settings)
        ensures
            s.speed == SpeedOption::Normal,
            s.save_location == SaveLocation::SaveFolder(save_folder),
    {
        Settings { speed: SpeedOption::Normal, save_location: SaveLocation::SaveFolder(save_folder) }
    }

    pub fn set_speed(&mut self, speed: SpeedOption)
        ensures
            final(self).speed == speed,
            final(self).save_location == old(self).save_location,
    {
        self.speed = speed;
    }

    pub fn set_save_location(&mut self, save_location: SaveLocation)
        ensures
            final(self).speed == old(self).speed,
            final(self).save_location == save_location,
    {
        self.save_location = save_location;
    }

    pub fn get_save_location(&self) -> (r: &SaveLocation)
        ensures
            *r == self.save_location,
    {
        &self.save_location
    }
}

/// How many emulated frames are run per displayed frame.
#[derive(Debug, Clone, Copy, PartialEq, Eq)]
pub enum SpeedOption {
    Normal,
    X2,
    X3,
    X4,
}

/// The number of frames per displayed frame that a speed stands for.
pub open spec fn speed_factor(s: SpeedOption) -> u8 {
    match s {
        SpeedOption::Normal => 1,
        SpeedOption::X2 => 2,
        SpeedOption::X3 => 3,
        SpeedOption::X4 => 4,
    }
}

impl SpeedOption {
    /// The number of frames per displayed frame.
    pub fn factor(&self) -> (r: u8)
        ensures
            r == speed_factor(*self),
            1 <= r <= 4,
    {
        match self {
            SpeedOption::Normal => 1,
            SpeedOption::X2 => 2,
            SpeedOption::X3 => 3,
            SpeedOption::X4 => 4,
        }
    }

    /// The default speed.
    pub fn default() -> (r: SpeedOption)
        ensures
            r == SpeedOption::Normal,
    {
        SpeedOption::Normal
    }
}

/// Where the save file of a game goes.
#[derive(Debug, Clone)]
pub enum SaveLocation {
    /// Beside the game file, with the extension `sav`.
    GameLoc,
    /// In the given folder.
    SaveFolder(PathBuf),
}

} // verus!
