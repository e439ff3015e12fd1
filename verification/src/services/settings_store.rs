use vstd::prelude::*;

verus! {

/// Where game settings are persisted.
///
/// The store knows the settings file; reading and writing it happen in
/// the application, so that the player setup (names, colors, mode) is
/// restored between game sessions.
#[derive(Debug, Clone, PartialEq, Eq)]
pub struct SettingsStore {
    /// The path to the settings file.
    file_path: String,
}

impl SettingsStore {
    /// The settings file path.
    pub closed spec fn path_of(&self) -> Seq<char> {
        self.file_path@
    }

    /// Create a new settings store pointing to the given file path.
    pub fn new(file_path: &str) -> (s: SettingsStore)
        ensures
            s.path_of() == file_path@,
    {
        Self { file_path: String::from_str(file_path) }
    }

    /// Get the file path used by this store.
    pub fn path(&self) -> (p: &str)
        ensures
            p@ == self.path_of(),
    {
        self.file_path.as_str()
    }
}

} // verus!
