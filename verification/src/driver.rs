//! The handle over an installation directory.

use crate::install::Installation;
use crate::location::{dest_for, dest_in, join, path_join, user_cache_dir};
use crate::platform::{script_name, Platform};
use vstd::prelude::*;

verus! {

/// The name of the environment variable by which a caller names the entry point
/// itself. The caller reads it and hands its value to [`Driver::executable`].
pub const EXECUTABLE_SCRIPT: &'static str = "EXECUTABLE_SCRIPT";

/// A handle over one installation: the directory it lives in and the platform
/// its bundle was packaged for. The handle never changes once made, and making
/// or dropping it touches nothing on disk.
#[derive(Debug, Clone, PartialEq)]
pub struct Driver {
    path: String,
    platform: Platform,
}

/// What a [`Driver`] stands for.
pub ghost struct DriverView {
    pub path: Seq<char>,
    pub platform: Platform,
}

impl View for Driver {
    type V = DriverView;

    closed spec fn view(&self) -> DriverView {
        DriverView { path: self.path@, platform: self.platform }
    }
}

/// The entry point of an installation at `path` for `platform`, given the
/// caller's override, if there is one. An override is taken as it stands.
pub open spec fn executable_of(
    path: Seq<char>,
    platform: Platform,
    script_override: Option<Seq<char>>,
) -> Seq<char> {
    match script_override {
        Some(script) => script,
        None => path_join(path, script_name(platform)),
    }
}

/// The text of an optional string.
pub open spec fn text_of(value: Option<String>) -> Option<Seq<char>> {
    match value {
        Some(text) => Some(text@),
        None => None,
    }
}

impl Driver {
    /// A handle over `path`. Nothing is checked and nothing is unpacked: this is
    /// for a caller who looks after the installation otherwise.
    pub fn new(path: String, platform: Platform) -> (driver: Driver)
        ensures
            driver@ == (DriverView { path: path@, platform }),
    {
        Driver { path, platform }
    }

    /// The installation directory.
    pub fn path(&self) -> (path: &str)
        ensures
            path@ == self@.path,
    {
        self.path.as_str()
    }

    /// The platform the bundle was packaged for.
    pub fn platform(&self) -> (platform: Platform)
        ensures
            platform == self@.platform,
    {
        self.platform
    }

    /// The path of the entry point. With an override that is the override,
    /// whatever the directory and the platform are; without one it is the
    /// platform's script inside the installation directory. Whether anything
    /// exists at that path is not looked at.
    pub fn executable(&self, script_override: Option<String>) -> (executable: String)
        ensures
            executable@ == executable_of(self@.path, self@.platform, text_of(script_override)),
            script_override matches Some(script) ==> executable == script,
    {
        match script_override {
            Some(script) => script,
            None => join(self.path.as_str(), self.platform.script()),
        }
    }

    /// The default installation directory for the given answers of the
    /// environment: below the user's cache directory where there is one, else
    /// below the directory for temporary files.
    pub fn resolve_dest(cache_dir: Option<String>, temp_dir: String) -> (dest: String)
        ensures
            dest@ == dest_for(text_of(cache_dir), temp_dir@),
    {
        match cache_dir {
            Some(cache) => dest_in(cache.as_str()),
            None => dest_in(temp_dir.as_str()),
        }
    }

    /// The default installation directory. The user's cache directory is asked
    /// for here; the directory for temporary files, which stands in where the
    /// environment has no cache directory, is the caller's to supply.
    pub fn default_dest(temp_dir: String) -> (dest: String)
        ensures
            exists|cache_dir: Option<Seq<char>>| dest@ == #[trigger] dest_for(cache_dir, temp_dir@),
    {
        let cache_dir = user_cache_dir();
        let ghost answer = text_of(cache_dir);
        let dest = Driver::resolve_dest(cache_dir, temp_dir);
        assert(dest@ == dest_for(answer, temp_dir@));
        dest
    }

    /// Begins an installation at the default destination.
    pub fn install<'a>(platform: Platform, archive: &'a [u8], temp_dir: String) -> (run:
        Installation<'a>)
        ensures
            run.begins(platform, archive@),
            exists|cache_dir: Option<Seq<char>>|
                run@.driver.path == #[trigger] dest_for(cache_dir, temp_dir@),
    {
        let path = Driver::default_dest(temp_dir);
        Driver::install_to_path(path, platform, archive)
    }

    /// Begins an installation at `path`. The caller is first asked whether
    /// `path` is a directory already; if it is, nothing is unpacked.
    pub fn install_to_path<'a>(path: String, platform: Platform, archive: &'a [u8]) -> (run:
        Installation<'a>)
        ensures
            run.begins(platform, archive@),
            run@.driver.path == path@,
    {
        Installation::probing(Driver::new(path, platform), archive)
    }

    /// Begins to unpack `archive` into this handle's directory without asking
    /// whether the directory exists.
    pub fn prepare<'a>(&self, archive: &'a [u8]) -> (run: Installation<'a>)
        ensures
            run@.driver == self@,
            run@.archive == archive@,
            run@.stage == crate::install::Stage::Creating,
    {
        Installation::creating(Driver::new(self.path.clone(), self.platform()), archive)
    }
}

/// An override is the entry point whatever the installation directory and the
/// platform are: two handles that differ in both resolve to the same override.
pub proof fn lemma_override_takes_precedence(
    script: Seq<char>,
    first_path: Seq<char>,
    first_platform: Platform,
    second_path: Seq<char>,
    second_platform: Platform,
)
    ensures
        executable_of(first_path, first_platform, Some(script)) == script,
        executable_of(first_path, first_platform, Some(script)) == executable_of(
            second_path,
            second_platform,
            Some(script),
        ),
{
}

/// Without an override the entry point is the platform's script joined to the
/// installation directory: the shell script for Linux and Mac, the command
/// script for both Windows variants.
pub proof fn lemma_executable_by_platform(path: Seq<char>)
    ensures
        executable_of(path, Platform::Linux, None) == path_join(path, "playwright.sh"@),
        executable_of(path, Platform::Mac, None) == path_join(path, "playwright.sh"@),
        executable_of(path, Platform::Win32, None) == path_join(path, "playwright.cmd"@),
        executable_of(path, Platform::Win32x64, None) == path_join(path, "playwright.cmd"@),
{
}

} // verus!
