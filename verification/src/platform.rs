//! The closed set of platforms a driver bundle is packaged for.

use vstd::prelude::*;

verus! {

/// The platform a bundle was packaged for.
#[derive(Debug, Clone, Copy, PartialEq, Eq, Hash, Structural)]
pub enum Platform {
    Linux,
    Win32,
    Win32x64,
    Mac,
}

/// The platform that a packaging token stands for, if it is one of the four known tokens.
pub open spec fn token_platform(token: Seq<char>) -> Option<Platform> {
    if token == "linux"@ {
        Some(Platform::Linux)
    } else if token == "mac"@ {
        Some(Platform::Mac)
    } else if token == "win32"@ {
        Some(Platform::Win32)
    } else if token == "win32_x64"@ {
        Some(Platform::Win32x64)
    } else {
        None
    }
}

/// The file name of the entry point inside an installation for `platform`.
pub open spec fn script_name(platform: Platform) -> Seq<char> {
    match platform {
        Platform::Linux | Platform::Mac => "playwright.sh"@,
        Platform::Win32 | Platform::Win32x64 => "playwright.cmd"@,
    }
}

/// Whether two string slices hold the same text.
fn same_text(left: &str, right: &str) -> (same: bool)
    ensures
        same == (left@ == right@),
{
    left.to_owned() == right.to_owned()
}

impl Platform {
    /// Resolves a packaging token. A token outside the known set resolves to `None`.
    pub fn from_token(token: &str) -> (platform: Option<Platform>)
        ensures
            platform == token_platform(token@),
    {
        if same_text(token, "linux") {
            Some(Platform::Linux)
        } else if same_text(token, "mac") {
            Some(Platform::Mac)
        } else if same_text(token, "win32") {
            Some(Platform::Win32)
        } else if same_text(token, "win32_x64") {
            Some(Platform::Win32x64)
        } else {
            None
        }
    }

    /// The file name of this platform's entry point: one name for Linux and Mac,
    /// another for both Windows variants.
    pub fn script(self) -> (name: &'static str)
        ensures
            name@ == script_name(self),
    {
        match self {
            Platform::Linux => "playwright.sh",
            Platform::Mac => "playwright.sh",
            Platform::Win32 => "playwright.cmd",
            Platform::Win32x64 => "playwright.cmd",
        }
    }
}

/// Each of the four packaging tokens resolves to its own platform.
pub proof fn lemma_known_tokens()
    ensures
        token_platform("linux"@) == Some(Platform::Linux),
        token_platform("mac"@) == Some(Platform::Mac),
        token_platform("win32"@) == Some(Platform::Win32),
        token_platform("win32_x64"@) == Some(Platform::Win32x64),
{
    reveal_strlit("linux");
    reveal_strlit("mac");
    reveal_strlit("win32");
    reveal_strlit("win32_x64");
    assert("mac"@.len() != "linux"@.len());
    assert("win32"@[0] != "mac"@[0]);
    assert("win32_x64"@.len() != "win32"@.len());
}

/// Linux and Mac share one entry point, the two Windows variants share another,
/// and the two are not the same.
pub proof fn lemma_scripts_by_family()
    ensures
        script_name(Platform::Linux) == script_name(Platform::Mac),
        script_name(Platform::Win32) == script_name(Platform::Win32x64),
        script_name(Platform::Linux) != script_name(Platform::Win32),
{
    reveal_strlit("playwright.sh");
    reveal_strlit("playwright.cmd");
    assert("playwright.sh"@.len() != "playwright.cmd"@.len());
}

} // verus!
