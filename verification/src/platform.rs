//! The platform abstraction: candidate executable names and the path
//! separator differ between Windows and POSIX systems.

use vstd::prelude::*;

verus! {

/// The family of operating system the launcher runs on.  Resolution and
/// spawn planning branch on this value instead of being compiled twice.
#[derive(Clone, Copy, Debug, PartialEq, Eq, Structural)]
pub enum Platform {
    Windows,
    Posix,
}

/// The path separator used when joining a candidate name onto the base
/// directory.
pub open spec fn separator(platform: Platform) -> char {
    match platform {
        Platform::Windows => '\\',
        Platform::Posix => '/',
    }
}

/// Returns the separator for `platform` as a character.
pub fn separator_char(platform: Platform) -> (c: char)
    ensures
        c == separator(platform),
{
    match platform {
        Platform::Windows => '\\',
        Platform::Posix => '/',
    }
}

/// The ordered candidate names of the sidecar executable.  On Windows the
/// `.exe`-suffixed variant is tried before the bare name; everywhere else
/// only the bare name is searched.
pub fn get_executable_names(platform: Platform) -> (names: Vec<String>)
    ensures
        platform is Windows ==> names@.len() == 2 && names@[0]@ == "service.exe"@
            && names@[1]@ == "service"@,
        platform is Posix ==> names@.len() == 1 && names@[0]@ == "service"@,
{
    let mut names: Vec<String> = Vec::new();
    match platform {
        Platform::Windows => {
            names.push(String::from_str("service.exe"));
            names.push(String::from_str("service"));
        },
        Platform::Posix => {
            names.push(String::from_str("service"));
        },
    }
    names
}

} // verus!
