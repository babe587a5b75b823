use vstd::prelude::*;

use crate::error::P4CliError;

verus! {

/// Operating systems the packaged tool can run on.
#[derive(Clone, Copy, Debug, PartialEq, Eq, Structural)]
pub enum Os {
    Windows,
    MacOs,
    Linux,
}

/// Processor architectures the packaged tool can run on.
#[derive(Clone, Copy, Debug, PartialEq, Eq, Structural)]
pub enum Arch {
    X64,
    Arm64,
}

/// The platforms for which a compressed tool payload is packaged.
#[derive(Clone, Copy, Debug, PartialEq, Eq, Structural)]
pub enum Platform {
    WinX64,
    MacArm64,
    MacX64,
    LinuxX64,
    LinuxArm64,
}

/// The payload selection policy: exactly one platform per supported
/// (operating system, architecture) pair, and none for any other pair.
pub open spec fn spec_select(os: Os, arch: Arch) -> Option<Platform> {
    match (os, arch) {
        (Os::Windows, Arch::X64) => Some(Platform::WinX64),
        (Os::Windows, Arch::Arm64) => None,
        (Os::MacOs, Arch::Arm64) => Some(Platform::MacArm64),
        (Os::MacOs, Arch::X64) => Some(Platform::MacX64),
        (Os::Linux, Arch::X64) => Some(Platform::LinuxX64),
        (Os::Linux, Arch::Arm64) => Some(Platform::LinuxArm64),
    }
}

impl Platform {
    /// Selects the platform whose payload matches the given pair, and
    /// refuses any pair for which no payload is packaged.
    pub fn select(os: Os, arch: Arch) -> (r: Result<Platform, P4CliError>)
        ensures
            match r {
                Ok(p) => spec_select(os, arch) == Some(p),
                Err(e) => spec_select(os, arch) is None && e == P4CliError::UnsupportedPlatform,
            },
    {
        match (os, arch) {
            (Os::Windows, Arch::X64) => Ok(Platform::WinX64),
            (Os::Windows, Arch::Arm64) => Err(P4CliError::UnsupportedPlatform),
            (Os::MacOs, Arch::Arm64) => Ok(Platform::MacArm64),
            (Os::MacOs, Arch::X64) => Ok(Platform::MacX64),
            (Os::Linux, Arch::X64) => Ok(Platform::LinuxX64),
            (Os::Linux, Arch::Arm64) => Ok(Platform::LinuxArm64),
        }
    }
}

} // verus!
