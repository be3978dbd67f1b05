//! Mapping the host platform to the runtime vendor's naming scheme.

use vstd::prelude::*;
use crate::error::{ErrorModel, NodeRuntimeError};
use crate::text::same_text;

verus! {

/// An operating system for which the vendor distributes the runtime.
#[derive(Debug, Clone, Copy, PartialEq, Eq, Structural)]
pub enum OperatingSystem {
    Darwin,
    Linux,
    Win,
}

/// A CPU architecture for which the vendor distributes the runtime.
#[derive(Debug, Clone, Copy, PartialEq, Eq, Structural)]
pub enum Architecture {
    X64,
    Arm64,
}

impl OperatingSystem {
    /// The operating system that a host identifier stands for, if it is supported.
    pub open spec fn identified_by(identifier: Seq<char>) -> Option<OperatingSystem> {
        if identifier == "macos"@ {
            Some(OperatingSystem::Darwin)
        } else if identifier == "linux"@ {
            Some(OperatingSystem::Linux)
        } else if identifier == "windows"@ {
            Some(OperatingSystem::Win)
        } else {
            None
        }
    }

    /// The vendor's label, as a sequence of characters.
    pub open spec fn spec_label(self) -> Seq<char> {
        match self {
            OperatingSystem::Darwin => "darwin"@,
            OperatingSystem::Linux => "linux"@,
            OperatingSystem::Win => "win"@,
        }
    }

    /// The vendor's label for this operating system.
    pub fn label(&self) -> (r: &'static str)
        ensures
            r@ == self.spec_label(),
    {
        match self {
            OperatingSystem::Darwin => "darwin",
            OperatingSystem::Linux => "linux",
            OperatingSystem::Win => "win",
        }
    }

    /// Maps the host's operating system identifier to a supported operating system.
    pub fn from_identifier(identifier: &str) -> (r: Result<OperatingSystem, NodeRuntimeError>)
        ensures
            match Self::identified_by(identifier@) {
                Some(os) => r == Ok::<OperatingSystem, NodeRuntimeError>(os),
                None => r matches Err(e) && e@ == ErrorModel::UnsupportedOperatingSystem(
                    identifier@,
                ),
            },
    {
        if same_text(identifier, "macos") {
            Ok(OperatingSystem::Darwin)
        } else if same_text(identifier, "linux") {
            Ok(OperatingSystem::Linux)
        } else if same_text(identifier, "windows") {
            Ok(OperatingSystem::Win)
        } else {
            Err(NodeRuntimeError::UnsupportedOperatingSystem(identifier.to_owned()))
        }
    }
}

impl Architecture {
    /// The architecture that a host identifier stands for, if it is supported.
    pub open spec fn identified_by(identifier: Seq<char>) -> Option<Architecture> {
        if identifier == "x86_64"@ {
            Some(Architecture::X64)
        } else if identifier == "aarch64"@ {
            Some(Architecture::Arm64)
        } else {
            None
        }
    }

    /// The vendor's label, as a sequence of characters.
    pub open spec fn spec_label(self) -> Seq<char> {
        match self {
            Architecture::X64 => "x64"@,
            Architecture::Arm64 => "arm64"@,
        }
    }

    /// The vendor's label for this architecture.
    pub fn label(&self) -> (r: &'static str)
        ensures
            r@ == self.spec_label(),
    {
        match self {
            Architecture::X64 => "x64",
            Architecture::Arm64 => "arm64",
        }
    }

    /// Maps the host's architecture identifier to a supported architecture.
    pub fn from_identifier(identifier: &str) -> (r: Result<Architecture, NodeRuntimeError>)
        ensures
            match Self::identified_by(identifier@) {
                Some(arch) => r == Ok::<Architecture, NodeRuntimeError>(arch),
                None => r matches Err(e) && e@ == ErrorModel::UnsupportedArchitecture(
                    identifier@,
                ),
            },
    {
        if same_text(identifier, "x86_64") {
            Ok(Architecture::X64)
        } else if same_text(identifier, "aarch64") {
            Ok(Architecture::Arm64)
        } else {
            Err(NodeRuntimeError::UnsupportedArchitecture(identifier.to_owned()))
        }
    }
}

/// A supported pair of operating system and architecture.
#[derive(Debug, Clone, Copy, PartialEq, Eq, Structural)]
pub struct Platform {
    pub os: OperatingSystem,
    pub arch: Architecture,
}

impl Platform {
    /// What [`Platform::resolve`] answers for a pair of host identifiers: the platform, or
    /// the error for the first identifier that is not supported, the operating system's first.
    pub open spec fn resolved(os: Seq<char>, arch: Seq<char>) -> Result<Platform, ErrorModel> {
        match OperatingSystem::identified_by(os) {
            None => Err(ErrorModel::UnsupportedOperatingSystem(os)),
            Some(o) => match Architecture::identified_by(arch) {
                None => Err(ErrorModel::UnsupportedArchitecture(arch)),
                Some(a) => Ok(Platform { os: o, arch: a }),
            },
        }
    }

    /// Maps the host's operating system and architecture identifiers to a platform.
    pub fn resolve(os: &str, arch: &str) -> (r: Result<Platform, NodeRuntimeError>)
        ensures
            match Self::resolved(os@, arch@) {
                Ok(platform) => r == Ok::<Platform, NodeRuntimeError>(platform),
                Err(error) => r matches Err(e) && e@ == error,
            },
    {
        let o = match OperatingSystem::from_identifier(os) {
            Ok(o) => o,
            Err(e) => return Err(e),
        };
        let a = match Architecture::from_identifier(arch) {
            Ok(a) => a,
            Err(e) => return Err(e),
        };
        Ok(Platform { os: o, arch: a })
    }
}

} // verus!
