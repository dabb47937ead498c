//! The processor architectures depy knows, and how scoop manifests name them.
use vstd::prelude::*;
use crate::text::same_text;

verus! {

/// A processor architecture that scoop manifests describe.
#[derive(Clone, Copy, Debug, PartialEq, Eq)]
pub enum Arch {
    /// `x86`, called `32bit` in manifests.
    X86,
    /// `x86_64`, called `64bit` in manifests.
    X86_64,
    /// `aarch64`, called `arm64` in manifests.
    Aarch64,
}

/// The key under `architecture` in a scoop manifest for `a`.
pub open spec fn arch_key(a: Arch) -> Seq<char> {
    match a {
        Arch::X86 => "32bit"@,
        Arch::X86_64 => "64bit"@,
        Arch::Aarch64 => "arm64"@,
    }
}

/// The architecture named by a target name such as `std::env::consts::ARCH` gives.
pub open spec fn arch_of_target(target: Seq<char>) -> Option<Arch> {
    if target == "x86"@ {
        Some(Arch::X86)
    } else if target == "x86_64"@ {
        Some(Arch::X86_64)
    } else if target == "aarch64"@ {
        Some(Arch::Aarch64)
    } else {
        None
    }
}

impl Arch {
    /// The architecture named by `target` (`x86`, `x86_64` or `aarch64`), if it is one of them.
    pub fn from_target(target: &str) -> (res: Option<Arch>)
        ensures
            res == arch_of_target(target@),
    {
        if same_text(target, "x86") {
            Some(Arch::X86)
        } else if same_text(target, "x86_64") {
            Some(Arch::X86_64)
        } else if same_text(target, "aarch64") {
            Some(Arch::Aarch64)
        } else {
            None
        }
    }

    /// The key under `architecture` in a scoop manifest for this architecture.
    pub fn key(&self) -> (res: &'static str)
        ensures
            res@ == arch_key(*self),
    {
        match self {
            Arch::X86 => "32bit",
            Arch::X86_64 => "64bit",
            Arch::Aarch64 => "arm64",
        }
    }
}

} // verus!
