//! The closed enumeration of supported output formats and the registry
//! that maps short names to them.

use vstd::prelude::*;

use crate::text::str_eq;

verus! {

/// One target installer/bundle format.
#[derive(PartialEq, Eq, Structural, Clone, Copy, Debug)]
pub enum PackageType {
    /// The macOS application bundle.
    OsxBundle,
    /// The macOS disk image; depends on the application bundle.
    Dmg,
    /// The Debian package.
    Deb,
    /// The RPM package.
    Rpm,
    /// The AppImage.
    AppImage,
    /// The Windows installer.
    WindowsMsi,
}

impl PackageType {
    /// The canonical short name of the format.
    pub open spec fn spec_short_name(self) -> Seq<char> {
        match self {
            PackageType::OsxBundle => "osx"@,
            PackageType::Dmg => "dmg"@,
            PackageType::Deb => "deb"@,
            PackageType::Rpm => "rpm"@,
            PackageType::AppImage => "appimage"@,
            PackageType::WindowsMsi => "msi"@,
        }
    }

    /// The canonical short name of the format.
    pub fn short_name(&self) -> (r: &'static str)
        ensures
            r@ == self.spec_short_name(),
    {
        match self {
            PackageType::OsxBundle => "osx",
            PackageType::Dmg => "dmg",
            PackageType::Deb => "deb",
            PackageType::Rpm => "rpm",
            PackageType::AppImage => "appimage",
            PackageType::WindowsMsi => "msi",
        }
    }

    /// The format registered under a short name, if any. Absence is an
    /// empty result, not an error: the caller decides whether it is fatal.
    pub open spec fn spec_from_short_name(name: Seq<char>) -> Option<PackageType> {
        if name == "osx"@ {
            Some(PackageType::OsxBundle)
        } else if name == "dmg"@ {
            Some(PackageType::Dmg)
        } else if name == "deb"@ {
            Some(PackageType::Deb)
        } else if name == "rpm"@ {
            Some(PackageType::Rpm)
        } else if name == "appimage"@ {
            Some(PackageType::AppImage)
        } else if name == "msi"@ {
            Some(PackageType::WindowsMsi)
        } else {
            None
        }
    }

    /// Looks a short name up in the registry.
    pub fn from_short_name(name: &str) -> (r: Option<PackageType>)
        ensures
            r == Self::spec_from_short_name(name@),
    {
        if str_eq(name, "osx") {
            Some(PackageType::OsxBundle)
        } else if str_eq(name, "dmg") {
            Some(PackageType::Dmg)
        } else if str_eq(name, "deb") {
            Some(PackageType::Deb)
        } else if str_eq(name, "rpm") {
            Some(PackageType::Rpm)
        } else if str_eq(name, "appimage") {
            Some(PackageType::AppImage)
        } else if str_eq(name, "msi") {
            Some(PackageType::WindowsMsi)
        } else {
            None
        }
    }
}

} // verus!
