//! Build settings: the immutable value a build runs against, composed by
//! a builder from the configuration and runtime flags, with every
//! requested format name validated against the registry first.

use vstd::prelude::*;

use crate::package_type::PackageType;

verus! {

/// Why a build could not run.
#[derive(Debug)]
pub enum BuildError {
    /// The configuration could not be resolved.
    Config(crate::config::ConfigError),
    /// A requested package-type name is not in the registry; carries
    /// the offending token.
    UnsupportedFormat(String),
    /// A subprocess exited with a non-zero status or failed to spawn;
    /// carries a description.
    ProcessExecution(String),
    /// A filesystem operation failed; carries a description.
    Io(String),
}

impl BuildError {
    /// The description of the failure.
    pub open spec fn spec_message(&self) -> Seq<char> {
        match self {
            BuildError::Config(e) => e.spec_message(),
            BuildError::UnsupportedFormat(name) => "unsupported package type: "@ + name@,
            BuildError::ProcessExecution(d) => "process execution failed: "@ + d@,
            BuildError::Io(d) => "filesystem operation failed: "@ + d@,
        }
    }

    /// A short description of the failure.
    pub fn message(&self) -> (r: String)
        ensures
            r@ == self.spec_message(),
    {
        match self {
            BuildError::Config(e) => e.message(),
            BuildError::UnsupportedFormat(name) => {
                let mut m = String::from_str("unsupported package type: ");
                m.append(name.as_str());
                m
            },
            BuildError::ProcessExecution(d) => {
                let mut m = String::from_str("process execution failed: ");
                m.append(d.as_str());
                m
            },
            BuildError::Io(d) => {
                let mut m = String::from_str("filesystem operation failed: ");
                m.append(d.as_str());
                m
            },
        }
    }
}

/// The settings a build runs against, immutable once built.
pub struct BuildSettings {
    /// Whether this is a debug build (no optimizations).
    pub debug: bool,
    /// Whether subprocess output is streamed live.
    pub verbose: bool,
    /// The requested output formats; `None` means the platform default.
    pub package_types: Option<Vec<PackageType>>,
    /// The directory that compiled binaries are placed in.
    pub project_out_directory: String,
    /// The name of the main binary.
    pub binary_name: String,
    /// The application version string.
    pub version: String,
    /// The target architecture label, as the tool chain reports it.
    pub binary_arch: String,
    /// The path of the end-user license shown by the disk-image bundler.
    pub osx_license: Option<String>,
}

impl BuildSettings {
    /// The directory that compiled binaries are placed in.
    pub fn project_out_directory(&self) -> (r: &String)
        ensures
            r == &self.project_out_directory,
    {
        &self.project_out_directory
    }

    /// The name of the main binary.
    pub fn main_binary_name(&self) -> (r: &String)
        ensures
            r == &self.binary_name,
    {
        &self.binary_name
    }

    /// The application version string.
    pub fn version_string(&self) -> (r: &String)
        ensures
            r == &self.version,
    {
        &self.version
    }

    /// The target architecture label.
    pub fn binary_arch(&self) -> (r: &String)
        ensures
            r == &self.binary_arch,
    {
        &self.binary_arch
    }

    /// Whether subprocess output is streamed live.
    pub fn is_verbose(&self) -> (r: bool)
        ensures
            r == self.verbose,
    {
        self.verbose
    }

    /// The configured end-user license path, if any.
    pub fn osx_license(&self) -> (r: Option<&String>)
        ensures
            match r {
                Some(l) => self.osx_license == Some(*l),
                None => self.osx_license is None,
            },
    {
        self.osx_license.as_ref()
    }
}

/// Resolves the requested format names from index `i` on: the sentinel
/// name `none` stops processing, so everything after it is ignored; the
/// first name that the registry does not know fails the resolution with
/// that name.
pub open spec fn resolve_names(names: Seq<Seq<char>>, i: int) -> Result<
    Seq<PackageType>,
    Seq<char>,
>
    decreases names.len() - i,
{
    if i < 0 || i >= names.len() {
        Ok(Seq::empty())
    } else if names[i] == "none"@ {
        Ok(Seq::empty())
    } else {
        match PackageType::spec_from_short_name(names[i]) {
            None => Err(names[i]),
            Some(t) => match resolve_names(names, i + 1) {
                Ok(rest) => Ok(seq![t] + rest),
                Err(e) => Err(e),
            },
        }
    }
}

/// Composes a `BuildSettings` value: runtime flags, project facts, and
/// the requested format names, validated on `build`.
pub struct SettingsBuilder {
    /// Whether this is a debug build.
    pub debug: bool,
    /// Whether subprocess output is streamed live.
    pub verbose: bool,
    /// The requested format names; `None` means the platform default.
    pub target_names: Option<Vec<String>>,
    /// The directory that compiled binaries are placed in.
    pub project_out_directory: String,
    /// The name of the main binary.
    pub binary_name: String,
    /// The application version string.
    pub version: String,
    /// The target architecture label.
    pub binary_arch: String,
    /// The path of the end-user license, if one is configured.
    pub osx_license: Option<String>,
}

impl SettingsBuilder {
    /// A builder with release mode, quiet output and no requested
    /// formats; project facts start empty.
    pub fn new() -> (r: SettingsBuilder)
        ensures
            !r.debug,
            !r.verbose,
            r.target_names is None,
            r.project_out_directory@ == Seq::<char>::empty(),
            r.binary_name@ == Seq::<char>::empty(),
            r.version@ == Seq::<char>::empty(),
            r.binary_arch@ == Seq::<char>::empty(),
            r.osx_license is None,
    {
        SettingsBuilder {
            debug: false,
            verbose: false,
            target_names: None,
            project_out_directory: String::new(),
            binary_name: String::new(),
            version: String::new(),
            binary_arch: String::new(),
            osx_license: None,
        }
    }

    /// Switches the build to debug mode.
    pub fn debug(self) -> (r: SettingsBuilder)
        ensures
            r == (SettingsBuilder { debug: true, ..self }),
    {
        SettingsBuilder { debug: true, ..self }
    }

    /// Streams subprocess output live.
    pub fn verbose(self) -> (r: SettingsBuilder)
        ensures
            r == (SettingsBuilder { verbose: true, ..self }),
    {
        SettingsBuilder { verbose: true, ..self }
    }

    /// Requests the given format names.
    pub fn targets(self, names: Vec<String>) -> (r: SettingsBuilder)
        ensures
            r == (SettingsBuilder { target_names: Some(names), ..self }),
    {
        SettingsBuilder { target_names: Some(names), ..self }
    }

    /// Finalizes the settings. Every requested format name is resolved
    /// against the registry before anything else runs: the sentinel
    /// `none` stops processing and later names are ignored even if
    /// invalid; any other unknown name fails the whole build with an
    /// `UnsupportedFormat` error naming the offending token.
    #[verifier::loop_isolation(false)]
    pub fn build(self) -> (r: Result<BuildSettings, BuildError>)
        ensures
            ({
                let resolved = match self.target_names {
                    Some(ns) => Some(resolve_names(ns@.map_values(|s: String| s@), 0)),
                    None => None,
                };
                match resolved {
                    None => r matches Ok(s) && s.package_types is None && builds_from(s, self),
                    Some(Ok(ts)) => r matches Ok(s) && (match s.package_types {
                        Some(v) => v@ == ts,
                        None => false,
                    }) && builds_from(s, self),
                    Some(Err(bad)) => r matches Err(e) && (e matches
                        BuildError::UnsupportedFormat(n) && n@ == bad),
                }
            }),
    {
        let package_types: Option<Vec<PackageType>> = match &self.target_names {
            None => None,
            Some(ns) => {
                let ghost nv = ns@.map_values(|s: String| s@);
                let mut out: Vec<PackageType> = Vec::new();
                let mut i: usize = 0;
                let mut stopped = false;
                while i < ns.len() && !stopped
                    invariant
                        i <= ns@.len(),
                        stopped ==> resolve_names(nv, i as int) == Ok::<
                            Seq<PackageType>,
                            Seq<char>,
                        >(Seq::empty()),
                        resolve_names(nv, 0) == match resolve_names(nv, i as int) {
                            Ok(rest) => Ok(out@ + rest),
                            Err(e) => Err::<Seq<PackageType>, Seq<char>>(e),
                        },
                    decreases ns@.len() - i + (if stopped { 0int } else { 1int }),
                {
                    let name = &ns[i];
                    proof {
                        assert(nv[i as int] == ns@[i as int]@);
                    }
                    if crate::text::str_eq(name.as_str(), "none") {
                        stopped = true;
                    } else {
                        match PackageType::from_short_name(name.as_str()) {
                            Some(t) => {
                                let ghost out0 = out@;
                                out.push(t);
                                proof {
                                    let r_next = resolve_names(nv, i as int + 1);
                                    if r_next is Ok {
                                        assert(out0 + (seq![t] + r_next->Ok_0) =~= out0.push(t)
                                            + r_next->Ok_0);
                                    }
                                }
                                i += 1;
                            },
                            None => {
                                proof {
                                    assert(resolve_names(nv, 0) == Err::<
                                        Seq<PackageType>,
                                        Seq<char>,
                                    >(nv[i as int]));
                                }
                                return Err(BuildError::UnsupportedFormat(name.clone()));
                            },
                        }
                    }
                }
                proof {
                    assert(out@ + Seq::<PackageType>::empty() =~= out@);
                }
                Some(out)
            },
        };
        Ok(BuildSettings {
            debug: self.debug,
            verbose: self.verbose,
            package_types,
            project_out_directory: self.project_out_directory,
            binary_name: self.binary_name,
            version: self.version,
            binary_arch: self.binary_arch,
            osx_license: self.osx_license,
        })
    }
}

/// The settings carry the builder's flags and project facts unchanged.
pub open spec fn builds_from(s: BuildSettings, b: SettingsBuilder) -> bool {
    &&& s.debug == b.debug
    &&& s.verbose == b.verbose
    &&& s.project_out_directory == b.project_out_directory
    &&& s.binary_name == b.binary_name
    &&& s.version == b.version
    &&& s.binary_arch == b.binary_arch
    &&& s.osx_license == b.osx_license
}

} // verus!
