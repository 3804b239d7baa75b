//! The disk-image bundler, as a deterministic plan: compute the artifact
//! names, regenerate the output directory from scratch, render the fixed
//! template scripts, and invoke the packaging script; the caller performs
//! each step in order.

use vstd::prelude::*;

use crate::package_type::PackageType;
use crate::settings::{BuildError, BuildSettings};

verus! {

/// The public label of a target-architecture string: the vendor string
/// `x86_64` is canonicalized to `x64`, anything else passes through.
pub open spec fn spec_arch_label(a: Seq<char>) -> Seq<char> {
    if a == "x86_64"@ {
        "x64"@
    } else {
        a
    }
}

/// Canonicalizes a target-architecture label for artifact names.
pub fn canonical_arch(arch: &str) -> (r: String)
    ensures
        r@ == spec_arch_label(arch@),
{
    if crate::text::str_eq(arch, "x86_64") {
        String::from_str("x64")
    } else {
        arch.to_owned()
    }
}

/// The deterministic base name of the produced artifacts:
/// `<binary>_<version>_<architecture label>`.
pub open spec fn spec_base_name(bin: Seq<char>, ver: Seq<char>, arch: Seq<char>) -> Seq<char> {
    bin + "_"@ + ver + "_"@ + spec_arch_label(arch)
}

/// Computes the artifact base name from binary name, version and
/// architecture.
pub fn package_base_name(bin: &str, ver: &str, arch: &str) -> (r: String)
    ensures
        r@ == spec_base_name(bin@, ver@, arch@),
{
    let mut out = bin.to_owned();
    out.append("_");
    out.append(ver);
    out.append("_");
    let label = canonical_arch(arch);
    out.append(label.as_str());
    out
}

/// One step of the disk-image bundler, in execution order.
pub enum DmgStep {
    /// Remove the whole output directory from a previous run, if it
    /// exists: regeneration is idempotent, not incremental.
    RemoveStaleOutput { path: String },
    /// Create the support directory (and the output directory above it).
    CreateSupportDir { path: String },
    /// Write one rendered template script.
    WriteScript { path: String, contents: String },
    /// Mark the generated scripts executable; failure here is treated
    /// as best-effort by the caller and not surfaced.
    MakeExecutable { paths: Vec<String> },
    /// Invoke the packaging script with the application-bundle
    /// directory as its working directory.
    RunPackagingScript { program: String, args: Vec<String>, cwd: String },
    /// Move the tool's output from its working-directory-relative name
    /// to the final computed path.
    RenameResult { from: String, to: String },
}

/// The fixed packaging-script template.
pub open spec fn spec_bundle_script() -> Seq<char> {
    "#!/usr/bin/env bash\nset -e\nhdiutil create -volname \"$1\" -srcfolder \"$2\" -ov -format UDZO \"$3\"\n"@
}

/// The fixed window-layout template.
pub open spec fn spec_layout_script() -> Seq<char> {
    "tell application \"Finder\"\n  tell disk \"$VOLNAME\"\n    open\n    close\nend tell\n"@
}

/// The fixed license-prompt template.
pub open spec fn spec_license_script() -> Seq<char> {
    "#!/usr/bin/env python\nimport sys\nprint(\"attach license to image\")\n"@
}

/// The packaging tool's argument list: volume name, icon reference and
/// placement, a drop-link placement, window geometry, the hide-extension
/// flag, the end-user license when one is configured, the headless flag
/// exactly when the `CI` variable holds the literal `true`, and the
/// output and bundle names.
pub open spec fn spec_dmg_args(
    base: Seq<char>,
    bundle_name: Seq<char>,
    dmg_name: Seq<char>,
    eula: Option<Seq<char>>,
    ci_true: bool,
) -> Seq<Seq<char>> {
    seq![
        "--volname"@,
        base,
        "--volicon"@,
        "../../../../icons/icon.icns"@,
        "--icon"@,
        bundle_name,
        "180"@,
        "170"@,
        "--app-drop-link"@,
        "480"@,
        "170"@,
        "--window-size"@,
        "660"@,
        "400"@,
        "--hide-extension"@,
        bundle_name,
    ] + (match eula {
        Some(l) => seq!["--eula"@, l],
        None => Seq::empty(),
    }) + (if ci_true {
        seq!["--skip-jenkins"@]
    } else {
        Seq::empty()
    }) + seq![dmg_name, bundle_name]
}

/// Whether a `CI` variable value turns the headless flag on: only the
/// literal string `true` does.
pub open spec fn spec_ci_true(ci: Option<&String>) -> bool {
    match ci {
        Some(v) => v@ == "true"@,
        None => false,
    }
}

/// Law: the packaging tool's argument list contains the headless flag
/// exactly when the `CI` variable holds the literal `true`, provided
/// none of the artifact names or the license path is itself that flag
/// (a volume named like the flag would appear in the list regardless).
pub proof fn lemma_skip_jenkins_iff(
    base: Seq<char>,
    bundle_name: Seq<char>,
    dmg_name: Seq<char>,
    eula: Option<Seq<char>>,
    ci_true: bool,
)
    requires
        base != "--skip-jenkins"@,
        bundle_name != "--skip-jenkins"@,
        dmg_name != "--skip-jenkins"@,
        eula matches Some(l) ==> l != "--skip-jenkins"@,
    ensures
        spec_dmg_args(base, bundle_name, dmg_name, eula, ci_true).contains("--skip-jenkins"@)
            <==> ci_true,
{
    let flag = "--skip-jenkins"@;
    let args = spec_dmg_args(base, bundle_name, dmg_name, eula, ci_true);
    reveal_strlit("--skip-jenkins");
    reveal_strlit("--volname");
    reveal_strlit("--volicon");
    reveal_strlit("../../../../icons/icon.icns");
    reveal_strlit("--icon");
    reveal_strlit("180");
    reveal_strlit("170");
    reveal_strlit("--app-drop-link");
    reveal_strlit("480");
    reveal_strlit("--window-size");
    reveal_strlit("660");
    reveal_strlit("400");
    reveal_strlit("--hide-extension");
    reveal_strlit("--eula");
    let head = seq![
        "--volname"@,
        base,
        "--volicon"@,
        "../../../../icons/icon.icns"@,
        "--icon"@,
        bundle_name,
        "180"@,
        "170"@,
        "--app-drop-link"@,
        "480"@,
        "170"@,
        "--window-size"@,
        "660"@,
        "400"@,
        "--hide-extension"@,
        bundle_name,
    ];
    let mid: Seq<Seq<char>> = match eula {
        Some(l) => seq!["--eula"@, l],
        None => Seq::empty(),
    };
    let cip: Seq<Seq<char>> = if ci_true {
        seq![flag]
    } else {
        Seq::empty()
    };
    let tail = seq![dmg_name, bundle_name];
    let abc = head + mid + cip;
    assert(args == abc + tail);
    if ci_true {
        assert(abc[16 + mid.len() as int] == cip[0]);
        assert(args[16 + mid.len() as int] == abc[16 + mid.len() as int]);
        assert(args.contains(flag));
    } else {
        assert(head[0] == "--volname"@);
        assert("--volname"@.len() == 9);
        assert(flag.len() == 14);
        assert(head[0] != flag);
        assert(head[2] != flag);
        assert(head[3] != flag);
        assert(head[4] != flag);
        assert(head[6] != flag);
        assert(head[7] != flag);
        assert(head[8] != flag);
        assert(head[9] != flag);
        assert(head[10] != flag);
        assert(head[11] != flag);
        assert(head[12] != flag);
        assert(head[13] != flag);
        assert(head[14] != flag);
        assert forall|i: int| 0 <= i < args.len() implies args[i] != flag by {
            assert(args[i] == (abc + tail)[i]);
            if i < 16 {
                assert((abc + tail)[i] == abc[i]);
                assert(abc[i] == head[i]);
            } else if i < 16 + mid.len() {
                assert((abc + tail)[i] == abc[i]);
                assert(abc[i] == mid[i - 16]);
                assert(mid[0] == "--eula"@);
                assert(mid[0] != flag);
            } else {
                assert((abc + tail)[i] == tail[i - 16 - mid.len()]);
            }
        }
        if args.contains(flag) {
            let i = choose|i: int| 0 <= i < args.len() && args[i] == flag;
            assert(false);
        }
    }
}

/// A produced output: a filesystem path plus the package type that
/// produced it.
pub struct Artifact {
    /// The path of the produced file.
    pub path: String,
    /// The format that produced it.
    pub package_type: PackageType,
}

/// The paths the disk-image bundler works with, each a deterministic
/// function of the settings.
pub struct DmgPaths {
    /// The output directory of the disk-image bundler.
    pub output_path: String,
    /// The support directory under the output directory.
    pub support_path: String,
    /// The name of the produced disk image.
    pub dmg_name: String,
    /// The final path of the produced disk image.
    pub dmg_path: String,
    /// The name of the application bundle.
    pub bundle_name: String,
    /// The directory the application-bundle strategy produced.
    pub bundle_dir: String,
    /// The path of the application bundle.
    pub bundle_path: String,
}

/// Relates the computed paths to the settings they derive from.
pub open spec fn dmg_paths_rel(p: DmgPaths, s: BuildSettings) -> bool {
    let base = spec_base_name(s.binary_name@, s.version@, s.binary_arch@);
    &&& p.output_path@ == s.project_out_directory@ + "/bundle/dmg"@
    &&& p.support_path@ == s.project_out_directory@ + "/bundle/dmg/support"@
    &&& p.dmg_name@ == base + ".dmg"@
    &&& p.dmg_path@ == p.output_path@ + "/"@ + p.dmg_name@
    &&& p.bundle_name@ == base + ".app"@
    &&& p.bundle_dir@ == s.project_out_directory@ + "/bundle/osx"@
    &&& p.bundle_path@ == p.bundle_dir@ + "/"@ + p.bundle_name@
}

/// Computes the deterministic paths of one disk-image run.
pub fn dmg_paths(settings: &BuildSettings) -> (r: DmgPaths)
    ensures
        dmg_paths_rel(r, *settings),
{
    let base = package_base_name(
        settings.main_binary_name().as_str(),
        settings.version_string().as_str(),
        settings.binary_arch().as_str(),
    );

    let mut output_path = settings.project_out_directory().clone();
    output_path.append("/bundle/dmg");
    let mut support_path = settings.project_out_directory().clone();
    support_path.append("/bundle/dmg/support");

    let mut dmg_name = base.clone();
    dmg_name.append(".dmg");
    let mut dmg_path = output_path.clone();
    dmg_path.append("/");
    dmg_path.append(dmg_name.as_str());

    let mut bundle_name = base.clone();
    bundle_name.append(".app");
    let mut bundle_dir = settings.project_out_directory().clone();
    bundle_dir.append("/bundle/osx");
    let mut bundle_path = bundle_dir.clone();
    bundle_path.append("/");
    bundle_path.append(bundle_name.as_str());

    DmgPaths {
        output_path,
        support_path,
        dmg_name,
        dmg_path,
        bundle_name,
        bundle_dir,
        bundle_path,
    }
}

/// The disk-image plan: remove the stale output directory, recreate it,
/// render the three fixed templates, mark the scripts executable, run
/// the packaging script, and move the result to its final path. Every
/// step is a deterministic function of the settings and the `CI` value.
pub fn dmg_plan(settings: &BuildSettings, ci: Option<&String>) -> (r: Vec<DmgStep>)
    ensures
        ({
            let base = spec_base_name(
                settings.binary_name@,
                settings.version@,
                settings.binary_arch@,
            );
            let out_dir = settings.project_out_directory@ + "/bundle/dmg"@;
            let support = settings.project_out_directory@ + "/bundle/dmg/support"@;
            let script = out_dir + "/bundle_dmg.sh"@;
            let license = support + "/dmg-license.py"@;
            &&& r@.len() == 8
            &&& (r@[0] matches DmgStep::RemoveStaleOutput { path } && path@ == out_dir)
            &&& (r@[1] matches DmgStep::CreateSupportDir { path } && path@ == support)
            &&& (r@[2] matches DmgStep::WriteScript { path, contents } && path@ == script
                && contents@ == spec_bundle_script())
            &&& (r@[3] matches DmgStep::WriteScript { path, contents } && path@ == support
                + "/template.applescript"@ && contents@ == spec_layout_script())
            &&& (r@[4] matches DmgStep::WriteScript { path, contents } && path@ == license
                && contents@ == spec_license_script())
            &&& (r@[5] matches DmgStep::MakeExecutable { paths } && paths@.map_values(
                |p: String| p@,
            ) == seq![script, license])
            &&& (r@[6] matches DmgStep::RunPackagingScript { program, args, cwd } && program@
                == script && cwd@ == settings.project_out_directory@ + "/bundle/osx"@
                && args@.map_values(|a: String| a@) == spec_dmg_args(
                base,
                base + ".app"@,
                base + ".dmg"@,
                match settings.osx_license {
                    Some(l) => Some(l@),
                    None => None,
                },
                spec_ci_true(ci),
            ))
            &&& (r@[7] matches DmgStep::RenameResult { from, to } && from@ == settings
                .project_out_directory@ + "/bundle/osx"@ + "/"@ + (base + ".dmg"@) && to@
                == out_dir + "/"@ + (base + ".dmg"@))
        }),
{
    let paths = dmg_paths(settings);

    let mut script_path = paths.output_path.clone();
    script_path.append("/bundle_dmg.sh");
    let mut layout_path = paths.support_path.clone();
    layout_path.append("/template.applescript");
    let mut license_path = paths.support_path.clone();
    license_path.append("/dmg-license.py");

    let base = package_base_name(
        settings.main_binary_name().as_str(),
        settings.version_string().as_str(),
        settings.binary_arch().as_str(),
    );

    let mut args: Vec<String> = Vec::new();
    args.push(String::from_str("--volname"));
    args.push(base.clone());
    args.push(String::from_str("--volicon"));
    args.push(String::from_str("../../../../icons/icon.icns"));
    args.push(String::from_str("--icon"));
    args.push(paths.bundle_name.clone());
    args.push(String::from_str("180"));
    args.push(String::from_str("170"));
    args.push(String::from_str("--app-drop-link"));
    args.push(String::from_str("480"));
    args.push(String::from_str("170"));
    args.push(String::from_str("--window-size"));
    args.push(String::from_str("660"));
    args.push(String::from_str("400"));
    args.push(String::from_str("--hide-extension"));
    args.push(paths.bundle_name.clone());
    match settings.osx_license() {
        Some(l) => {
            args.push(String::from_str("--eula"));
            args.push(l.clone());
        },
        None => {},
    }
    let ci_true = match ci {
        Some(v) => crate::text::str_eq(v.as_str(), "true"),
        None => false,
    };
    if ci_true {
        args.push(String::from_str("--skip-jenkins"));
    }
    args.push(paths.dmg_name.clone());
    args.push(paths.bundle_name.clone());
    proof {
        assert(args@.map_values(|a: String| a@) =~= spec_dmg_args(
            base@,
            base@ + ".app"@,
            base@ + ".dmg"@,
            match settings.osx_license {
                Some(l) => Some(l@),
                None => None,
            },
            spec_ci_true(ci),
        ));
    }

    let mut exec_paths: Vec<String> = Vec::new();
    exec_paths.push(script_path.clone());
    exec_paths.push(license_path.clone());
    proof {
        assert(exec_paths@.map_values(|p: String| p@) =~= seq![script_path@, license_path@]);
    }

    let mut rename_from = paths.bundle_dir.clone();
    rename_from.append("/");
    rename_from.append(paths.dmg_name.as_str());

    let mut plan: Vec<DmgStep> = Vec::new();
    plan.push(DmgStep::RemoveStaleOutput { path: paths.output_path.clone() });
    plan.push(DmgStep::CreateSupportDir { path: paths.support_path.clone() });
    plan.push(DmgStep::WriteScript {
        path: script_path.clone(),
        contents: String::from_str(
            "#!/usr/bin/env bash\nset -e\nhdiutil create -volname \"$1\" -srcfolder \"$2\" -ov -format UDZO \"$3\"\n",
        ),
    });
    plan.push(DmgStep::WriteScript {
        path: layout_path,
        contents: String::from_str(
            "tell application \"Finder\"\n  tell disk \"$VOLNAME\"\n    open\n    close\nend tell\n",
        ),
    });
    plan.push(DmgStep::WriteScript {
        path: license_path,
        contents: String::from_str(
            "#!/usr/bin/env python\nimport sys\nprint(\"attach license to image\")\n",
        ),
    });
    plan.push(DmgStep::MakeExecutable { paths: exec_paths });
    plan.push(DmgStep::RunPackagingScript {
        program: script_path,
        args,
        cwd: paths.bundle_dir.clone(),
    });
    plan.push(DmgStep::RenameResult { from: rename_from, to: paths.dmg_path.clone() });
    plan
}

/// The artifacts of a successful disk-image run: the application bundle
/// and the disk image, under their deterministic paths.
pub fn dmg_artifacts(settings: &BuildSettings) -> (r: Vec<Artifact>)
    ensures
        ({
            let base = spec_base_name(
                settings.binary_name@,
                settings.version@,
                settings.binary_arch@,
            );
            &&& r@.len() == 2
            &&& r@[0].package_type == PackageType::OsxBundle
            &&& r@[0].path@ == settings.project_out_directory@ + "/bundle/osx"@ + "/"@ + (base
                + ".app"@)
            &&& r@[1].package_type == PackageType::Dmg
            &&& r@[1].path@ == settings.project_out_directory@ + "/bundle/dmg"@ + "/"@ + (base
                + ".dmg"@)
        }),
{
    let paths = dmg_paths(settings);
    let mut out: Vec<Artifact> = Vec::new();
    out.push(Artifact { path: paths.bundle_path, package_type: PackageType::OsxBundle });
    out.push(Artifact { path: paths.dmg_path, package_type: PackageType::Dmg });
    out
}

/// The error produced when the packaging script fails: in non-verbose
/// mode the message suggests re-running with verbose output.
pub open spec fn spec_dmg_failure_msg(verbose: bool) -> Seq<char> {
    if verbose {
        "error running bundle_dmg.sh"@
    } else {
        "error running bundle_dmg.sh"@ + ", try running with --verbose to see command output"@
    }
}

/// Builds the error for a failed packaging-script run.
pub fn dmg_failure_error(verbose: bool) -> (r: BuildError)
    ensures
        r matches BuildError::ProcessExecution(m) && m@ == spec_dmg_failure_msg(verbose),
{
    let mut m = String::from_str("error running bundle_dmg.sh");
    if !verbose {
        m.append(", try running with --verbose to see command output");
    }
    BuildError::ProcessExecution(m)
}

// Idempotent regeneration: the files under the output directory after
// the pre-invocation steps do not depend on what a previous run left
// behind.

/// The files under the output directory, by path, after the plan's
/// steps from `i` on ran, starting from `state`. Only the steps that
/// run before the packaging tool touch the model: removing the stale
/// output directory clears it, writing a script adds one file.
pub open spec fn dir_after(
    state: Map<Seq<char>, Seq<char>>,
    steps: Seq<DmgStep>,
    i: int,
) -> Map<Seq<char>, Seq<char>>
    decreases steps.len() - i,
{
    if i < 0 || i >= steps.len() {
        state
    } else {
        let next = match steps[i] {
            DmgStep::RemoveStaleOutput { .. } => Map::empty(),
            DmgStep::WriteScript { path, contents } => state.insert(path@, contents@),
            _ => state,
        };
        dir_after(next, steps, i + 1)
    }
}

/// Law: a plan that begins by removing the stale output directory
/// regenerates the same directory contents whatever a previous run left
/// behind: the resulting files are byte-identical for any two initial
/// states.
pub proof fn lemma_regeneration_idempotent(
    s1: Map<Seq<char>, Seq<char>>,
    s2: Map<Seq<char>, Seq<char>>,
    steps: Seq<DmgStep>,
)
    requires
        steps.len() > 0,
        steps[0] matches DmgStep::RemoveStaleOutput { .. },
    ensures
        dir_after(s1, steps, 0) == dir_after(s2, steps, 0),
{
    assert(dir_after(s1, steps, 0) == dir_after(Map::empty(), steps, 1));
    assert(dir_after(s2, steps, 0) == dir_after(Map::empty(), steps, 1));
}

} // verus!
