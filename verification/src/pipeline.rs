//! The build pipeline: the ordered step plan for one build invocation,
//! the strategy order with dependencies resolved, and the driver rule
//! that stops the build at the first failing step.

use vstd::prelude::*;

use crate::config::Config;
use crate::package_type::PackageType;
use crate::settings::{BuildError, BuildSettings};
use crate::text::{tokens_of, tokenize};

verus! {

/// One step of a build invocation, in execution order. The caller
/// performs each step and reports its outcome.
pub enum BuildStep {
    /// Export the native-shell directory and the resolved distribution
    /// directory as process-wide path variables.
    ExportPaths { shell_dir: String, dist_dir: String },
    /// Write the generated bridging script into the distribution
    /// directory.
    WriteBridgingScript { path: String, contents: String },
    /// Run the configured pre-build command, tokenized on spaces, with
    /// the application's root directory as working directory; it must
    /// exit successfully.
    RunPreBuildCommand { program: String, args: Vec<String>, cwd: String },
    /// Compile the application.
    Compile,
    /// Run one bundler strategy.
    BundlePackage { package_type: PackageType },
}

/// The content of the bridging script, depending on whether the global
/// bridging object is injected.
pub open spec fn spec_bridging_script(with_global: bool) -> Seq<char> {
    if with_global {
        "window.__TAURI__ = true;\n"@
    } else {
        "\n"@
    }
}

/// The generated bridging script.
pub fn bridging_script(with_global: bool) -> (r: String)
    ensures
        r@ == spec_bridging_script(with_global),
{
    if with_global {
        String::from_str("window.__TAURI__ = true;\n")
    } else {
        String::from_str("\n")
    }
}

/// The strategies to run for the requested formats, in order, with
/// dependencies resolved: a disk image needs the application bundle, so
/// each disk-image request expands to the bundle strategy followed by
/// the disk-image strategy.
pub open spec fn expand_types(ts: Seq<PackageType>, i: int) -> Seq<PackageType>
    decreases ts.len() - i,
{
    if i < 0 || i >= ts.len() {
        Seq::empty()
    } else {
        (if ts[i] == PackageType::Dmg {
            seq![PackageType::OsxBundle, PackageType::Dmg]
        } else {
            seq![ts[i]]
        }) + expand_types(ts, i + 1)
    }
}

/// Resolves the strategy order for the requested formats.
#[verifier::loop_isolation(false)]
pub fn strategy_sequence(requested: &Vec<PackageType>) -> (r: Vec<PackageType>)
    ensures
        r@ == expand_types(requested@, 0),
{
    let mut out: Vec<PackageType> = Vec::new();
    let mut i: usize = 0;
    while i < requested.len()
        invariant
            i <= requested@.len(),
            expand_types(requested@, 0) == out@ + expand_types(requested@, i as int),
        decreases requested@.len() - i,
    {
        let ghost out0 = out@;
        let t = requested[i];
        if matches!(t, PackageType::Dmg) {
            out.push(PackageType::OsxBundle);
            out.push(PackageType::Dmg);
            proof {
                assert(out@ =~= out0 + seq![PackageType::OsxBundle, PackageType::Dmg]);
                assert(out0 + (seq![PackageType::OsxBundle, PackageType::Dmg] + expand_types(
                    requested@,
                    i as int + 1,
                )) =~= out@ + expand_types(requested@, i as int + 1));
            }
        } else {
            out.push(t);
            proof {
                assert(out0 + (seq![t] + expand_types(requested@, i as int + 1)) =~= out@
                    + expand_types(requested@, i as int + 1));
            }
        }
        i += 1;
    }
    proof {
        assert(out@ + Seq::<PackageType>::empty() =~= out@);
    }
    out
}

/// Law: the expanded strategy order runs the application-bundle
/// strategy immediately before every disk-image strategy, so the
/// dependency has always completed when its dependent starts.
pub proof fn lemma_dmg_follows_its_dependency(ts: Seq<PackageType>, i: int, j: int)
    requires
        0 <= i <= ts.len(),
        0 <= j < expand_types(ts, i).len(),
        expand_types(ts, i)[j] == PackageType::Dmg,
    ensures
        j > 0 && expand_types(ts, i)[j - 1] == PackageType::OsxBundle,
    decreases ts.len() - i,
{
    if i < ts.len() {
        let head: Seq<PackageType> = if ts[i] == PackageType::Dmg {
            seq![PackageType::OsxBundle, PackageType::Dmg]
        } else {
            seq![ts[i]]
        };
        let rest = expand_types(ts, i + 1);
        if j >= head.len() {
            lemma_dmg_follows_its_dependency(ts, i + 1, j - head.len());
            assert(expand_types(ts, i)[j - 1] == (if j - 1 >= head.len() {
                rest[j - 1 - head.len()]
            } else {
                head[j - 1]
            }));
        }
    }
}

/// The uniform failure translation of a subprocess: a non-zero exit or
/// a spawn failure becomes one error kind carrying the command name and
/// the captured diagnostic output.
pub fn process_failure(program: &str, detail: &str) -> (r: BuildError)
    ensures
        r matches BuildError::ProcessExecution(m) && m@ == program@ + ": "@ + detail@,
{
    let mut m = program.to_owned();
    m.append(": ");
    m.append(detail);
    BuildError::ProcessExecution(m)
}

/// The outcome the caller reports for one performed step.
pub enum StepOutcome {
    /// The step completed.
    Success,
    /// The step failed; carries the error it failed with — a process
    /// failure for subprocesses, a filesystem error for file work.
    Failure(BuildError),
}

/// What the driver does next.
pub enum NextAction {
    /// Perform the step at this index.
    RunStep(usize),
    /// Every step completed.
    Done,
    /// Abort the build: a step failed, nothing later runs.
    Abort(BuildError),
}

/// The driver rule: after the step at `idx` reports its outcome, either
/// the next step runs, the build is done, or — on any failure — the
/// build aborts with the step's own error, so that no later step
/// (compilation, bundling) starts.
pub fn advance(plan: &Vec<BuildStep>, idx: usize, outcome: StepOutcome) -> (r: NextAction)
    requires
        idx < plan@.len(),
    ensures
        match outcome {
            StepOutcome::Failure(d) => r == NextAction::Abort(d),
            StepOutcome::Success => {
                if idx + 1 < plan@.len() {
                    r == NextAction::RunStep((idx + 1) as usize)
                } else {
                    r == NextAction::Done
                }
            },
        },
{
    match outcome {
        StepOutcome::Failure(d) => NextAction::Abort(d),
        StepOutcome::Success => {
            if idx < plan.len() - 1 {
                NextAction::RunStep(idx + 1)
            } else {
                NextAction::Done
            }
        },
    }
}

/// The index of the compilation step in a build plan: right after the
/// path exports and the bridging script, and after the pre-build
/// command when one is configured and tokenizes to something.
pub open spec fn compile_index(config: &Config) -> int {
    match config.build.before_build_command {
        Some(cmd) => if tokens_of(cmd@).len() > 0 {
            3
        } else {
            2
        },
        None => 2,
    }
}

/// The strategies a plan bundles: the requested formats (or the
/// platform default when none were requested) with dependencies
/// resolved, and nothing when the bundle-activation flag is off.
pub open spec fn planned_types(
    config: &Config,
    settings: &BuildSettings,
    default_types: Seq<PackageType>,
) -> Seq<PackageType> {
    if config.tauri.bundle.active {
        expand_types(
            match settings.package_types {
                Some(ts) => ts@,
                None => default_types,
            },
            0,
        )
    } else {
        Seq::empty()
    }
}

/// The ordered plan of one build invocation, pinned step by step: the
/// path exports and the bridging script come first, the configured
/// pre-build command (if any) completes before compilation, compilation
/// completes before any bundler strategy, and bundle steps exist only
/// when the bundle-activation flag is set, with a requested disk image
/// preceded by its application-bundle dependency. The distribution
/// directory is configured relative to the native-shell directory, so
/// both exported paths and the bridging script resolve under it.
#[verifier::loop_isolation(false)]
pub fn build_plan(
    config: &Config,
    settings: &BuildSettings,
    shell_dir: &String,
    app_root: &String,
    default_types: &Vec<PackageType>,
) -> (r: Vec<BuildStep>)
    ensures
        ({
            let resolved_dist = shell_dir@ + "/"@ + config.build.dist_dir@;
            let c = compile_index(config);
            let types = planned_types(config, settings, default_types@);
            &&& r@.len() == c + 1 + types.len()
            &&& (r@[0] matches BuildStep::ExportPaths { shell_dir: s, dist_dir: d } && s@
                == shell_dir@ && d@ == resolved_dist)
            &&& (r@[1] matches BuildStep::WriteBridgingScript { path, contents } && path@
                == resolved_dist + "/__tauri.js"@ && contents@ == spec_bridging_script(
                config.build.with_global_tauri,
            ))
            &&& (c == 3 ==> (r@[2] matches BuildStep::RunPreBuildCommand { program, args, cwd }
                && {
                let toks = tokens_of(config.build.before_build_command->0@);
                &&& program@ == toks[0]
                &&& args@.map_values(|a: String| a@) == toks.drop_first()
                &&& cwd@ == app_root@
            }))
            &&& r@[c] == BuildStep::Compile
            &&& (forall|m: int| c < m < r@.len() ==> (#[trigger] r@[m]) ==
                (BuildStep::BundlePackage { package_type: types[m - c - 1] }))
        }),
{
    let mut resolved_dist = shell_dir.clone();
    resolved_dist.append("/");
    resolved_dist.append(config.build.dist_dir.as_str());

    let mut plan: Vec<BuildStep> = Vec::new();
    plan.push(BuildStep::ExportPaths {
        shell_dir: shell_dir.clone(),
        dist_dir: resolved_dist.clone(),
    });
    let mut script_path = resolved_dist;
    script_path.append("/__tauri.js");
    plan.push(BuildStep::WriteBridgingScript {
        path: script_path,
        contents: bridging_script(config.build.with_global_tauri),
    });
    match &config.build.before_build_command {
        Some(cmd) => {
            let mut toks = tokenize(cmd.as_str());
            if toks.len() > 0 {
                let ghost toksv = toks@.map_values(|t: String| t@);
                let program = toks.remove(0);
                proof {
                    assert(toks@.map_values(|a: String| a@) =~= toksv.drop_first());
                }
                plan.push(BuildStep::RunPreBuildCommand {
                    program,
                    args: toks,
                    cwd: app_root.clone(),
                });
            }
        },
        None => {},
    }
    let ghost c = plan@.len() as int;
    plan.push(BuildStep::Compile);
    let ghost pre = plan@;
    if config.tauri.bundle.active {
        let requested: &Vec<PackageType> = match &settings.package_types {
            Some(ts) => ts,
            None => default_types,
        };
        let order = strategy_sequence(requested);
        let ghost types = order@;
        let mut i: usize = 0;
        while i < order.len()
            invariant
                i <= order@.len(),
                types == order@,
                plan@.len() == c + 1 + i,
                plan@.subrange(0, c + 1) == pre,
                forall|m: int| c < m < plan@.len() ==> (#[trigger] plan@[m]) ==
                    (BuildStep::BundlePackage { package_type: types[m - c - 1] }),
            decreases order@.len() - i,
        {
            plan.push(BuildStep::BundlePackage { package_type: order[i] });
            proof {
                assert(plan@.subrange(0, c + 1) =~= pre);
            }
            i += 1;
        }
    }
    proof {
        assert(plan@.subrange(0, c + 1) =~= pre);
        assert(plan@[0] == pre[0]);
        assert(plan@[1] == pre[1]);
        assert(plan@[c] == pre[c]);
        assert(plan@[c] == BuildStep::Compile);
        if c == 3 {
            assert(plan@[2] == pre[2]);
        }
    }
    plan
}

} // verus!
