use tauri_cli::config::Config;
use tauri_cli::package_type::PackageType;
use tauri_cli::pipeline::{advance, build_plan, process_failure, strategy_sequence, BuildStep,
    NextAction, StepOutcome};
use tauri_cli::settings::{BuildError, SettingsBuilder};
use tauri_cli::text::tokenize;
use tauri_cli::Json;

fn s(x: &str) -> String {
    x.to_string()
}

fn obj(entries: Vec<(&str, Json)>) -> Json {
    Json::Obj(entries.into_iter().map(|(k, v)| (s(k), v)).collect())
}

fn config_with(before_build: Option<&str>, bundle_active: bool) -> Config {
    let mut build_entries = vec![("distDir", Json::Str(s("../dist")))];
    if let Some(cmd) = before_build {
        build_entries.push(("beforeBuildCommand", Json::Str(s(cmd))));
    }
    let doc = obj(vec![
        ("build", obj(build_entries)),
        (
            "tauri",
            obj(vec![(
                "bundle",
                obj(vec![
                    ("active", Json::Bool(bundle_active)),
                    ("identifier", Json::Str(s("com.example"))),
                ]),
            )]),
        ),
    ]);
    Config::from_json(&doc).unwrap()
}

#[test]
fn tokenize_splits_on_spaces_and_drops_empty_tokens() {
    let toks = tokenize("npm  run build ");
    assert_eq!(toks, vec![s("npm"), s("run"), s("build")]);
    assert!(tokenize("").is_empty());
    assert!(tokenize("   ").is_empty());
    assert_eq!(tokenize("make"), vec![s("make")]);
}

#[test]
fn strategy_sequence_expands_disk_image_dependency() {
    let order = strategy_sequence(&vec![PackageType::Deb, PackageType::Dmg]);
    assert_eq!(order, vec![PackageType::Deb, PackageType::OsxBundle, PackageType::Dmg]);
}

#[test]
fn plan_orders_prebuild_before_compile_before_bundles() {
    let config = config_with(Some("npm run build"), true);
    let settings = {
        let mut b = SettingsBuilder::new();
        b.target_names = Some(vec![s("dmg")]);
        b.build().unwrap()
    };
    let plan = build_plan(&config, &settings, &s("src-tauri"), &s("."), &vec![]);

    assert!(matches!(&plan[0], BuildStep::ExportPaths { shell_dir, dist_dir }
        if shell_dir == "src-tauri" && dist_dir == "src-tauri/../dist"));
    assert!(matches!(&plan[1], BuildStep::WriteBridgingScript { path, .. }
        if path == "src-tauri/../dist/__tauri.js"));
    match &plan[2] {
        BuildStep::RunPreBuildCommand { program, args, cwd } => {
            assert_eq!(program, "npm");
            assert_eq!(args, &vec![s("run"), s("build")]);
            assert_eq!(cwd, ".");
        }
        _ => panic!("the pre-build command must precede compilation"),
    }
    assert!(matches!(plan[3], BuildStep::Compile));
    assert!(matches!(plan[4], BuildStep::BundlePackage { package_type: PackageType::OsxBundle }));
    assert!(matches!(plan[5], BuildStep::BundlePackage { package_type: PackageType::Dmg }));
    assert_eq!(plan.len(), 6);
}

#[test]
fn inactive_bundle_flag_means_no_bundle_steps() {
    let config = config_with(None, false);
    let settings = SettingsBuilder::new().build().unwrap();
    let plan = build_plan(&config, &settings, &s("src-tauri"), &s("."), &vec![]);
    assert!(matches!(plan.last().unwrap(), BuildStep::Compile));
    assert!(!plan.iter().any(|st| matches!(st, BuildStep::BundlePackage { .. })));
}

#[test]
fn failing_prebuild_command_prevents_compilation_and_bundling() {
    let config = config_with(Some("false-command --flag"), true);
    let settings = {
        let mut b = SettingsBuilder::new();
        b.target_names = Some(vec![s("dmg")]);
        b.build().unwrap()
    };
    let plan = build_plan(&config, &settings, &s("src-tauri"), &s("."), &vec![]);

    // Drive the plan as the build runner would: every step reports its
    // outcome, and the pre-build command fails.
    let mut performed: Vec<usize> = Vec::new();
    let mut idx = 0usize;
    let mut aborted = None;
    loop {
        performed.push(idx);
        let outcome = match &plan[idx] {
            BuildStep::RunPreBuildCommand { .. } => {
                StepOutcome::Failure(BuildError::ProcessExecution(s("exit status 1")))
            }
            _ => StepOutcome::Success,
        };
        match advance(&plan, idx, outcome) {
            NextAction::RunStep(next) => idx = next,
            NextAction::Done => break,
            NextAction::Abort(e) => {
                aborted = Some(e);
                break;
            }
        }
    }

    let e = aborted.expect("a failing pre-build command aborts the build");
    assert!(matches!(e, BuildError::ProcessExecution(m) if m == "exit status 1"));
    // Neither compilation nor any bundler step ran.
    for i in performed {
        assert!(!matches!(plan[i], BuildStep::Compile));
        assert!(!matches!(plan[i], BuildStep::BundlePackage { .. }));
    }
}

#[test]
fn subprocess_failures_carry_the_command_name() {
    match process_failure("bundle_dmg.sh", "exit status 2") {
        BuildError::ProcessExecution(m) => assert_eq!(m, "bundle_dmg.sh: exit status 2"),
        _ => panic!("subprocess failures normalize to one error kind"),
    }
}

#[test]
fn bridging_script_depends_on_global_flag() {
    let with_global = Config::from_json(&obj(vec![(
        "build",
        obj(vec![("withGlobalTauri", Json::Bool(true))]),
    )]))
    .unwrap();
    let settings = SettingsBuilder::new().build().unwrap();
    let plan = build_plan(&with_global, &settings, &s("src-tauri"), &s("."), &vec![]);
    match &plan[1] {
        BuildStep::WriteBridgingScript { contents, .. } => {
            assert!(contents.contains("__TAURI__"));
        }
        _ => panic!("the bridging script is written before compilation"),
    }
}
