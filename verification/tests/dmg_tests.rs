use std::collections::HashMap;

use tauri_cli::dmg::{canonical_arch, dmg_artifacts, dmg_failure_error, dmg_plan,
    package_base_name, DmgStep};
use tauri_cli::package_type::PackageType;
use tauri_cli::settings::{BuildError, BuildSettings, SettingsBuilder};

fn s(x: &str) -> String {
    x.to_string()
}

fn settings() -> BuildSettings {
    let mut b = SettingsBuilder::new();
    b.binary_name = s("App");
    b.version = s("1.2.0");
    b.binary_arch = s("x86_64");
    b.project_out_directory = s("target/release");
    b.build().unwrap()
}

#[test]
fn base_name_canonicalizes_architecture() {
    assert_eq!(package_base_name("App", "1.2.0", "x86_64"), "App_1.2.0_x64");
    assert_eq!(package_base_name("App", "1.2.0", "aarch64"), "App_1.2.0_aarch64");
    assert_eq!(canonical_arch("x86_64"), "x64");
    assert_eq!(canonical_arch("armv7"), "armv7");
}

#[test]
fn plan_names_paths_deterministically() {
    let plan = dmg_plan(&settings(), None);
    assert!(matches!(&plan[0], DmgStep::RemoveStaleOutput { path }
        if path == "target/release/bundle/dmg"));
    assert!(matches!(&plan[1], DmgStep::CreateSupportDir { path }
        if path == "target/release/bundle/dmg/support"));
    assert!(matches!(&plan[2], DmgStep::WriteScript { path, .. }
        if path == "target/release/bundle/dmg/bundle_dmg.sh"));
    assert!(matches!(&plan[7], DmgStep::RenameResult { from, to }
        if from == "target/release/bundle/osx/App_1.2.0_x64.dmg"
            && to == "target/release/bundle/dmg/App_1.2.0_x64.dmg"));
}

#[test]
fn ci_true_adds_the_headless_flag() {
    let ci = s("true");
    let plan = dmg_plan(&settings(), Some(&ci));
    let args = plan
        .iter()
        .find_map(|st| match st {
            DmgStep::RunPackagingScript { args, .. } => Some(args.clone()),
            _ => None,
        })
        .unwrap();
    assert!(args.iter().any(|a| a == "--skip-jenkins"));

    for other in [None, Some(s("false")), Some(s("1")), Some(s("TRUE"))] {
        let plan = dmg_plan(&settings(), other.as_ref());
        let args = plan
            .iter()
            .find_map(|st| match st {
                DmgStep::RunPackagingScript { args, .. } => Some(args.clone()),
                _ => None,
            })
            .unwrap();
        assert!(!args.iter().any(|a| a == "--skip-jenkins"));
    }
}

#[test]
fn packaging_arguments_carry_names_geometry_and_license() {
    let mut st = settings();
    st.osx_license = Some(s("LICENSE.txt"));
    let plan = dmg_plan(&st, None);
    match plan
        .iter()
        .find(|step| matches!(step, DmgStep::RunPackagingScript { .. }))
        .unwrap()
    {
        DmgStep::RunPackagingScript { program, args, cwd } => {
            assert_eq!(program, "target/release/bundle/dmg/bundle_dmg.sh");
            assert_eq!(cwd, "target/release/bundle/osx");
            assert_eq!(args[0], "--volname");
            assert_eq!(args[1], "App_1.2.0_x64");
            assert_eq!(args[5], "App_1.2.0_x64.app");
            assert!(args.windows(2).any(|w| w[0] == "--eula" && w[1] == "LICENSE.txt"));
            assert_eq!(args[args.len() - 2], "App_1.2.0_x64.dmg");
            assert_eq!(args[args.len() - 1], "App_1.2.0_x64.app");
        }
        _ => unreachable!(),
    }
}

/// Replays the pre-invocation steps of a plan against a directory state,
/// as the build runner would: removing the stale output directory clears
/// it, writing a script adds one file.
fn replay(plan: &[DmgStep], mut state: HashMap<String, String>) -> HashMap<String, String> {
    for step in plan {
        match step {
            DmgStep::RemoveStaleOutput { .. } => state.clear(),
            DmgStep::WriteScript { path, contents } => {
                state.insert(path.clone(), contents.clone());
            }
            DmgStep::RunPackagingScript { .. } => break,
            _ => {}
        }
    }
    state
}

#[test]
fn regeneration_is_idempotent_whatever_was_left_behind() {
    let plan1 = dmg_plan(&settings(), None);
    let plan2 = dmg_plan(&settings(), None);

    let fresh = replay(&plan1, HashMap::new());
    let mut stale = HashMap::new();
    stale.insert(s("target/release/bundle/dmg/leftover.tmp"), s("junk"));
    stale.insert(s("target/release/bundle/dmg/bundle_dmg.sh"), s("old script"));
    let regenerated = replay(&plan2, stale);

    assert_eq!(fresh, regenerated);
    assert_eq!(fresh.len(), 3);
    assert!(fresh.contains_key("target/release/bundle/dmg/bundle_dmg.sh"));
    assert!(fresh.contains_key("target/release/bundle/dmg/support/template.applescript"));
    assert!(fresh.contains_key("target/release/bundle/dmg/support/dmg-license.py"));
}

#[test]
fn artifacts_are_the_bundle_and_the_image() {
    let arts = dmg_artifacts(&settings());
    assert_eq!(arts.len(), 2);
    assert_eq!(arts[0].package_type, PackageType::OsxBundle);
    assert_eq!(arts[0].path, "target/release/bundle/osx/App_1.2.0_x64.app");
    assert_eq!(arts[1].package_type, PackageType::Dmg);
    assert_eq!(arts[1].path, "target/release/bundle/dmg/App_1.2.0_x64.dmg");
}

#[test]
fn failure_message_suggests_verbose_only_when_quiet() {
    match dmg_failure_error(false) {
        BuildError::ProcessExecution(m) => {
            assert!(m.contains("bundle_dmg.sh"));
            assert!(m.contains("--verbose"));
        }
        _ => panic!("packaging failure is a process-execution error"),
    }
    match dmg_failure_error(true) {
        BuildError::ProcessExecution(m) => {
            assert!(m.contains("bundle_dmg.sh"));
            assert!(!m.contains("--verbose"));
        }
        _ => panic!("packaging failure is a process-execution error"),
    }
}
