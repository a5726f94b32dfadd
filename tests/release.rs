use build_release::metadata::{container_file, debian_control, rpm_spec};
use build_release::metrics::{
    ClassMetricsTableEntry, MulticlassClassificationOverallProductionMetrics,
    TrainingProductionMetrics,
};
use build_release::naming::{
    cli_tarball_file_name, container_image_tag, deb_file_name, join_path,
    library_tarball_file_name, rpm_file_name, rpm_tool_output_file_name,
};
use build_release::orchestrator::{
    classify_failure, ActionFailure, Args, Directive, Outcome, ReleasePlan, ReleaseRun,
    RunState, StepDirective, StepRun,
};
use build_release::steps::{
    cli_tarball_plan, container_plan, deb_plan, library_tarball_plan, plan_step, rpm_plan,
    Action, OutputKind, ReleaseError, Step, StepPlan,
};
use build_release::target::{
    debian_architecture_for, file_names_for, rpm_architecture_for, str_eq, target_file_names,
    CatalogError, Target,
};

const MUSL: Target = Target::X8664UnknownLinuxMusl;

fn write_contents(plan: &StepPlan, path: &str) -> String {
    for a in plan.actions.iter() {
        if let Action::WriteFile { path: p, contents } = a {
            if p == path {
                return contents.clone();
            }
        }
    }
    panic!("no file written at {}", path);
}

#[test]
fn every_target_has_four_distinct_file_names() {
    for t in Target::all() {
        let n = target_file_names(t);
        let names = [
            n.cli_file_name.clone(),
            n.header_file_name.clone(),
            n.dynamic_library_file_name.clone(),
            n.static_library_file_name.clone(),
        ];
        for (i, a) in names.iter().enumerate() {
            assert!(!a.is_empty());
            for b in names.iter().skip(i + 1) {
                assert_ne!(a, b);
            }
        }
    }
}

#[test]
fn file_names_of_windows_msvc() {
    let n = file_names_for("x86_64-pc-windows-msvc").unwrap();
    assert_eq!(n.cli_file_name, "tangram.exe");
    assert_eq!(n.header_file_name, "tangram.h");
    assert_eq!(n.dynamic_library_file_name, "tangram.dll");
    assert_eq!(n.static_library_file_name, "tangram.lib");
}

#[test]
fn file_names_of_linux_and_darwin() {
    let n = file_names_for("x86_64-unknown-linux-musl").unwrap();
    assert_eq!(n.cli_file_name, "tangram");
    assert_eq!(n.dynamic_library_file_name, "libtangram.so");
    assert_eq!(n.static_library_file_name, "libtangram.a");
    let n = file_names_for("aarch64-apple-darwin").unwrap();
    assert_eq!(n.dynamic_library_file_name, "libtangram.dylib");
}

#[test]
fn unknown_target_is_not_found() {
    assert_eq!(file_names_for("riscv64-unknown-linux-gnu").err(), Some(CatalogError::NotFound));
    assert_eq!(Target::from_id("").err(), Some(CatalogError::NotFound));
    assert_eq!(Target::from_id("x86_64-apple-darwin"), Ok(Target::X8664AppleDarwin));
}

#[test]
fn identifiers_round_trip() {
    for t in Target::all() {
        assert_eq!(Target::from_id(t.as_str()), Ok(t));
    }
}

#[test]
fn architecture_labels() {
    assert_eq!(debian_architecture_for(MUSL), Ok("amd64"));
    assert_eq!(rpm_architecture_for(MUSL), Ok("x86_64"));
    assert_eq!(debian_architecture_for(Target::X8664AppleDarwin), Err(CatalogError::Unsupported));
    assert_eq!(rpm_architecture_for(Target::X8664PcWindowsGnu), Err(CatalogError::Unsupported));
}

#[test]
fn string_equality() {
    assert!(str_eq("abc", "abc"));
    assert!(!str_eq("abc", "abd"));
    assert!(!str_eq("abc", "ab"));
    assert!(str_eq("", ""));
}

#[test]
fn output_names() {
    assert_eq!(cli_tarball_file_name("1.0.0", MUSL), "tangram_cli_1.0.0_x86_64-unknown-linux-musl.tar.gz");
    assert_eq!(library_tarball_file_name("1.0.0", Target::X8664AppleDarwin), "libtangram_1.0.0_x86_64-apple-darwin.tar.gz");
    assert_eq!(deb_file_name("9.9.9", "amd64"), "tangram_9.9.9_amd64.deb");
    assert_eq!(rpm_file_name("9.9.9", "x86_64"), "tangram_9.9.9_x86_64.rpm");
    assert_eq!(rpm_tool_output_file_name("9.9.9", "x86_64"), "tangram-9.9.9-1.x86_64.rpm");
    assert_eq!(container_image_tag("9.9.9"), "docker.io/tangramxyz/tangram:9.9.9");
    assert_eq!(join_path("a", "b"), "a/b");
}

#[test]
fn control_file_text() {
    let c = debian_control("amd64", "9.9.9");
    assert_eq!(
        c,
        "Package: tangram\nArchitecture: amd64\nVersion: 9.9.9\nMaintainer: Tangram <root@tangram.xyz>\nHomepage: https://www.tangram.xyz\nDescription: Tangram is an automated machine learning framework designed for programmers.\n"
    );
}

#[test]
fn spec_file_text() {
    let s = rpm_spec("2.0");
    assert!(s.starts_with("Name: tangram\nVersion: 2.0\nRelease: 1\n"));
    assert!(s.contains("License: MIT\n"));
    assert!(s.contains("Source0: tangram.tar.gz\n"));
    assert!(s.contains("%prep\n%setup -q\n"));
    assert!(s.contains("%install\n"));
    assert!(s.contains("%files\n%attr(0755, root, root) %_bindir/tangram\n"));
}

#[test]
fn container_file_text() {
    assert_eq!(
        container_file("dist/x86_64-unknown-linux-musl/tangram"),
        "FROM docker.io/alpine\nWORKDIR /\nCOPY dist/x86_64-unknown-linux-musl/tangram .\nENTRYPOINT [\"/tangram\"]\n"
    );
}

#[test]
fn deb_package_for_static_linux() {
    let plan = deb_plan("/w", "9.9.9", MUSL).unwrap();
    let control = write_contents(&plan, "/w/dist/deb/DEBIAN/control");
    assert!(control.lines().any(|l| l == "Architecture: amd64"));
    assert!(control.lines().any(|l| l == "Version: 9.9.9"));
    match &plan.actions[0] {
        Action::ResetDirectory { path } => assert_eq!(path, "/w/dist/deb"),
        a => panic!("unexpected first action {:?}", a),
    }
    match &plan.actions[2] {
        Action::CopyFile { from, to } => {
            assert_eq!(from, "/w/dist/x86_64-unknown-linux-musl/tangram");
            assert_eq!(to, "/w/dist/deb/usr/bin/tangram");
        }
        a => panic!("unexpected action {:?}", a),
    }
    let tool = plan.actions.iter().find_map(|a| match a {
        Action::RunTool { argv } => Some(argv.clone()),
        _ => None,
    });
    assert_eq!(
        tool.unwrap(),
        vec!["dpkg-deb", "--build", "/w/dist/deb", "/w/dist/release/tangram_9.9.9_amd64.deb"]
    );
    match plan.actions.last().unwrap() {
        Action::RemoveDirectory { path } => assert_eq!(path, "/w/dist/deb"),
        a => panic!("unexpected last action {:?}", a),
    }
    assert_eq!(plan.cleanup.len(), 1);
}

#[test]
fn rpm_package_for_static_linux() {
    let plan = rpm_plan("/w", "9.9.9", MUSL).unwrap();
    let spec = write_contents(&plan, "/w/dist/rpm/SPECS/tangram.spec");
    assert!(spec.lines().any(|l| l == "Version: 9.9.9"));
    assert!(spec.lines().any(|l| l == "Release: 1"));
    let archive = plan.actions.iter().find_map(|a| match a {
        Action::Archive { entries, output } => Some((entries.clone(), output.clone())),
        _ => None,
    });
    let (entries, output) = archive.unwrap();
    assert_eq!(output, "/w/dist/rpm/SOURCES/tangram.tar.gz");
    assert_eq!(entries.len(), 1);
    assert_eq!(entries[0].name, "tangram-9.9.9/tangram");
    let copy = plan.actions.iter().rev().find_map(|a| match a {
        Action::CopyFile { from, to } => Some((from.clone(), to.clone())),
        _ => None,
    });
    assert_eq!(
        copy.unwrap(),
        (
            "/w/dist/rpm/RPMS/x86_64/tangram-9.9.9-1.x86_64.rpm".to_string(),
            "/w/dist/release/tangram_9.9.9_x86_64.rpm".to_string()
        )
    );
    match plan.actions.last().unwrap() {
        Action::RemoveDirectory { path } => assert_eq!(path, "/w/dist/rpm"),
        a => panic!("unexpected last action {:?}", a),
    }
}

#[test]
fn deb_for_unmapped_target_is_unsupported() {
    assert_eq!(deb_plan("/w", "9.9.9", Target::X8664AppleDarwin).err(), Some(ReleaseError::UnsupportedTarget));
    assert_eq!(rpm_plan("/w", "9.9.9", Target::X8664PcWindowsMsvc).err(), Some(ReleaseError::UnsupportedTarget));
    let step = Step { kind: OutputKind::Deb, target: Target::X8664UnknownLinuxGnu };
    assert_eq!(plan_step("/w", "9.9.9", step).err(), Some(ReleaseError::UnsupportedTarget));
}

#[test]
fn tarball_plans_keep_entry_order() {
    let plan = library_tarball_plan("/w", "1.2.3", Target::X8664PcWindowsMsvc);
    match &plan.actions[0] {
        Action::Archive { entries, output } => {
            let names: Vec<&str> = entries.iter().map(|e| e.name.as_str()).collect();
            assert_eq!(names, vec!["tangram.h", "tangram.dll", "tangram.lib"]);
            assert_eq!(entries[1].source, "/w/dist/x86_64-pc-windows-msvc/tangram.dll");
            assert_eq!(output, "/w/dist/release/libtangram_1.2.3_x86_64-pc-windows-msvc.tar.gz");
        }
        a => panic!("unexpected action {:?}", a),
    }
    let plan = cli_tarball_plan("/w", "1.2.3", MUSL);
    match &plan.actions[0] {
        Action::Archive { entries, output } => {
            assert_eq!(entries[0].name, "tangram");
            assert_eq!(output, "/w/dist/release/tangram_cli_1.2.3_x86_64-unknown-linux-musl.tar.gz");
        }
        a => panic!("unexpected action {:?}", a),
    }
}

#[test]
fn container_image_plan() {
    let plan = container_plan("/w", "9.9.9", MUSL);
    assert_eq!(plan.actions.len(), 3);
    match &plan.actions[1] {
        Action::RunTool { argv } => {
            assert_eq!(argv, &vec!["podman", "build", "-t", "docker.io/tangramxyz/tangram:9.9.9", "/w"]);
        }
        a => panic!("unexpected action {:?}", a),
    }
    match &plan.cleanup[0] {
        Action::RemoveFile { path } => assert_eq!(path, "/w/Dockerfile"),
        a => panic!("unexpected cleanup {:?}", a),
    }
}

fn standard_run() -> ReleaseRun {
    let args = Args { version: "9.9.9".to_string() };
    ReleaseRun::new(ReleasePlan::standard("/w".to_string(), args))
}

#[test]
fn standard_plan_steps() {
    let run = standard_run();
    let steps = &run.plan.steps;
    assert_eq!(steps.len(), 15);
    assert_eq!(steps[0], Step { kind: OutputKind::CliTarball, target: Target::X8664UnknownLinuxGnu });
    assert_eq!(steps[6], Step { kind: OutputKind::Deb, target: MUSL });
    assert_eq!(steps[7], Step { kind: OutputKind::Rpm, target: MUSL });
    assert_eq!(steps[8], Step { kind: OutputKind::Container, target: MUSL });
    assert_eq!(steps[14], Step { kind: OutputKind::LibraryTarball, target: Target::X8664PcWindowsGnu });
    assert_eq!(run.release_directory(), "/w/dist/release");
}

#[test]
fn rpm_failure_aborts_the_run() {
    let mut run = standard_run();
    assert_eq!(run.directive(), Directive::ResetReleaseDirectory);
    run.report(Outcome::Succeeded);
    for i in 0..7 {
        match run.directive() {
            Directive::RunStep { index, .. } => assert_eq!(index, i),
            d => panic!("unexpected directive {:?}", d),
        }
        run.report(Outcome::Succeeded);
    }
    let rpm = Step { kind: OutputKind::Rpm, target: MUSL };
    assert_eq!(run.directive(), Directive::RunStep { index: 7, step: rpm });
    run.report(Outcome::Failed(ReleaseError::ExternalToolFailure));
    match run.directive() {
        Directive::Stopped(f) => {
            assert_eq!(f.step, Some(rpm));
            assert_eq!(f.error, ReleaseError::ExternalToolFailure);
        }
        d => panic!("unexpected directive {:?}", d),
    }
    run.report(Outcome::Succeeded);
    assert!(matches!(run.state, RunState::Aborted(_)));
    assert!(matches!(run.directive(), Directive::Stopped(_)));
}

#[test]
fn run_finishes_after_every_step() {
    let mut run = standard_run();
    run.report(Outcome::Succeeded);
    for _ in 0..15 {
        assert!(matches!(run.directive(), Directive::RunStep { .. }));
        run.report(Outcome::Succeeded);
    }
    assert_eq!(run.state, RunState::Done);
    assert_eq!(run.directive(), Directive::Finished);
}

#[test]
fn reset_failure_aborts_before_any_step() {
    let mut run = standard_run();
    run.report(Outcome::Failed(ReleaseError::FilesystemError));
    match run.directive() {
        Directive::Stopped(f) => {
            assert_eq!(f.step, None);
            assert_eq!(f.error, ReleaseError::FilesystemError);
        }
        d => panic!("unexpected directive {:?}", d),
    }
}

#[test]
fn empty_plan_finishes_after_reset() {
    let plan = ReleasePlan { root: "/w".to_string(), version: "1".to_string(), steps: vec![] };
    let mut run = ReleaseRun::new(plan);
    run.report(Outcome::Succeeded);
    assert_eq!(run.directive(), Directive::Finished);
}

#[test]
fn failed_action_runs_cleanup_then_fails() {
    let plan = deb_plan("/w", "9.9.9", MUSL).unwrap();
    let mut s = StepRun::new(&plan);
    assert_eq!(s.directive(), StepDirective::Perform { index: 0 });
    s.report(Outcome::Succeeded);
    s.report(Outcome::Succeeded);
    assert_eq!(s.directive(), StepDirective::Perform { index: 2 });
    s.report(Outcome::Failed(ReleaseError::InputMissing));
    assert_eq!(s.directive(), StepDirective::CleanUp { index: 0 });
    s.report(Outcome::Failed(ReleaseError::FilesystemError));
    assert_eq!(s.directive(), StepDirective::Failed(ReleaseError::InputMissing));
}

#[test]
fn successful_step_skips_cleanup() {
    let plan = container_plan("/w", "9.9.9", MUSL);
    let mut s = StepRun::new(&plan);
    for i in 0..3 {
        assert_eq!(s.directive(), StepDirective::Perform { index: i });
        s.report(Outcome::Succeeded);
    }
    assert_eq!(s.directive(), StepDirective::Succeeded);
}

#[test]
fn failures_by_action() {
    let plan = rpm_plan("/w", "9.9.9", MUSL).unwrap();
    let kinds: Vec<ReleaseError> = plan
        .actions
        .iter()
        .map(|a| classify_failure(a, ActionFailure::NotFound))
        .collect();
    assert_eq!(kinds[0], ReleaseError::FilesystemError);
    assert_eq!(kinds[7], ReleaseError::InputMissing);
    assert_eq!(kinds[9], ReleaseError::ExternalToolFailure);
    assert_eq!(kinds[10], ReleaseError::PackagingInvariantViolation);
    assert_eq!(classify_failure(&plan.actions[11], ActionFailure::Io), ReleaseError::FilesystemError);
    assert_eq!(classify_failure(&plan.actions[9], ActionFailure::Io), ReleaseError::ExternalToolFailure);
}

#[test]
fn class_metrics_rows_are_handed_on() {
    let m = TrainingProductionMetrics { training: 900_000, production: Some(850_000) };
    let overall = MulticlassClassificationOverallProductionMetrics {
        accuracy: m,
        class_metrics_table: vec![
            ClassMetricsTableEntry { class_name: "a".to_string(), precision: m, recall: m },
            ClassMetricsTableEntry { class_name: "b".to_string(), precision: m, recall: m },
        ],
        true_values_count: 2,
    };
    let props = overall.into_class_metrics_table();
    assert_eq!(props.rows.len(), 2);
    assert_eq!(props.rows[1].class_name, "b");
}

#[test]
fn standard_release_writes_distinct_files() {
    let run = standard_run();
    let mut outputs: Vec<String> = Vec::new();
    for step in run.plan.steps.iter() {
        let plan = plan_step("/w", "9.9.9", *step).unwrap();
        for a in plan.actions.iter() {
            let written = match a {
                Action::Archive { output, .. } => Some(output.clone()),
                Action::CopyFile { to, .. } => Some(to.clone()),
                Action::RunTool { argv } if argv[0] == "dpkg-deb" => Some(argv[3].clone()),
                _ => None,
            };
            if let Some(w) = written {
                if w.starts_with("/w/dist/release/") {
                    assert!(!outputs.contains(&w), "{} written twice", w);
                    outputs.push(w);
                }
            }
        }
    }
    assert_eq!(outputs.len(), 14);
}
