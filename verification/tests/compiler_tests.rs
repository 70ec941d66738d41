use flight_controller::compiler::BuildSystemKind;
use flight_controller::compiler::CompilerError;
use flight_controller::compiler::GradleCompiler;
use flight_controller::compiler::ModuleCompiler;
use flight_controller::compiler::detect;
use flight_controller::compiler::gradle_build_result;
use flight_controller::compiler::locate_fat_jar;
use flight_controller::config::Config;
use flight_controller::git::LocalRepo;

#[test]
fn detect_finds_the_gradle_marker() {
    let entries = vec!["README.md".to_string(), "build.gradle".to_string()];
    assert_eq!(detect(&entries), Some(BuildSystemKind::Gradle));
}

#[test]
fn detect_returns_none_without_a_marker() {
    let entries = vec!["README.md".to_string(), "pom.xml".to_string()];
    assert_eq!(detect(&entries), None);
    assert_eq!(detect(&Vec::new()), None);
}

#[test]
fn locate_finds_the_single_fat_jar() {
    let libs = vec!["widget.jar".to_string(), "widget-all.jar".to_string()];
    assert_eq!(locate_fat_jar(&libs), Ok("widget-all.jar".to_string()));
}

#[test]
fn locate_fails_with_zero_matches() {
    let libs = vec!["widget.jar".to_string()];
    assert_eq!(locate_fat_jar(&libs), Err(CompilerError::ArtifactNotFound));
    assert_eq!(locate_fat_jar(&Vec::new()), Err(CompilerError::ArtifactNotFound));
}

#[test]
fn locate_fails_on_an_ambiguous_output() {
    let libs = vec!["a-all.jar".to_string(), "b-all.jar".to_string()];
    assert_eq!(locate_fat_jar(&libs), Err(CompilerError::ArtifactNotFound));
}

#[test]
fn build_result_accepts_exit_zero_only() {
    assert_eq!(gradle_build_result(Some(0), String::new(), String::new()), Ok(()));
    assert_eq!(
        gradle_build_result(Some(1), "foo".to_string(), "bar".to_string()),
        Err(CompilerError::CompilationFailed { stdout: "foo".to_string(), stderr: "bar".to_string() })
    );
    assert_eq!(
        gradle_build_result(None, "out".to_string(), "err".to_string()),
        Err(CompilerError::CompilationFailed { stdout: "out".to_string(), stderr: "err".to_string() })
    );
}

#[test]
fn module_compiler_derives_the_module_label() {
    let cmp = ModuleCompiler::new("/work/src".to_string(), "/out/acme-widget.jar".to_string());
    assert_eq!(cmp.mod_name, "acme/widget");
    assert_eq!(cmp.source_dir, "/work/src");
    assert_eq!(cmp.target_dir, "/out/acme-widget.jar");
}

#[test]
fn module_compiler_handles_backslash_paths() {
    let cmp = ModuleCompiler::new("C:\\work".to_string(), "C:\\out\\acme-widget.jar".to_string());
    assert_eq!(cmp.mod_name, "acme/widget");
}

#[test]
fn module_compiler_is_gradle_goes_by_the_marker() {
    let cmp = ModuleCompiler::new("/w".to_string(), "/out/acme-widget.jar".to_string());
    assert!(cmp.is_gradle(&vec!["build.gradle".to_string()]));
    assert!(!cmp.is_gradle(&vec!["pom.xml".to_string()]));
}

#[test]
fn compile_reports_an_unsupported_project() {
    let cmp = ModuleCompiler::new("/w".to_string(), "/out/acme-widget.jar".to_string());
    let r = cmp.compile(&vec!["pom.xml".to_string()], Some(0), String::new(), String::new(), &vec![]);
    assert_eq!(r, Err(CompilerError::UnsupportedProject));
}

#[test]
fn compile_reports_a_failed_build_with_its_output() {
    let cmp = ModuleCompiler::new("/w".to_string(), "/out/acme-widget.jar".to_string());
    let r = cmp.compile(
        &vec!["build.gradle".to_string()],
        Some(1),
        "foo".to_string(),
        "bar".to_string(),
        &vec!["widget-all.jar".to_string()],
    );
    assert_eq!(
        r,
        Err(CompilerError::CompilationFailed { stdout: "foo".to_string(), stderr: "bar".to_string() })
    );
}

#[test]
fn compile_locates_the_artifact_after_a_good_build() {
    let cmp = ModuleCompiler::new("/w".to_string(), "/out/acme-widget.jar".to_string());
    let r = cmp.compile(
        &vec!["build.gradle".to_string()],
        Some(0),
        String::new(),
        String::new(),
        &vec!["widget.jar".to_string(), "widget-all.jar".to_string()],
    );
    assert_eq!(r, Ok("widget-all.jar".to_string()));
}

#[test]
fn compile_reports_a_missing_artifact() {
    let cmp = ModuleCompiler::new("/w".to_string(), "/out/acme-widget.jar".to_string());
    let r = cmp.compile(
        &vec!["build.gradle".to_string()],
        Some(0),
        String::new(),
        String::new(),
        &vec!["widget.jar".to_string()],
    );
    assert_eq!(r, Err(CompilerError::ArtifactNotFound));
}

#[test]
fn gradle_strategy_build_and_locate() {
    let cmp = ModuleCompiler::new("/w".to_string(), "/out/acme-widget.jar".to_string());
    let strategy = GradleCompiler::new(&cmp);
    assert_eq!(strategy.compile(Some(0), String::new(), String::new()), Ok(()));
    assert_eq!(
        strategy.locate_artifact(&vec!["widget-all.jar".to_string()]),
        Ok("widget-all.jar".to_string())
    );
    assert_eq!(
        strategy.locate_artifact(&vec![]),
        Err(CompilerError::ArtifactNotFound)
    );
}

#[test]
fn config_carries_the_run_values() {
    let c = Config::new(true, vec!["a/b".to_string()], "/modules".to_string());
    assert!(c.recompile);
    assert_eq!(c.repos, vec!["a/b".to_string()]);
    assert_eq!(c.mod_folder, "/modules");
}

#[test]
fn local_repo_exposes_its_parts() {
    let r = LocalRepo::new("/tmp/w".to_string(), "acme".to_string(), "widget".to_string());
    assert_eq!(r.path(), "/tmp/w");
    assert_eq!(r.owner(), "acme");
    assert_eq!(r.name(), "widget");
}
