//! End-to-end tests of the generation engine through the public toolchain
//! descriptors.

use sifis_generate::CreateCi;
use sifis_generate::CreateProject;
use sifis_generate::cargo::Cargo;
use sifis_generate::error::GenError;
use sifis_generate::maven::Maven;
use sifis_generate::meson::Meson;
use sifis_generate::meson::ProjectKind;
use sifis_generate::meson::project_kind;
use sifis_generate::plan::Plan;
use sifis_generate::plan::TemplateCatalog;
use sifis_generate::poetry::Poetry;
use sifis_generate::setuptools::SetupTools;
use sifis_generate::yarn::Yarn;

fn catalog_of(ids: &[&str]) -> TemplateCatalog {
    let entries = ids
        .iter()
        .map(|id| (id.to_string(), format!("{} for {{{{ name }}}}", id)))
        .collect();
    TemplateCatalog {
        entries,
        reuse_template: "Name: {{ reuse.name }}\nId: {{ reuse.id }}".to_string(),
    }
}

fn cargo_catalog() -> TemplateCatalog {
    catalog_of(&[
        "md.README",
        "ci.github",
        "ci.github.deploy",
        "ci.github.docker",
        "docker.amd64",
        "docker.arm64",
        "fuzz.gitignore",
        "fuzz.cargo",
        "fuzz.target",
    ])
}

fn yarn_catalog() -> TemplateCatalog {
    catalog_of(&["md.README", "ci.gitlab", "ci.github"])
}

fn poetry_catalog() -> TemplateCatalog {
    catalog_of(&[
        "toml.pyproject",
        "yaml.pre-commit",
        "md.README",
        "py.__init__",
        "py.__main__",
        "py.test",
        "ci.gitlab",
        "ci.github",
    ])
}

fn maven_catalog() -> TemplateCatalog {
    catalog_of(&["java.entry", "java.example", "xml.pom", "md.README", "ci.github"])
}

fn meson_catalog() -> TemplateCatalog {
    catalog_of(&[
        "build.root",
        "build.cli",
        "build.lib",
        "build.test",
        "source.lib",
        "source.bin",
        "source.test",
        "header",
        "Dockerfile",
        "docker.compose",
        "run.tests",
        "md.README",
        "ci.gitlab",
        "ci.github",
    ])
}

fn setuptools_catalog() -> TemplateCatalog {
    catalog_of(&[
        "py.setup",
        "cfg.setup",
        "toml.pyproject",
        "yaml.pre-commit",
        "md.README",
        "py.__init__",
        "py.__main__",
        "py.test",
        "ci.gitlab",
        "ci.github",
    ])
}

fn paths_of(plan: &Plan) -> Vec<String> {
    plan.files.iter().map(|f| f.path.clone()).collect()
}

#[test]
fn cargo_plan_has_exactly_the_declared_files() {
    let plan = Cargo::new("a tool")
        .create_ci("", "/tmp/my-app", "MIT", "main", &cargo_catalog())
        .unwrap();
    let expected = vec![
        "/tmp/my-app/README.md",
        "/tmp/my-app/.github/workflows/my-app.yml",
        "/tmp/my-app/.github/workflows/my-app-docker-application.yml",
        "/tmp/my-app/.github/workflows/deploy.yml",
        "/tmp/my-app/docker/Dockerfile-amd64",
        "/tmp/my-app/docker/Dockerfile-arm64",
        "/tmp/my-app/fuzz/.gitignore",
        "/tmp/my-app/fuzz/Cargo.toml",
        "/tmp/my-app/fuzz/fuzz_targets/fuzz_target_1.rs",
        "/tmp/my-app/.reuse/dep5",
        "/tmp/my-app/LICENSES/MIT.txt",
    ];
    assert_eq!(paths_of(&plan), expected);
    let expected_dirs = vec![
        "/tmp/my-app",
        "/tmp/my-app/.github/workflows",
        "/tmp/my-app/docker",
        "/tmp/my-app/fuzz",
        "/tmp/my-app/fuzz/fuzz_targets",
        "/tmp/my-app/.reuse",
        "/tmp/my-app/LICENSES",
    ];
    assert_eq!(plan.dirs, expected_dirs);
}

#[test]
fn generation_is_idempotent() {
    let make = || {
        Cargo::new("a tool")
            .create_ci("", "/tmp/my-app", "MIT", "main", &cargo_catalog())
            .unwrap()
    };
    let a = make();
    let b = make();
    assert_eq!(a.dirs, b.dirs);
    assert_eq!(a.files.len(), b.files.len());
    for (fa, fb) in a.files.iter().zip(b.files.iter()) {
        assert_eq!(fa.path, fb.path);
        assert_eq!(fa.content, fb.content);
    }
}

#[test]
fn unknown_license_fails_before_anything_is_planned() {
    let r = Cargo::new("a tool").create_ci("", "/tmp/my-app", "NOT-A-LICENSE", "main", &cargo_catalog());
    assert_eq!(r.unwrap_err(), GenError::LicenseNotFound);
}

#[test]
fn empty_name_resolves_to_the_final_path_component() {
    let plan = Yarn::new()
        .create_ci("", "/tmp/my-app", "MIT", "main", &yarn_catalog())
        .unwrap();
    assert!(paths_of(&plan).contains(&"/tmp/my-app/.github/workflows/my-app.yml".to_string()));
    assert_eq!(plan.files[0].content, "md.README for my-app");
}

#[test]
fn caller_supplied_name_is_used_verbatim() {
    let plan = Yarn::new()
        .create_ci("other-name", "/tmp/my-app", "MIT", "main", &yarn_catalog())
        .unwrap();
    assert!(
        paths_of(&plan).contains(&"/tmp/my-app/.github/workflows/other-name.yml".to_string())
    );
}

#[test]
fn unusable_path_yields_invalid_name() {
    let r = Yarn::new().create_ci("", "/", "MIT", "main", &yarn_catalog());
    assert_eq!(r.unwrap_err(), GenError::InvalidName);
    let r = Yarn::new().create_ci("", "", "MIT", "main", &yarn_catalog());
    assert_eq!(r.unwrap_err(), GenError::InvalidName);
}

#[test]
fn duplicate_template_id_fails_fast() {
    let mut catalog = yarn_catalog();
    catalog.entries.push(("md.README".to_string(), "again".to_string()));
    let r = Yarn::new().create_ci("", "/tmp/my-app", "MIT", "main", &catalog);
    assert_eq!(r.unwrap_err(), GenError::DuplicateTemplateId);
}

#[test]
fn missing_template_fails_with_template_not_found() {
    let catalog = catalog_of(&["md.README", "ci.gitlab"]);
    let r = Yarn::new().create_ci("", "/tmp/my-app", "MIT", "main", &catalog);
    assert_eq!(r.unwrap_err(), GenError::TemplateNotFound);
}

#[test]
fn a_broken_template_fails_with_render() {
    let mut catalog = yarn_catalog();
    catalog.entries[0].1 = "{% broken".to_string();
    let r = Yarn::new().create_ci("", "/tmp/my-app", "MIT", "main", &catalog);
    assert_eq!(r.unwrap_err(), GenError::Render);
}

#[test]
fn license_file_carries_the_canonical_text() {
    let plan = Yarn::new()
        .create_ci("", "/tmp/my-app", "MIT", "main", &yarn_catalog())
        .unwrap();
    let mit = "MIT".parse::<&dyn license::License>().unwrap();
    let lic_file = plan
        .files
        .iter()
        .find(|f| f.path == "/tmp/my-app/LICENSES/MIT.txt")
        .unwrap();
    // The engine renders the text as a template, which drops one trailing
    // newline.
    let expected = mit.text().strip_suffix('\n').unwrap_or(mit.text());
    assert_eq!(lic_file.content, expected);
}

#[test]
fn attribution_manifest_interpolates_name_and_license() {
    let plan = Yarn::new()
        .create_ci("", "/tmp/my-app", "MIT", "main", &yarn_catalog())
        .unwrap();
    let dep5 = plan
        .files
        .iter()
        .find(|f| f.path == "/tmp/my-app/.reuse/dep5")
        .unwrap();
    assert_eq!(dep5.content, "Name: my-app\nId: MIT");
}

#[test]
fn templates_see_the_license_record() {
    let mut catalog = yarn_catalog();
    catalog.entries[0].1 = "{{ license.id }}:{{ license.text | length }}".to_string();
    let plan = Yarn::new()
        .create_ci("", "/tmp/my-app", "MIT", "main", &catalog)
        .unwrap();
    let mit = "MIT".parse::<&dyn license::License>().unwrap();
    let expected_lines: Vec<&str> = mit
        .text()
        .lines()
        .skip(2)
        .filter(|l| !l.is_empty())
        .collect();
    assert_eq!(
        plan.files[0].content,
        format!("MIT:{}", expected_lines.len())
    );
}

#[test]
fn templates_can_apply_the_registered_filters() {
    let mut catalog = yarn_catalog();
    catalog.entries[0].1 = "{{ name | hypens_to_underscores }}".to_string();
    let plan = Yarn::new()
        .create_ci("", "/tmp/my-app", "MIT", "main", &catalog)
        .unwrap();
    assert_eq!(plan.files[0].content, "my_app");
}

#[test]
fn templates_can_wrap_text_into_comment_blocks() {
    let mut catalog = yarn_catalog();
    catalog.entries[0].1 = "{{ 'short notice' | comment_license('#') }}".to_string();
    let plan = Yarn::new()
        .create_ci("", "/tmp/my-app", "MIT", "main", &catalog)
        .unwrap();
    assert_eq!(plan.files[0].content, "# short notice");
}

#[test]
fn poetry_plan_places_package_files_under_the_name() {
    let plan = Poetry::new()
        .create_project("", "/tmp/pkg", "MIT", "main", &poetry_catalog())
        .unwrap();
    let paths = paths_of(&plan);
    assert!(paths.contains(&"/tmp/pkg/pkg/__init__.py".to_string()));
    assert!(paths.contains(&"/tmp/pkg/pkg/tests/test_sum.py".to_string()));
    assert!(paths.contains(&"/tmp/pkg/LICENSE.md".to_string()));
    assert!(plan.dirs.contains(&"/tmp/pkg/pkg/data".to_string()));
}

#[test]
fn setuptools_plan_declares_setup_files() {
    let plan = SetupTools::create()
        .create_project("", "/tmp/pkg", "MIT", "main", &setuptools_catalog())
        .unwrap();
    let paths = paths_of(&plan);
    assert!(paths.contains(&"/tmp/pkg/setup.py".to_string()));
    assert!(paths.contains(&"/tmp/pkg/setup.cfg".to_string()));
    assert!(paths.contains(&"/tmp/pkg/pkg/tests/test-sum.py".to_string()));
}

#[test]
fn maven_reroots_the_project_at_the_resolved_name() {
    let plan = Maven::new("com.example")
        .create_project("other", "/tmp/proj", "MIT", "main", &maven_catalog())
        .unwrap();
    let paths = paths_of(&plan);
    assert!(paths.contains(&"/tmp/other/pom.xml".to_string()));
    assert!(
        paths.contains(&"/tmp/other/src/main/java/com.example/other/Entry.java".to_string())
    );
    assert!(paths.contains(
        &"/tmp/other/src/test/java/com.example/other/example/Example.java".to_string()
    ));
}

#[test]
fn meson_underscores_the_name_in_source_files() {
    let plan = Meson::new(ProjectKind::C)
        .create_project("", "/tmp/my-app", "MIT", "main", &meson_catalog())
        .unwrap();
    let paths = paths_of(&plan);
    assert!(paths.contains(&"/tmp/my-app/cli/my_app.c".to_string()));
    assert!(paths.contains(&"/tmp/my-app/lib/my_app.h".to_string()));
    assert!(paths.contains(&"/tmp/my-app/.github/workflows/my_app.yml".to_string()));
}

#[test]
fn meson_cxx_uses_cpp_sources() {
    let plan = Meson::with_kind(ProjectKind::Cxx)
        .create_project("", "/tmp/my-app", "MIT", "main", &meson_catalog())
        .unwrap();
    let paths = paths_of(&plan);
    assert!(paths.contains(&"/tmp/my-app/lib/my_app.cpp".to_string()));
}

#[test]
fn project_kind_parses_the_two_kinds() {
    assert_eq!(project_kind("c"), Some(ProjectKind::C));
    assert_eq!(project_kind("c++"), Some(ProjectKind::Cxx));
    assert_eq!(project_kind("rust"), None);
    assert_eq!(project_kind(""), None);
}
