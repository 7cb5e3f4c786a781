//! The cargo descriptor: CI configuration, docker files and a fuzzing
//! harness for a Rust project.

use vstd::prelude::*;

verus! {

use crate::CreateCi;
use crate::error::GenError;
use crate::license_db::license_text_of;
use crate::license_db::resolve_license;
use crate::license_db::spec_resolve_license;
use crate::paths::define_name;
use crate::paths::path_join;
use crate::paths::spec_path_join;
use crate::paths::spec_resolved_name;
use crate::plan::CatalogV;
use crate::plan::Plan;
use crate::plan::PlanV;
use crate::plan::TemplateCatalog;
use crate::paths::lemma_join_under;
use crate::paths::path_under;
use crate::render::compose_plan;
use crate::render::file_covered;
use crate::render::files_covered;
use crate::render::lemma_generated_file_set;
use crate::render::lemma_plan_files_covered;
use crate::render::spec_compose;
use crate::render::spec_extra_dirs;
use crate::render::spec_extra_files;
use crate::views::keys_of;
use crate::views::pairs_view;
use crate::views::strs_view;

/// A cargo project's data: the docker image description its CI templates
/// interpolate.
pub struct Cargo {
    pub docker_image_description: String,
}

/// The template variables a cargo run exposes.
pub open spec fn cargo_vars(
    name: Seq<char>,
    branch: Seq<char>,
    license_id: Seq<char>,
    desc: Seq<char>,
) -> Seq<(Seq<char>, Seq<char>)> {
    seq![
        ("name"@, name),
        ("branch"@, branch),
        ("license_id"@, license_id),
        ("docker_image_description"@, desc),
    ]
}

/// The directories a cargo run creates.
pub open spec fn cargo_dirs(pp: Seq<char>) -> Seq<Seq<char>> {
    seq![
        pp,
        spec_path_join(pp, ".github/workflows"@),
        spec_path_join(pp, "docker"@),
        spec_path_join(pp, "fuzz"@),
        spec_path_join(spec_path_join(pp, "fuzz"@), "fuzz_targets"@),
    ]
}

/// The file mapping a cargo run declares.
pub open spec fn cargo_files(pp: Seq<char>, name: Seq<char>) -> Seq<(Seq<char>, Seq<char>)> {
    seq![
        (spec_path_join(pp, "README.md"@), "md.README"@),
        (spec_path_join(spec_path_join(pp, ".github/workflows"@), name + ".yml"@), "ci.github"@),
        (
            spec_path_join(
                spec_path_join(pp, ".github/workflows"@),
                name + "-docker-application.yml"@,
            ),
            "ci.github.docker"@,
        ),
        (spec_path_join(spec_path_join(pp, ".github/workflows"@), "deploy.yml"@), "ci.github.deploy"@),
        (spec_path_join(spec_path_join(pp, "docker"@), "Dockerfile-amd64"@), "docker.amd64"@),
        (spec_path_join(spec_path_join(pp, "docker"@), "Dockerfile-arm64"@), "docker.arm64"@),
        (spec_path_join(spec_path_join(pp, "fuzz"@), ".gitignore"@), "fuzz.gitignore"@),
        (spec_path_join(spec_path_join(pp, "fuzz"@), "Cargo.toml"@), "fuzz.cargo"@),
        (
            spec_path_join(
                spec_path_join(spec_path_join(pp, "fuzz"@), "fuzz_targets"@),
                "fuzz_target_1.rs"@,
            ),
            "fuzz.target"@,
        ),
    ]
}

impl Cargo {
    /// Creates a new `Cargo` instance.
    pub fn new(docker_image_description: &str) -> (r: Cargo)
        ensures
            r.docker_image_description@ == docker_image_description@,
    {
        Cargo { docker_image_description: docker_image_description.to_owned() }
    }

    /// The file mapping and directory set of a cargo project.
    pub fn project_structure(project_path: &str, name: &str) -> (r: (
        Vec<(String, String)>,
        Vec<String>,
    ))
        ensures
            pairs_view(r.0@) == cargo_files(project_path@, name@),
            strs_view(r.1@) == cargo_dirs(project_path@),
    {
        let github = path_join(project_path, ".github/workflows");
        let docker = path_join(project_path, "docker");
        let fuzz = path_join(project_path, "fuzz");
        let fuzz_targets = path_join(fuzz.as_str(), "fuzz_targets");

        let mut files: Vec<(String, String)> = Vec::new();
        files.push((path_join(project_path, "README.md"), "md.README".to_owned()));
        let mut ci = name.to_owned();
        ci.append(".yml");
        files.push((path_join(github.as_str(), ci.as_str()), "ci.github".to_owned()));
        let mut ci_docker = name.to_owned();
        ci_docker.append("-docker-application.yml");
        files.push(
            (path_join(github.as_str(), ci_docker.as_str()), "ci.github.docker".to_owned()),
        );
        files.push((path_join(github.as_str(), "deploy.yml"), "ci.github.deploy".to_owned()));
        files.push((path_join(docker.as_str(), "Dockerfile-amd64"), "docker.amd64".to_owned()));
        files.push((path_join(docker.as_str(), "Dockerfile-arm64"), "docker.arm64".to_owned()));
        files.push((path_join(fuzz.as_str(), ".gitignore"), "fuzz.gitignore".to_owned()));
        files.push((path_join(fuzz.as_str(), "Cargo.toml"), "fuzz.cargo".to_owned()));
        files.push(
            (path_join(fuzz_targets.as_str(), "fuzz_target_1.rs"), "fuzz.target".to_owned()),
        );

        let mut dirs: Vec<String> = Vec::new();
        dirs.push(project_path.to_owned());
        dirs.push(github);
        dirs.push(docker);
        dirs.push(fuzz);
        dirs.push(fuzz_targets);

        proof {
            assert(pairs_view(files@) =~= cargo_files(project_path@, name@));
            assert(strs_view(dirs@) =~= cargo_dirs(project_path@));
        }
        (files, dirs)
    }

    /// The full declaration of a cargo run: file mapping, directory set and
    /// template variables.
    pub fn define(&self, project_path: &str, project_name: &str, license_id: &str,
        github_branch: &str) -> (r: (Vec<(String, String)>, Vec<String>, Vec<(String, String)>))
        ensures
            pairs_view(r.0@) == cargo_files(project_path@, project_name@),
            strs_view(r.1@) == cargo_dirs(project_path@),
            pairs_view(r.2@) == cargo_vars(
                project_name@,
                github_branch@,
                license_id@,
                self.docker_image_description@,
            ),
    {
        let mut vars: Vec<(String, String)> = Vec::new();
        vars.push(("name".to_owned(), project_name.to_owned()));
        vars.push(("branch".to_owned(), github_branch.to_owned()));
        vars.push(("license_id".to_owned(), license_id.to_owned()));
        vars.push(
            ("docker_image_description".to_owned(), self.docker_image_description.clone()),
        );
        let (files, dirs) = Cargo::project_structure(project_path, project_name);
        proof {
            assert(pairs_view(vars@) =~= cargo_vars(
                project_name@,
                github_branch@,
                license_id@,
                self.docker_image_description@,
            ));
        }
        (files, dirs, vars)
    }
}

/// Every file a cargo run declares lies beneath one of its declared
/// directories, so creating the directory set first makes every write
/// possible.
pub proof fn lemma_cargo_files_covered(pp: Seq<char>, name: Seq<char>)
    ensures
        files_covered(cargo_files(pp, name), cargo_dirs(pp)),
{
    reveal_strlit("README.md");
    reveal_strlit(".yml");
    reveal_strlit("deploy.yml");
    reveal_strlit("Dockerfile-amd64");
    reveal_strlit("Dockerfile-arm64");
    reveal_strlit(".gitignore");
    reveal_strlit("Cargo.toml");
    reveal_strlit("fuzz_target_1.rs");
    let fs = cargo_files(pp, name);
    let ds = cargo_dirs(pp);
    assert forall|i: int| 0 <= i < fs.len() implies file_covered((#[trigger] fs[i]).0, ds) by {
        if i == 0 {
            lemma_join_under(pp, "README.md"@);
            assert(path_under(fs[i].0, ds[0]));
        } else if i == 1 {
            assert((name + ".yml"@).len() > 0);
            lemma_join_under(ds[1], name + ".yml"@);
            assert(path_under(fs[i].0, ds[1]));
        } else if i == 2 {
            assert((name + "-docker-application.yml"@).len() > 0) by {
                reveal_strlit("-docker-application.yml");
            }
            lemma_join_under(ds[1], name + "-docker-application.yml"@);
            assert(path_under(fs[i].0, ds[1]));
        } else if i == 3 {
            lemma_join_under(ds[1], "deploy.yml"@);
            assert(path_under(fs[i].0, ds[1]));
        } else if i == 4 {
            lemma_join_under(ds[2], "Dockerfile-amd64"@);
            assert(path_under(fs[i].0, ds[2]));
        } else if i == 5 {
            lemma_join_under(ds[2], "Dockerfile-arm64"@);
            assert(path_under(fs[i].0, ds[2]));
        } else if i == 6 {
            lemma_join_under(ds[3], ".gitignore"@);
            assert(path_under(fs[i].0, ds[3]));
        } else if i == 7 {
            lemma_join_under(ds[3], "Cargo.toml"@);
            assert(path_under(fs[i].0, ds[3]));
        } else {
            lemma_join_under(ds[4], "fuzz_target_1.rs"@);
            assert(path_under(fs[i].0, ds[4]));
        }
    }
}

/// A successful cargo plan maps exactly the declared file set plus the two
/// cross-cutting files, lists exactly the declared directories plus
/// `.reuse` and `LICENSES`, and places every file beneath a planned
/// directory.
pub proof fn lemma_cargo_plan_shape(
    c: Cargo,
    project_name: Seq<char>,
    project_path: Seq<char>,
    license_id: Seq<char>,
    github_branch: Seq<char>,
    catalog: CatalogV,
)
    ensures
        c.spec_plan(project_name, project_path, license_id, github_branch, catalog) matches Ok(
            plan,
        ) ==> {
            let n = spec_resolved_name(project_name, project_path)->Some_0;
            &&& keys_of(plan.files) == keys_of(
                cargo_files(project_path, n) + spec_extra_files(project_path, license_id),
            )
            &&& plan.dirs == cargo_dirs(project_path) + spec_extra_dirs(project_path)
            &&& files_covered(plan.files, plan.dirs)
        },
{
    if c.spec_plan(project_name, project_path, license_id, github_branch, catalog) is Ok {
        let n = spec_resolved_name(project_name, project_path)->Some_0;
        let lic = spec_resolve_license(license_id)->Ok_0;
        let raw = license_text_of(license_id);
        let vars = cargo_vars(n, github_branch, license_id, c.docker_image_description@);
        lemma_cargo_files_covered(project_path, n);
        lemma_generated_file_set(
            cargo_files(project_path, n),
            cargo_dirs(project_path),
            vars,
            catalog,
            project_path,
            n,
            lic,
            raw,
        );
        lemma_plan_files_covered(
            cargo_files(project_path, n),
            cargo_dirs(project_path),
            vars,
            catalog,
            project_path,
            n,
            lic,
            raw,
        );
        assert(lic.id == license_id);
    }
}

impl CreateCi for Cargo {
    open spec fn spec_plan(
        &self,
        project_name: Seq<char>,
        project_path: Seq<char>,
        license_id: Seq<char>,
        github_branch: Seq<char>,
        catalog: CatalogV,
    ) -> Result<PlanV, GenError> {
        match spec_resolved_name(project_name, project_path) {
            None => Err(GenError::InvalidName),
            Some(n) => match spec_resolve_license(license_id) {
                Err(e) => Err(e),
                Ok(lic) => spec_compose(
                    cargo_files(project_path, n),
                    cargo_dirs(project_path),
                    cargo_vars(n, github_branch, license_id, self.docker_image_description@),
                    catalog,
                    project_path,
                    n,
                    lic,
                    license_text_of(license_id),
                ),
            },
        }
    }

    fn create_ci(
        &self,
        project_name: &str,
        project_path: &str,
        license_id: &str,
        github_branch: &str,
        catalog: &TemplateCatalog,
    ) -> (r: Result<Plan, GenError>) {
        let name = match define_name(project_name, project_path) {
            Ok(n) => n,
            Err(e) => { return Err(e) },
        };
        let (lic, raw) = match resolve_license(license_id) {
            Ok(p) => p,
            Err(e) => { return Err(e) },
        };
        let (files, dirs, vars) = self.define(
            project_path,
            name.as_str(),
            license_id,
            github_branch,
        );
        compose_plan(
            &files,
            &dirs,
            &vars,
            catalog,
            project_path,
            name.as_str(),
            &lic,
            raw.as_str(),
        )
    }
}

} // verus!
