//! The poetry descriptor: a new Python project managed with poetry.

use vstd::prelude::*;

verus! {

use crate::CreateProject;
use crate::error::GenError;
use crate::license_db::license_text_of;
use crate::license_db::resolve_license;
use crate::license_db::spec_resolve_license;
use crate::paths::define_name;
use crate::paths::path_join;
use crate::paths::spec_path_join;
use crate::paths::spec_resolved_name;
use crate::plan::CatalogV;
use crate::plan::Plan;
use crate::plan::PlanV;
use crate::plan::TemplateCatalog;
use crate::paths::lemma_join_under;
use crate::paths::path_under;
use crate::render::compose_plan;
use crate::render::file_covered;
use crate::render::files_covered;
use crate::render::lemma_generated_file_set;
use crate::render::lemma_plan_files_covered;
use crate::render::spec_compose;
use crate::render::spec_extra_dirs;
use crate::render::spec_extra_files;
use crate::views::keys_of;
use crate::views::pairs_view;
use crate::views::strs_view;

/// A poetry project's data.
pub struct Poetry {
}

/// The template variables a poetry run exposes.
pub open spec fn poetry_vars(name: Seq<char>, branch: Seq<char>, license_id: Seq<char>) -> Seq<
    (Seq<char>, Seq<char>),
> {
    seq![("name"@, name), ("branch"@, branch), ("license_id"@, license_id)]
}

/// The directories a poetry run creates.
pub open spec fn poetry_dirs(pp: Seq<char>, name: Seq<char>) -> Seq<Seq<char>> {
    seq![
        pp,
        spec_path_join(pp, name),
        spec_path_join(pp, name + "/data"@),
        spec_path_join(pp, name + "/tests"@),
        spec_path_join(pp, ".github/workflows"@),
    ]
}

/// The file mapping a poetry run declares.
pub open spec fn poetry_files(pp: Seq<char>, name: Seq<char>) -> Seq<(Seq<char>, Seq<char>)> {
    seq![
        (spec_path_join(pp, "pyproject.toml"@), "toml.pyproject"@),
        (spec_path_join(pp, ".pre-commit-config.yaml"@), "yaml.pre-commit"@),
        (spec_path_join(pp, "README.md"@), "md.README"@),
        (spec_path_join(pp, "LICENSE.md"@), "build.license"@),
        (spec_path_join(spec_path_join(pp, name), "__init__.py"@), "py.__init__"@),
        (spec_path_join(spec_path_join(pp, name), "__main__.py"@), "py.__main__"@),
        (spec_path_join(spec_path_join(pp, name + "/tests"@), "__init__.py"@), "py.__init__"@),
        (spec_path_join(spec_path_join(pp, name + "/tests"@), "test_sum.py"@), "py.test"@),
        (spec_path_join(pp, ".gitlab-ci.yml"@), "ci.gitlab"@),
        (spec_path_join(spec_path_join(pp, ".github/workflows"@), name + ".yml"@), "ci.github"@),
    ]
}

impl Poetry {
    /// Creates a new `Poetry` instance.
    pub fn new() -> (r: Poetry) {
        Poetry {  }
    }

    /// The file mapping and directory set of a poetry project.
    pub fn project_structure(project_path: &str, name: &str) -> (r: (
        Vec<(String, String)>,
        Vec<String>,
    ))
        ensures
            pairs_view(r.0@) == poetry_files(project_path@, name@),
            strs_view(r.1@) == poetry_dirs(project_path@, name@),
    {
        let main = path_join(project_path, name);
        let mut data_rel = name.to_owned();
        data_rel.append("/data");
        let data = path_join(project_path, data_rel.as_str());
        let mut tests_rel = name.to_owned();
        tests_rel.append("/tests");
        let tests = path_join(project_path, tests_rel.as_str());
        let github = path_join(project_path, ".github/workflows");

        let mut files: Vec<(String, String)> = Vec::new();
        files.push((path_join(project_path, "pyproject.toml"), "toml.pyproject".to_owned()));
        files.push(
            (path_join(project_path, ".pre-commit-config.yaml"), "yaml.pre-commit".to_owned()),
        );
        files.push((path_join(project_path, "README.md"), "md.README".to_owned()));
        files.push((path_join(project_path, "LICENSE.md"), "build.license".to_owned()));
        files.push((path_join(main.as_str(), "__init__.py"), "py.__init__".to_owned()));
        files.push((path_join(main.as_str(), "__main__.py"), "py.__main__".to_owned()));
        files.push((path_join(tests.as_str(), "__init__.py"), "py.__init__".to_owned()));
        files.push((path_join(tests.as_str(), "test_sum.py"), "py.test".to_owned()));
        files.push((path_join(project_path, ".gitlab-ci.yml"), "ci.gitlab".to_owned()));
        let mut ci = name.to_owned();
        ci.append(".yml");
        files.push((path_join(github.as_str(), ci.as_str()), "ci.github".to_owned()));

        let mut dirs: Vec<String> = Vec::new();
        dirs.push(project_path.to_owned());
        dirs.push(main);
        dirs.push(data);
        dirs.push(tests);
        dirs.push(github);

        proof {
            assert(pairs_view(files@) =~= poetry_files(project_path@, name@));
            assert(strs_view(dirs@) =~= poetry_dirs(project_path@, name@));
        }
        (files, dirs)
    }

    /// The full declaration of a poetry run: file mapping, directory set
    /// and template variables.
    pub fn define(&self, project_path: &str, project_name: &str, license_id: &str,
        github_branch: &str) -> (r: (Vec<(String, String)>, Vec<String>, Vec<(String, String)>))
        ensures
            pairs_view(r.0@) == poetry_files(project_path@, project_name@),
            strs_view(r.1@) == poetry_dirs(project_path@, project_name@),
            pairs_view(r.2@) == poetry_vars(project_name@, github_branch@, license_id@),
    {
        let mut vars: Vec<(String, String)> = Vec::new();
        vars.push(("name".to_owned(), project_name.to_owned()));
        vars.push(("branch".to_owned(), github_branch.to_owned()));
        vars.push(("license_id".to_owned(), license_id.to_owned()));
        let (files, dirs) = Poetry::project_structure(project_path, project_name);
        proof {
            assert(pairs_view(vars@) =~= poetry_vars(project_name@, github_branch@, license_id@));
        }
        (files, dirs, vars)
    }
}

/// Every file a poetry run declares lies beneath one of its declared
/// directories, so creating the directory set first makes every write
/// possible.
pub proof fn lemma_poetry_files_covered(pp: Seq<char>, name: Seq<char>)
    ensures
        files_covered(poetry_files(pp, name), poetry_dirs(pp, name)),
{
    reveal_strlit("pyproject.toml");
    reveal_strlit(".pre-commit-config.yaml");
    reveal_strlit("README.md");
    reveal_strlit("LICENSE.md");
    reveal_strlit("__init__.py");
    reveal_strlit("__main__.py");
    reveal_strlit("test_sum.py");
    reveal_strlit(".gitlab-ci.yml");
    reveal_strlit(".yml");
    let fs = poetry_files(pp, name);
    let ds = poetry_dirs(pp, name);
    assert forall|i: int| 0 <= i < fs.len() implies file_covered((#[trigger] fs[i]).0, ds) by {
        if i == 0 {
            lemma_join_under(pp, "pyproject.toml"@);
            assert(path_under(fs[i].0, ds[0]));
        } else if i == 1 {
            lemma_join_under(pp, ".pre-commit-config.yaml"@);
            assert(path_under(fs[i].0, ds[0]));
        } else if i == 2 {
            lemma_join_under(pp, "README.md"@);
            assert(path_under(fs[i].0, ds[0]));
        } else if i == 3 {
            lemma_join_under(pp, "LICENSE.md"@);
            assert(path_under(fs[i].0, ds[0]));
        } else if i == 4 {
            lemma_join_under(ds[1], "__init__.py"@);
            assert(path_under(fs[i].0, ds[1]));
        } else if i == 5 {
            lemma_join_under(ds[1], "__main__.py"@);
            assert(path_under(fs[i].0, ds[1]));
        } else if i == 6 {
            lemma_join_under(ds[3], "__init__.py"@);
            assert(path_under(fs[i].0, ds[3]));
        } else if i == 7 {
            lemma_join_under(ds[3], "test_sum.py"@);
            assert(path_under(fs[i].0, ds[3]));
        } else if i == 8 {
            lemma_join_under(pp, ".gitlab-ci.yml"@);
            assert(path_under(fs[i].0, ds[0]));
        } else {
            assert((name + ".yml"@).len() > 0);
            lemma_join_under(ds[4], name + ".yml"@);
            assert(path_under(fs[i].0, ds[4]));
        }
    }
}

/// A successful poetry plan maps exactly the declared file set plus the
/// two cross-cutting files, lists exactly the declared directories plus
/// `.reuse` and `LICENSES`, and places every file beneath a planned
/// directory.
pub proof fn lemma_poetry_plan_shape(
    p: Poetry,
    project_name: Seq<char>,
    project_path: Seq<char>,
    license_id: Seq<char>,
    github_branch: Seq<char>,
    catalog: CatalogV,
)
    ensures
        p.spec_plan(project_name, project_path, license_id, github_branch, catalog) matches Ok(
            plan,
        ) ==> {
            let n = spec_resolved_name(project_name, project_path)->Some_0;
            &&& keys_of(plan.files) == keys_of(
                poetry_files(project_path, n) + spec_extra_files(project_path, license_id),
            )
            &&& plan.dirs == poetry_dirs(project_path, n) + spec_extra_dirs(project_path)
            &&& files_covered(plan.files, plan.dirs)
        },
{
    if p.spec_plan(project_name, project_path, license_id, github_branch, catalog) is Ok {
        let n = spec_resolved_name(project_name, project_path)->Some_0;
        let lic = spec_resolve_license(license_id)->Ok_0;
        let raw = license_text_of(license_id);
        let vars = poetry_vars(n, github_branch, license_id);
        lemma_poetry_files_covered(project_path, n);
        lemma_generated_file_set(
            poetry_files(project_path, n),
            poetry_dirs(project_path, n),
            vars,
            catalog,
            project_path,
            n,
            lic,
            raw,
        );
        lemma_plan_files_covered(
            poetry_files(project_path, n),
            poetry_dirs(project_path, n),
            vars,
            catalog,
            project_path,
            n,
            lic,
            raw,
        );
        assert(lic.id == license_id);
    }
}

impl CreateProject for Poetry {
    open spec fn spec_plan(
        &self,
        project_name: Seq<char>,
        project_path: Seq<char>,
        license_id: Seq<char>,
        github_branch: Seq<char>,
        catalog: CatalogV,
    ) -> Result<PlanV, GenError> {
        match spec_resolved_name(project_name, project_path) {
            None => Err(GenError::InvalidName),
            Some(n) => match spec_resolve_license(license_id) {
                Err(e) => Err(e),
                Ok(lic) => spec_compose(
                    poetry_files(project_path, n),
                    poetry_dirs(project_path, n),
                    poetry_vars(n, github_branch, license_id),
                    catalog,
                    project_path,
                    n,
                    lic,
                    license_text_of(license_id),
                ),
            },
        }
    }

    fn create_project(
        &self,
        project_name: &str,
        project_path: &str,
        license_id: &str,
        github_branch: &str,
        catalog: &TemplateCatalog,
    ) -> (r: Result<Plan, GenError>) {
        let name = match define_name(project_name, project_path) {
            Ok(n) => n,
            Err(e) => { return Err(e) },
        };
        let (lic, raw) = match resolve_license(license_id) {
            Ok(p) => p,
            Err(e) => { return Err(e) },
        };
        let (files, dirs, vars) = self.define(
            project_path,
            name.as_str(),
            license_id,
            github_branch,
        );
        compose_plan(
            &files,
            &dirs,
            &vars,
            catalog,
            project_path,
            name.as_str(),
            &lic,
            raw.as_str(),
        )
    }
}

} // verus!
