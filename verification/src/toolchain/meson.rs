//! The meson descriptor: a new C or C++ project with a library, a command
//! line front end, tests, docker files and CI configuration.

use vstd::prelude::*;

verus! {

use crate::CreateProject;
use crate::error::GenError;
use crate::license_db::license_text_of;
use crate::license_db::resolve_license;
use crate::license_db::spec_resolve_license;
use crate::paths::define_name;
use crate::paths::path_join;
use crate::paths::spec_path_join;
use crate::paths::spec_resolved_name;
use crate::paths::spec_with_ext;
use crate::paths::with_ext;
use crate::plan::CatalogV;
use crate::plan::Plan;
use crate::plan::PlanV;
use crate::plan::TemplateCatalog;
use crate::paths::lemma_join_under;
use crate::paths::path_under;
use crate::render::compose_plan;
use crate::render::file_covered;
use crate::render::files_covered;
use crate::render::lemma_generated_file_set;
use crate::render::lemma_plan_files_covered;
use crate::render::spec_compose;
use crate::render::spec_extra_dirs;
use crate::render::spec_extra_files;
use crate::views::keys_of;
use crate::text::hypens_to_underscores;
use crate::text::spec_underscored;
use crate::views::pairs_view;
use crate::views::strs_view;

/// Kind of a meson project.
#[derive(Debug, Clone, Copy, PartialEq, Eq, Structural)]
pub enum ProjectKind {
    /// C-language project
    C,
    /// C++-language project
    Cxx,
}

/// The source-file extension a project kind uses.
pub open spec fn spec_kind_ext(kind: ProjectKind) -> Seq<char> {
    match kind {
        ProjectKind::C => "c"@,
        ProjectKind::Cxx => "cpp"@,
    }
}

/// The language-standard build parameter a project kind uses.
pub open spec fn spec_kind_params(kind: ProjectKind) -> Seq<char> {
    match kind {
        ProjectKind::C => "c_std=c99"@,
        ProjectKind::Cxx => "cpp_std=c++11"@,
    }
}

/// Parses a project-kind argument: `c` and `c++` name the two kinds,
/// anything else is rejected.
pub fn project_kind(s: &str) -> (r: Option<ProjectKind>)
    ensures
        r == Some(ProjectKind::C) <==> s@ == "c"@,
        r == Some(ProjectKind::Cxx) <==> s@ == "c++"@,
        r is None <==> s@ != "c"@ && s@ != "c++"@,
{
    proof {
        reveal_strlit("c");
        reveal_strlit("c++");
    }
    let n = s.unicode_len();
    if n == 1 && s.get_char(0) == 'c' {
        proof {
            assert(s@ =~= "c"@);
        }
        Some(ProjectKind::C)
    } else if n == 3 && s.get_char(0) == 'c' && s.get_char(1) == '+' && s.get_char(2) == '+' {
        proof {
            assert(s@ =~= "c++"@);
        }
        Some(ProjectKind::Cxx)
    } else {
        proof {
            if s@ == "c"@ {
                assert(s@.len() == 1 && s@[0] == 'c');
            }
            if s@ == "c++"@ {
                assert(s@.len() == 3 && s@[0] == 'c' && s@[1] == '+' && s@[2] == '+');
            }
        }
        None
    }
}

/// A meson project's data.
pub struct Meson {
    pub kind: ProjectKind,
}

/// The template variables a meson run exposes.
pub open spec fn meson_vars(
    name: Seq<char>,
    branch: Seq<char>,
    license_id: Seq<char>,
    kind: ProjectKind,
) -> Seq<(Seq<char>, Seq<char>)> {
    seq![
        ("name"@, name),
        ("branch"@, branch),
        ("exe"@, spec_kind_ext(kind)),
        ("params"@, spec_kind_params(kind)),
        ("license_id"@, license_id),
    ]
}

/// The directories a meson run creates.
pub open spec fn meson_dirs(pp: Seq<char>) -> Seq<Seq<char>> {
    seq![
        pp,
        spec_path_join(pp, "cli"@),
        spec_path_join(pp, "lib"@),
        spec_path_join(pp, "tests"@),
        spec_path_join(pp, ".github/workflows"@),
    ]
}

/// The file mapping a meson run declares; `name` is used with every hyphen
/// replaced by an underscore.
pub open spec fn meson_files(pp: Seq<char>, name: Seq<char>, kind: ProjectKind) -> Seq<
    (Seq<char>, Seq<char>),
> {
    let u = spec_underscored(name);
    let ext = spec_kind_ext(kind);
    seq![
        (spec_path_join(pp, "meson.build"@), "build.root"@),
        (spec_path_join(pp, "README.md"@), "md.README"@),
        (spec_path_join(pp, "LICENSE"@), "build.license"@),
        (spec_path_join(spec_path_join(pp, "cli"@), "meson.build"@), "build.cli"@),
        (spec_path_join(spec_path_join(pp, "cli"@), spec_with_ext(u, ext)), "source.bin"@),
        (spec_path_join(spec_path_join(pp, "lib"@), "meson.build"@), "build.lib"@),
        (spec_path_join(spec_path_join(pp, "lib"@), spec_with_ext(u, "h"@)), "header"@),
        (spec_path_join(spec_path_join(pp, "lib"@), spec_with_ext(u, ext)), "source.lib"@),
        (spec_path_join(spec_path_join(pp, "tests"@), "meson.build"@), "build.test"@),
        (spec_path_join(spec_path_join(pp, "tests"@), spec_with_ext(u, ext)), "source.test"@),
        (spec_path_join(pp, "Dockerfile"@), "Dockerfile"@),
        (spec_path_join(pp, "docker-compose.yml"@), "docker.compose"@),
        (spec_path_join(pp, "run_tests.sh"@), "run.tests"@),
        (spec_path_join(pp, ".gitlab-ci.yml"@), "ci.gitlab"@),
        (spec_path_join(spec_path_join(pp, ".github/workflows"@), u + ".yml"@), "ci.github"@),
    ]
}

impl Meson {
    /// Creates a new `Meson` instance.
    pub fn new(kind: ProjectKind) -> (r: Meson)
        ensures
            r.kind == kind,
    {
        Meson { kind }
    }

    /// Creates a new `Meson` instance; an alias kept for callers of the
    /// older constructor name.
    pub fn with_kind(kind: ProjectKind) -> (r: Meson)
        ensures
            r.kind == kind,
    {
        Meson { kind }
    }

    /// The file mapping and directory set of a meson project.
    pub fn project_structure(project_path: &str, name: &str, kind: ProjectKind) -> (r: (
        Vec<(String, String)>,
        Vec<String>,
    ))
        ensures
            pairs_view(r.0@) == meson_files(project_path@, name@, kind),
            strs_view(r.1@) == meson_dirs(project_path@),
    {
        let u = hypens_to_underscores(name);
        let ext: &str = match kind {
            ProjectKind::C => "c",
            ProjectKind::Cxx => "cpp",
        };
        let cli = path_join(project_path, "cli");
        let lib = path_join(project_path, "lib");
        let tests = path_join(project_path, "tests");
        let github = path_join(project_path, ".github/workflows");
        let src_name = with_ext(u.as_str(), ext);
        let header_name = with_ext(u.as_str(), "h");

        let mut files: Vec<(String, String)> = Vec::new();
        files.push((path_join(project_path, "meson.build"), "build.root".to_owned()));
        files.push((path_join(project_path, "README.md"), "md.README".to_owned()));
        files.push((path_join(project_path, "LICENSE"), "build.license".to_owned()));
        files.push((path_join(cli.as_str(), "meson.build"), "build.cli".to_owned()));
        files.push((path_join(cli.as_str(), src_name.as_str()), "source.bin".to_owned()));
        files.push((path_join(lib.as_str(), "meson.build"), "build.lib".to_owned()));
        files.push((path_join(lib.as_str(), header_name.as_str()), "header".to_owned()));
        files.push((path_join(lib.as_str(), src_name.as_str()), "source.lib".to_owned()));
        files.push((path_join(tests.as_str(), "meson.build"), "build.test".to_owned()));
        files.push((path_join(tests.as_str(), src_name.as_str()), "source.test".to_owned()));
        files.push((path_join(project_path, "Dockerfile"), "Dockerfile".to_owned()));
        files.push((path_join(project_path, "docker-compose.yml"), "docker.compose".to_owned()));
        files.push((path_join(project_path, "run_tests.sh"), "run.tests".to_owned()));
        files.push((path_join(project_path, ".gitlab-ci.yml"), "ci.gitlab".to_owned()));
        let mut ci = u.clone();
        ci.append(".yml");
        files.push((path_join(github.as_str(), ci.as_str()), "ci.github".to_owned()));

        let mut dirs: Vec<String> = Vec::new();
        dirs.push(project_path.to_owned());
        dirs.push(cli);
        dirs.push(lib);
        dirs.push(tests);
        dirs.push(github);

        proof {
            assert(pairs_view(files@) =~= meson_files(project_path@, name@, kind));
            assert(strs_view(dirs@) =~= meson_dirs(project_path@));
        }
        (files, dirs)
    }

    /// The full declaration of a meson run: file mapping, directory set and
    /// template variables.
    pub fn define(&self, project_path: &str, project_name: &str, license_id: &str,
        github_branch: &str) -> (r: (Vec<(String, String)>, Vec<String>, Vec<(String, String)>))
        ensures
            pairs_view(r.0@) == meson_files(project_path@, project_name@, self.kind),
            strs_view(r.1@) == meson_dirs(project_path@),
            pairs_view(r.2@) == meson_vars(project_name@, github_branch@, license_id@, self.kind),
    {
        let ext: &str = match self.kind {
            ProjectKind::C => "c",
            ProjectKind::Cxx => "cpp",
        };
        let params: &str = match self.kind {
            ProjectKind::C => "c_std=c99",
            ProjectKind::Cxx => "cpp_std=c++11",
        };
        let mut vars: Vec<(String, String)> = Vec::new();
        vars.push(("name".to_owned(), project_name.to_owned()));
        vars.push(("branch".to_owned(), github_branch.to_owned()));
        vars.push(("exe".to_owned(), ext.to_owned()));
        vars.push(("params".to_owned(), params.to_owned()));
        vars.push(("license_id".to_owned(), license_id.to_owned()));
        let (files, dirs) = Meson::project_structure(project_path, project_name, self.kind);
        proof {
            assert(pairs_view(vars@) =~= meson_vars(
                project_name@,
                github_branch@,
                license_id@,
                self.kind,
            ));
        }
        (files, dirs, vars)
    }
}

/// Every file a meson run declares lies beneath one of its declared
/// directories, so creating the directory set first makes every write
/// possible.
pub proof fn lemma_meson_files_covered(pp: Seq<char>, name: Seq<char>, kind: ProjectKind)
    ensures
        files_covered(meson_files(pp, name, kind), meson_dirs(pp)),
{
    reveal_strlit("meson.build");
    reveal_strlit("README.md");
    reveal_strlit("LICENSE");
    reveal_strlit("Dockerfile");
    reveal_strlit("docker-compose.yml");
    reveal_strlit("run_tests.sh");
    reveal_strlit(".gitlab-ci.yml");
    reveal_strlit(".yml");
    let u = spec_underscored(name);
    let ext = spec_kind_ext(kind);
    let fs = meson_files(pp, name, kind);
    let ds = meson_dirs(pp);
    assert forall|i: int| 0 <= i < fs.len() implies file_covered((#[trigger] fs[i]).0, ds) by {
        assert(spec_with_ext(u, ext).len() > 0);
        assert(spec_with_ext(u, "h"@).len() > 0);
        if i == 0 {
            lemma_join_under(pp, "meson.build"@);
            assert(path_under(fs[i].0, ds[0]));
        } else if i == 1 {
            lemma_join_under(pp, "README.md"@);
            assert(path_under(fs[i].0, ds[0]));
        } else if i == 2 {
            lemma_join_under(pp, "LICENSE"@);
            assert(path_under(fs[i].0, ds[0]));
        } else if i == 3 {
            lemma_join_under(ds[1], "meson.build"@);
            assert(path_under(fs[i].0, ds[1]));
        } else if i == 4 {
            lemma_join_under(ds[1], spec_with_ext(u, ext));
            assert(path_under(fs[i].0, ds[1]));
        } else if i == 5 {
            lemma_join_under(ds[2], "meson.build"@);
            assert(path_under(fs[i].0, ds[2]));
        } else if i == 6 {
            lemma_join_under(ds[2], spec_with_ext(u, "h"@));
            assert(path_under(fs[i].0, ds[2]));
        } else if i == 7 {
            lemma_join_under(ds[2], spec_with_ext(u, ext));
            assert(path_under(fs[i].0, ds[2]));
        } else if i == 8 {
            lemma_join_under(ds[3], "meson.build"@);
            assert(path_under(fs[i].0, ds[3]));
        } else if i == 9 {
            lemma_join_under(ds[3], spec_with_ext(u, ext));
            assert(path_under(fs[i].0, ds[3]));
        } else if i == 10 {
            lemma_join_under(pp, "Dockerfile"@);
            assert(path_under(fs[i].0, ds[0]));
        } else if i == 11 {
            lemma_join_under(pp, "docker-compose.yml"@);
            assert(path_under(fs[i].0, ds[0]));
        } else if i == 12 {
            lemma_join_under(pp, "run_tests.sh"@);
            assert(path_under(fs[i].0, ds[0]));
        } else if i == 13 {
            lemma_join_under(pp, ".gitlab-ci.yml"@);
            assert(path_under(fs[i].0, ds[0]));
        } else {
            assert((u + ".yml"@).len() > 0);
            lemma_join_under(ds[4], u + ".yml"@);
            assert(path_under(fs[i].0, ds[4]));
        }
    }
}

/// A successful meson plan maps exactly the declared file set plus the two
/// cross-cutting files, lists exactly the declared directories plus
/// `.reuse` and `LICENSES`, and places every file beneath a planned
/// directory.
pub proof fn lemma_meson_plan_shape(
    m: Meson,
    project_name: Seq<char>,
    project_path: Seq<char>,
    license_id: Seq<char>,
    github_branch: Seq<char>,
    catalog: CatalogV,
)
    ensures
        m.spec_plan(project_name, project_path, license_id, github_branch, catalog) matches Ok(
            plan,
        ) ==> {
            let n = spec_resolved_name(project_name, project_path)->Some_0;
            &&& keys_of(plan.files) == keys_of(
                meson_files(project_path, n, m.kind) + spec_extra_files(project_path, license_id),
            )
            &&& plan.dirs == meson_dirs(project_path) + spec_extra_dirs(project_path)
            &&& files_covered(plan.files, plan.dirs)
        },
{
    if m.spec_plan(project_name, project_path, license_id, github_branch, catalog) is Ok {
        let n = spec_resolved_name(project_name, project_path)->Some_0;
        let lic = spec_resolve_license(license_id)->Ok_0;
        let raw = license_text_of(license_id);
        let vars = meson_vars(n, github_branch, license_id, m.kind);
        lemma_meson_files_covered(project_path, n, m.kind);
        lemma_generated_file_set(
            meson_files(project_path, n, m.kind),
            meson_dirs(project_path),
            vars,
            catalog,
            project_path,
            n,
            lic,
            raw,
        );
        lemma_plan_files_covered(
            meson_files(project_path, n, m.kind),
            meson_dirs(project_path),
            vars,
            catalog,
            project_path,
            n,
            lic,
            raw,
        );
        assert(lic.id == license_id);
    }
}

impl CreateProject for Meson {
    open spec fn spec_plan(
        &self,
        project_name: Seq<char>,
        project_path: Seq<char>,
        license_id: Seq<char>,
        github_branch: Seq<char>,
        catalog: CatalogV,
    ) -> Result<PlanV, GenError> {
        match spec_resolved_name(project_name, project_path) {
            None => Err(GenError::InvalidName),
            Some(n) => match spec_resolve_license(license_id) {
                Err(e) => Err(e),
                Ok(lic) => spec_compose(
                    meson_files(project_path, n, self.kind),
                    meson_dirs(project_path),
                    meson_vars(n, github_branch, license_id, self.kind),
                    catalog,
                    project_path,
                    n,
                    lic,
                    license_text_of(license_id),
                ),
            },
        }
    }

    fn create_project(
        &self,
        project_name: &str,
        project_path: &str,
        license_id: &str,
        github_branch: &str,
        catalog: &TemplateCatalog,
    ) -> (r: Result<Plan, GenError>) {
        let name = match define_name(project_name, project_path) {
            Ok(n) => n,
            Err(e) => { return Err(e) },
        };
        let (lic, raw) = match resolve_license(license_id) {
            Ok(p) => p,
            Err(e) => { return Err(e) },
        };
        let (files, dirs, vars) = self.define(
            project_path,
            name.as_str(),
            license_id,
            github_branch,
        );
        compose_plan(
            &files,
            &dirs,
            &vars,
            catalog,
            project_path,
            name.as_str(),
            &lic,
            raw.as_str(),
        )
    }
}

} // verus!
