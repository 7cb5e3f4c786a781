//! The maven descriptor: a new JVM project under a Java group, rooted at
//! the project path's parent joined with the resolved name.

use vstd::prelude::*;

verus! {

use crate::CreateProject;
use crate::error::GenError;
use crate::license_db::license_text_of;
use crate::license_db::resolve_license;
use crate::license_db::spec_resolve_license;
use crate::paths::define_name;
use crate::paths::parent_dir;
use crate::paths::path_join;
use crate::paths::spec_parent;
use crate::paths::spec_path_join;
use crate::paths::spec_resolved_name;
use crate::plan::CatalogV;
use crate::plan::Plan;
use crate::plan::PlanV;
use crate::plan::TemplateCatalog;
use crate::paths::lemma_join_under;
use crate::paths::path_under;
use crate::render::compose_plan;
use crate::render::file_covered;
use crate::render::files_covered;
use crate::render::lemma_generated_file_set;
use crate::render::lemma_plan_files_covered;
use crate::render::spec_compose;
use crate::render::spec_extra_dirs;
use crate::render::spec_extra_files;
use crate::views::keys_of;
use crate::views::pairs_view;
use crate::views::strs_view;

/// A maven project's data: the Java group its sources live under.
pub struct Maven {
    pub group: String,
}

/// Where a maven run roots the project: the project path's parent joined
/// with the resolved name, or the bare name when the path has no parent.
pub open spec fn maven_root(project_path: Seq<char>, name: Seq<char>) -> Seq<char> {
    match spec_parent(project_path) {
        Some(par) => spec_path_join(par, name),
        None => name,
    }
}

/// The template variables a maven run exposes.
pub open spec fn maven_vars(
    name: Seq<char>,
    branch: Seq<char>,
    group: Seq<char>,
    license_id: Seq<char>,
) -> Seq<(Seq<char>, Seq<char>)> {
    seq![("name"@, name), ("branch"@, branch), ("group"@, group), ("license_id"@, license_id)]
}

/// The source directory of a maven run's main tree.
pub open spec fn maven_main(pp: Seq<char>, group: Seq<char>, name: Seq<char>) -> Seq<char> {
    spec_path_join(pp, "src/main/java/"@ + group + seq!['/'] + name)
}

/// The source directory of a maven run's test tree.
pub open spec fn maven_tests(pp: Seq<char>, group: Seq<char>, name: Seq<char>) -> Seq<char> {
    spec_path_join(pp, "src/test/java/"@ + group + seq!['/'] + name + "/example"@)
}

/// The directories a maven run creates.
pub open spec fn maven_dirs(pp: Seq<char>, group: Seq<char>, name: Seq<char>) -> Seq<Seq<char>> {
    seq![
        pp,
        maven_main(pp, group, name),
        maven_tests(pp, group, name),
        spec_path_join(pp, ".github/workflows"@),
    ]
}

/// The file mapping a maven run declares.
pub open spec fn maven_files(pp: Seq<char>, group: Seq<char>, name: Seq<char>) -> Seq<
    (Seq<char>, Seq<char>),
> {
    seq![
        (spec_path_join(pp, "pom.xml"@), "xml.pom"@),
        (spec_path_join(pp, "README.md"@), "md.README"@),
        (spec_path_join(pp, "LICENSE.md"@), "build.license"@),
        (spec_path_join(maven_main(pp, group, name), "Entry.java"@), "java.entry"@),
        (spec_path_join(maven_tests(pp, group, name), "Example.java"@), "java.example"@),
        (spec_path_join(spec_path_join(pp, ".github/workflows"@), name + ".yml"@), "ci.github"@),
    ]
}

impl Maven {
    /// Creates a new `Maven` instance.
    pub fn new(group: &str) -> (r: Maven)
        ensures
            r.group@ == group@,
    {
        Maven { group: group.to_owned() }
    }

    /// The file mapping and directory set of a maven project.
    pub fn project_structure(project_path: &str, group: &str, name: &str) -> (r: (
        Vec<(String, String)>,
        Vec<String>,
    ))
        ensures
            pairs_view(r.0@) == maven_files(project_path@, group@, name@),
            strs_view(r.1@) == maven_dirs(project_path@, group@, name@),
    {
        proof {
            reveal_strlit("/");
        }
        let mut main_rel = "src/main/java/".to_owned();
        main_rel.append(group);
        main_rel.append("/");
        main_rel.append(name);
        let main = path_join(project_path, main_rel.as_str());
        let mut tests_rel = "src/test/java/".to_owned();
        tests_rel.append(group);
        tests_rel.append("/");
        tests_rel.append(name);
        tests_rel.append("/example");
        let tests = path_join(project_path, tests_rel.as_str());
        let github = path_join(project_path, ".github/workflows");
        proof {
            assert(main_rel@ =~= "src/main/java/"@ + group@ + seq!['/'] + name@);
            assert(tests_rel@ =~= "src/test/java/"@ + group@ + seq!['/'] + name@ + "/example"@);
        }

        let mut files: Vec<(String, String)> = Vec::new();
        files.push((path_join(project_path, "pom.xml"), "xml.pom".to_owned()));
        files.push((path_join(project_path, "README.md"), "md.README".to_owned()));
        files.push((path_join(project_path, "LICENSE.md"), "build.license".to_owned()));
        files.push((path_join(main.as_str(), "Entry.java"), "java.entry".to_owned()));
        files.push((path_join(tests.as_str(), "Example.java"), "java.example".to_owned()));
        let mut ci = name.to_owned();
        ci.append(".yml");
        files.push((path_join(github.as_str(), ci.as_str()), "ci.github".to_owned()));

        let mut dirs: Vec<String> = Vec::new();
        dirs.push(project_path.to_owned());
        dirs.push(main);
        dirs.push(tests);
        dirs.push(github);

        proof {
            assert(pairs_view(files@) =~= maven_files(project_path@, group@, name@));
            assert(strs_view(dirs@) =~= maven_dirs(project_path@, group@, name@));
        }
        (files, dirs)
    }

    /// The full declaration of a maven run: file mapping, directory set and
    /// template variables.
    pub fn define(&self, project_path: &str, project_name: &str, license_id: &str,
        github_branch: &str) -> (r: (Vec<(String, String)>, Vec<String>, Vec<(String, String)>))
        ensures
            pairs_view(r.0@) == maven_files(project_path@, self.group@, project_name@),
            strs_view(r.1@) == maven_dirs(project_path@, self.group@, project_name@),
            pairs_view(r.2@) == maven_vars(project_name@, github_branch@, self.group@, license_id@),
    {
        let mut vars: Vec<(String, String)> = Vec::new();
        vars.push(("name".to_owned(), project_name.to_owned()));
        vars.push(("branch".to_owned(), github_branch.to_owned()));
        vars.push(("group".to_owned(), self.group.clone()));
        vars.push(("license_id".to_owned(), license_id.to_owned()));
        let (files, dirs) = Maven::project_structure(
            project_path,
            self.group.as_str(),
            project_name,
        );
        proof {
            assert(pairs_view(vars@) =~= maven_vars(
                project_name@,
                github_branch@,
                self.group@,
                license_id@,
            ));
        }
        (files, dirs, vars)
    }
}

/// Every file a maven run declares lies beneath one of its declared
/// directories, so creating the directory set first makes every write
/// possible.
pub proof fn lemma_maven_files_covered(pp: Seq<char>, group: Seq<char>, name: Seq<char>)
    ensures
        files_covered(maven_files(pp, group, name), maven_dirs(pp, group, name)),
{
    reveal_strlit("pom.xml");
    reveal_strlit("README.md");
    reveal_strlit("LICENSE.md");
    reveal_strlit("Entry.java");
    reveal_strlit("Example.java");
    reveal_strlit(".yml");
    let fs = maven_files(pp, group, name);
    let ds = maven_dirs(pp, group, name);
    assert forall|i: int| 0 <= i < fs.len() implies file_covered((#[trigger] fs[i]).0, ds) by {
        if i == 0 {
            lemma_join_under(pp, "pom.xml"@);
            assert(path_under(fs[i].0, ds[0]));
        } else if i == 1 {
            lemma_join_under(pp, "README.md"@);
            assert(path_under(fs[i].0, ds[0]));
        } else if i == 2 {
            lemma_join_under(pp, "LICENSE.md"@);
            assert(path_under(fs[i].0, ds[0]));
        } else if i == 3 {
            lemma_join_under(ds[1], "Entry.java"@);
            assert(path_under(fs[i].0, ds[1]));
        } else if i == 4 {
            lemma_join_under(ds[2], "Example.java"@);
            assert(path_under(fs[i].0, ds[2]));
        } else {
            assert((name + ".yml"@).len() > 0);
            lemma_join_under(ds[3], name + ".yml"@);
            assert(path_under(fs[i].0, ds[3]));
        }
    }
}

/// A successful maven plan maps exactly the declared file set plus the two
/// cross-cutting files, lists exactly the declared directories plus
/// `.reuse` and `LICENSES`, and places every file beneath a planned
/// directory; everything is rooted at the reworked project root.
pub proof fn lemma_maven_plan_shape(
    m: Maven,
    project_name: Seq<char>,
    project_path: Seq<char>,
    license_id: Seq<char>,
    github_branch: Seq<char>,
    catalog: CatalogV,
)
    ensures
        m.spec_plan(project_name, project_path, license_id, github_branch, catalog) matches Ok(
            plan,
        ) ==> {
            let n = spec_resolved_name(project_name, project_path)->Some_0;
            let root = maven_root(project_path, n);
            &&& keys_of(plan.files) == keys_of(
                maven_files(root, m.group@, n) + spec_extra_files(root, license_id),
            )
            &&& plan.dirs == maven_dirs(root, m.group@, n) + spec_extra_dirs(root)
            &&& files_covered(plan.files, plan.dirs)
        },
{
    if m.spec_plan(project_name, project_path, license_id, github_branch, catalog) is Ok {
        let n = spec_resolved_name(project_name, project_path)->Some_0;
        let root = maven_root(project_path, n);
        let lic = spec_resolve_license(license_id)->Ok_0;
        let raw = license_text_of(license_id);
        let vars = maven_vars(n, github_branch, m.group@, license_id);
        lemma_maven_files_covered(root, m.group@, n);
        lemma_generated_file_set(
            maven_files(root, m.group@, n),
            maven_dirs(root, m.group@, n),
            vars,
            catalog,
            root,
            n,
            lic,
            raw,
        );
        lemma_plan_files_covered(
            maven_files(root, m.group@, n),
            maven_dirs(root, m.group@, n),
            vars,
            catalog,
            root,
            n,
            lic,
            raw,
        );
        assert(lic.id == license_id);
    }
}

impl CreateProject for Maven {
    open spec fn spec_plan(
        &self,
        project_name: Seq<char>,
        project_path: Seq<char>,
        license_id: Seq<char>,
        github_branch: Seq<char>,
        catalog: CatalogV,
    ) -> Result<PlanV, GenError> {
        match spec_resolved_name(project_name, project_path) {
            None => Err(GenError::InvalidName),
            Some(n) => match spec_resolve_license(license_id) {
                Err(e) => Err(e),
                Ok(lic) => spec_compose(
                    maven_files(maven_root(project_path, n), self.group@, n),
                    maven_dirs(maven_root(project_path, n), self.group@, n),
                    maven_vars(n, github_branch, self.group@, license_id),
                    catalog,
                    maven_root(project_path, n),
                    n,
                    lic,
                    license_text_of(license_id),
                ),
            },
        }
    }

    fn create_project(
        &self,
        project_name: &str,
        project_path: &str,
        license_id: &str,
        github_branch: &str,
        catalog: &TemplateCatalog,
    ) -> (r: Result<Plan, GenError>) {
        let name = match define_name(project_name, project_path) {
            Ok(n) => n,
            Err(e) => { return Err(e) },
        };
        let (lic, raw) = match resolve_license(license_id) {
            Ok(p) => p,
            Err(e) => { return Err(e) },
        };
        let root = match parent_dir(project_path) {
            Some(par) => path_join(par.as_str(), name.as_str()),
            None => name.clone(),
        };
        let (files, dirs, vars) = self.define(
            root.as_str(),
            name.as_str(),
            license_id,
            github_branch,
        );
        compose_plan(
            &files,
            &dirs,
            &vars,
            catalog,
            root.as_str(),
            name.as_str(),
            &lic,
            raw.as_str(),
        )
    }
}

} // verus!
