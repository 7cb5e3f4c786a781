//! The render engine: merges the descriptor's declarations with the
//! license and attribution additions, registers every template, renders
//! each mapped file, and yields the finished [`Plan`].

use vstd::prelude::*;

use minijinja::Environment;
use minijinja::value::Value;
use std::collections::BTreeMap;

verus! {

use crate::error::GenError;
use crate::license_db::LicenseInfo;
use crate::license_db::LicenseInfoV;
use crate::paths::lemma_join_under;
use crate::paths::path_join;
use crate::paths::path_under;
use crate::paths::spec_path_join;
use crate::plan::CatalogV;
use crate::plan::Plan;
use crate::plan::PlanV;
use crate::plan::RenderedFile;
use crate::plan::ReuseInfo;
use crate::plan::TemplateCatalog;
use crate::plan::res_view;
use crate::registry::TemplateRegistry;
use crate::registry::spec_has_dup;
use crate::registry::spec_reg_lookup;
use crate::registry::spec_reg_set;
use crate::views::keys_of;
use crate::views::pairs_view;
use crate::views::strs_view;
use crate::views::vals_of;

#[verifier::external_type_specification]
#[verifier::external_body]
pub struct ExEnvironment<'a>(Environment<'a>);

/// Whether a template environment is the engine's own: fresh except for the
/// two project filters.
pub uninterp spec fn env_standard(e: Environment<'static>) -> bool;

/// Relies on `minijinja::Environment::new` and `add_filter`: a fresh
/// environment, no templates, with the `comment_license` and
/// `hypens_to_underscores` filters bound to this library's verified
/// implementations.
#[verifier::external_body]
fn standard_env() -> (e: Environment<'static>)
    ensures
        env_standard(e),
{
    let mut env = Environment::new();
    env.add_filter("comment_license", |v: String, m: String| crate::filters::comment_license(&v, &m));
    env.add_filter("hypens_to_underscores", |v: String| crate::text::hypens_to_underscores(&v));
    env
}

/// What rendering a template body against the engine's context yields:
/// the output text, or nothing when the body or its variable references are
/// rejected. A function of the template and the variables alone.
pub uninterp spec fn rendered_of(
    body: Seq<char>,
    keys: Seq<Seq<char>>,
    vals: Seq<Seq<char>>,
    lic_id: Seq<char>,
    lic_header: Option<Seq<char>>,
    lic_body: Seq<Seq<char>>,
    reuse_name: Seq<char>,
    reuse_id: Seq<char>,
) -> Option<Seq<char>>;

/// Relies on `minijinja::Environment::render_str`: rendering a one-off
/// template against a value-map is deterministic in the template source and
/// the map (the environment carries only the two fixed filters). The map
/// holds the descriptor variables plus the nested `license`
/// (`id`/`header`/`text`) and `reuse` (`name`/`id`) records, mirrored
/// exactly by the arguments of `rendered_of`.
#[verifier::external_body]
fn render_template(
    env: &Environment<'static>,
    body: &str,
    vars: &Vec<(String, String)>,
    license: &LicenseInfo,
    reuse: &ReuseInfo,
) -> (r: Option<String>)
    requires
        env_standard(*env),
    ensures
        r is Some <==> rendered_of(
            body@,
            keys_of(pairs_view(vars@)),
            vals_of(pairs_view(vars@)),
            license@.id,
            license@.header,
            license@.body,
            reuse.name@,
            reuse.id@,
        ) is Some,
        match r {
            Some(s) => Some(s@) == rendered_of(
                body@,
                keys_of(pairs_view(vars@)),
                vals_of(pairs_view(vars@)),
                license@.id,
                license@.header,
                license@.body,
                reuse.name@,
                reuse.id@,
            ),
            None => true,
        },
{
    let mut ctx: BTreeMap<_, _> = vars.iter().map(
        |p| (p.0.clone(), Value::from(p.1.as_str())),
    ).collect();
    let lic = BTreeMap::from([
        ("id", Value::from(license.id.as_str())),
        ("header", Value::from_serialize(&license.header)),
        ("text", Value::from_serialize(&license.body)),
    ]);
    ctx.insert("license".into(), Value::from_serialize(&lic));
    let attribution = BTreeMap::from([
        ("name", Value::from(reuse.name.as_str())),
        ("id", Value::from(reuse.id.as_str())),
    ]);
    ctx.insert("reuse".into(), Value::from_serialize(&attribution));
    env.render_str(body, &ctx).ok()
}

/// What one mapped file renders to: the body registered under its template
/// identifier, evaluated against the run's context.
pub open spec fn spec_render_entry(
    tid: Seq<char>,
    reg: Seq<(Seq<char>, Seq<char>)>,
    vars: Seq<(Seq<char>, Seq<char>)>,
    lic: LicenseInfoV,
    name: Seq<char>,
) -> Result<Seq<char>, GenError> {
    match spec_reg_lookup(reg, tid) {
        None => Err(GenError::TemplateNotFound),
        Some(body) => match rendered_of(
            body,
            keys_of(vars),
            vals_of(vars),
            lic.id,
            lic.header,
            lic.body,
            name,
            lic.id,
        ) {
            Some(c) => Ok(c),
            None => Err(GenError::Render),
        },
    }
}

/// What rendering every mapped file yields, in order; the first failure
/// aborts the run.
pub open spec fn spec_render_all(
    files: Seq<(Seq<char>, Seq<char>)>,
    reg: Seq<(Seq<char>, Seq<char>)>,
    vars: Seq<(Seq<char>, Seq<char>)>,
    lic: LicenseInfoV,
    name: Seq<char>,
) -> Result<Seq<(Seq<char>, Seq<char>)>, GenError>
    decreases files.len(),
{
    if files.len() == 0 {
        Ok(Seq::empty())
    } else {
        match spec_render_entry(files[0].1, reg, vars, lic, name) {
            Err(e) => Err(e),
            Ok(c) => match spec_render_all(files.drop_first(), reg, vars, lic, name) {
                Ok(rest) => Ok(seq![(files[0].0, c)] + rest),
                Err(e) => Err(e),
            },
        }
    }
}

/// The registry a run renders from: the descriptor catalog plus the two
/// synthetic templates, the attribution manifest and the raw license text.
pub open spec fn spec_run_registry(cat: CatalogV, raw: Seq<char>) -> Seq<(Seq<char>, Seq<char>)> {
    spec_reg_set(spec_reg_set(cat.entries, "dep5.reuse"@, cat.reuse_template), "build.license"@, raw)
}

/// The two cross-cutting file entries every run adds: the attribution
/// manifest and the license file.
pub open spec fn spec_extra_files(project_path: Seq<char>, lic_id: Seq<char>) -> Seq<
    (Seq<char>, Seq<char>),
> {
    seq![
        (spec_path_join(spec_path_join(project_path, ".reuse"@), "dep5"@), "dep5.reuse"@),
        (
            spec_path_join(spec_path_join(project_path, "LICENSES"@), lic_id + ".txt"@),
            "build.license"@,
        ),
    ]
}

/// The two cross-cutting directories every run adds.
pub open spec fn spec_extra_dirs(project_path: Seq<char>) -> Seq<Seq<char>> {
    seq![spec_path_join(project_path, ".reuse"@), spec_path_join(project_path, "LICENSES"@)]
}

/// What composing a run yields: a duplicate catalog identifier fails fast;
/// otherwise every mapped file — the descriptor's and the two additions —
/// is rendered, in order, against the merged registry.
pub open spec fn spec_compose(
    files: Seq<(Seq<char>, Seq<char>)>,
    dirs: Seq<Seq<char>>,
    vars: Seq<(Seq<char>, Seq<char>)>,
    cat: CatalogV,
    project_path: Seq<char>,
    name: Seq<char>,
    lic: LicenseInfoV,
    raw: Seq<char>,
) -> Result<PlanV, GenError> {
    if spec_has_dup(cat.entries) {
        Err(GenError::DuplicateTemplateId)
    } else {
        let reg = spec_run_registry(cat, raw);
        let merged = files + spec_extra_files(project_path, lic.id);
        match spec_render_all(merged, reg, vars, lic, name) {
            Ok(outs) => Ok(PlanV { dirs: dirs + spec_extra_dirs(project_path), files: outs }),
            Err(e) => Err(e),
        }
    }
}

/// Renders a run's merged file mapping into a [`Plan`], exactly as
/// `spec_compose` describes.
#[verifier::loop_isolation(false)]
pub fn compose_plan(
    files: &Vec<(String, String)>,
    dirs: &Vec<String>,
    vars: &Vec<(String, String)>,
    catalog: &TemplateCatalog,
    project_path: &str,
    name: &str,
    license: &LicenseInfo,
    raw_text: &str,
) -> (r: Result<Plan, GenError>)
    ensures
        res_view(r) == spec_compose(
            pairs_view(files@),
            strs_view(dirs@),
            pairs_view(vars@),
            catalog@,
            project_path@,
            name@,
            license@,
            raw_text@,
        ),
{
    let ghost catv = catalog@;
    let ghost licv = license@;

    // Assemble the registry from the catalog, failing fast on duplicates.
    let mut reg = TemplateRegistry::new();
    let mut i: usize = 0;
    while i < catalog.entries.len()
        invariant
            i <= catalog.entries@.len(),
            catv == catalog@,
            catv.entries.len() == catalog.entries@.len(),
            reg@ == catv.entries.subrange(0, i as int),
            forall|k1: int, k2: int|
                0 <= k1 < k2 < i ==> (#[trigger] catv.entries[k1]).0 != (
                #[trigger] catv.entries[k2]).0,
        decreases catalog.entries.len() - i,
    {
        proof {
            assert(catv.entries[i as int] == (
                catalog.entries@[i as int].0@,
                catalog.entries@[i as int].1@,
            ));
        }
        let entry = &catalog.entries[i];
        match reg.register(entry.0.clone(), entry.1.clone()) {
            Ok(()) => {
                proof {
                    assert(reg@ =~= catv.entries.subrange(0, i + 1 as int));
                    assert(forall|k: int|
                        0 <= k < i ==> (#[trigger] catv.entries[k]) == reg@.subrange(
                            0,
                            i as int,
                        )[k]);
                }
            },
            Err(e) => {
                proof {
                    let k = choose|k: int|
                        0 <= k < reg@.len() && (#[trigger] reg@[k]).0 == catv.entries[i as int].0;
                    assert(catv.entries[k] == reg@[k]);
                    assert(spec_has_dup(catv.entries));
                }
                return Err(e);
            },
        }
        i += 1;
    }
    proof {
        assert(catv.entries.subrange(0, catv.entries.len() as int) =~= catv.entries);
        assert(!spec_has_dup(catv.entries));
    }

    // Add the two synthetic templates; a resolver's template takes
    // precedence over a catalog entry of the same name.
    reg.set("dep5.reuse".to_owned(), catalog.reuse_template.clone());
    reg.set("build.license".to_owned(), raw_text.to_owned());
    proof {
        assert(reg@ == spec_run_registry(catv, raw_text@));
    }

    // Merge the descriptor's mapping with the two cross-cutting files.
    let reuse_dir = path_join(project_path, ".reuse");
    let lic_dir = path_join(project_path, "LICENSES");
    let mut all: Vec<(String, String)> = Vec::new();
    let mut i: usize = 0;
    while i < files.len()
        invariant
            i <= files@.len(),
            all@.len() == i,
            pairs_view(all@) == pairs_view(files@).subrange(0, i as int),
        decreases files.len() - i,
    {
        all.push((files[i].0.clone(), files[i].1.clone()));
        proof {
            assert(pairs_view(all@) =~= pairs_view(files@).subrange(0, i + 1 as int));
        }
        i += 1;
    }
    proof {
        assert(pairs_view(files@).subrange(0, files@.len() as int) =~= pairs_view(files@));
    }
    all.push((path_join(reuse_dir.as_str(), "dep5"), "dep5.reuse".to_owned()));
    let mut lic_file = license.id.clone();
    lic_file.append(".txt");
    all.push((path_join(lic_dir.as_str(), lic_file.as_str()), "build.license".to_owned()));
    let ghost merged = pairs_view(files@) + spec_extra_files(project_path@, licv.id);
    proof {
        assert(pairs_view(all@) =~= merged);
    }

    let mut all_dirs: Vec<String> = Vec::new();
    let mut i: usize = 0;
    while i < dirs.len()
        invariant
            i <= dirs@.len(),
            all_dirs@.len() == i,
            strs_view(all_dirs@) == strs_view(dirs@).subrange(0, i as int),
        decreases dirs.len() - i,
    {
        all_dirs.push(dirs[i].clone());
        proof {
            assert(strs_view(all_dirs@) =~= strs_view(dirs@).subrange(0, i + 1 as int));
        }
        i += 1;
    }
    proof {
        assert(strs_view(dirs@).subrange(0, dirs@.len() as int) =~= strs_view(dirs@));
    }
    all_dirs.push(reuse_dir);
    all_dirs.push(lic_dir);
    proof {
        assert(strs_view(all_dirs@) =~= strs_view(dirs@) + spec_extra_dirs(project_path@));
    }

    // Render every mapped file, in order.
    let env = standard_env();
    let reuse = ReuseInfo { name: name.to_owned(), id: license.id.clone() };
    let ghost regv = reg@;
    let ghost varsv = pairs_view(vars@);
    let mut outs: Vec<RenderedFile> = Vec::new();
    let mut i: usize = 0;
    proof {
        assert(merged.subrange(0, merged.len() as int) =~= merged);
        assert(merged.subrange(i as int, merged.len() as int) == merged);
        assert(outs@.map_values(|f: RenderedFile| (f.path@, f.content@)) =~= Seq::<
            (Seq<char>, Seq<char>),
        >::empty());
        if spec_render_all(merged, reg@, pairs_view(vars@), license@, name@) is Ok {
            let rest = spec_render_all(merged, reg@, pairs_view(vars@), license@, name@)->Ok_0;
            assert(outs@.map_values(|f: RenderedFile| (f.path@, f.content@)) + rest =~= rest);
        }
    }
    while i < all.len()
        invariant
            i <= all@.len(),
            merged == pairs_view(all@),
            merged.len() == all@.len(),
            outs@.len() == i,
            env_standard(env),
            reg@ == regv,
            varsv == pairs_view(vars@),
            licv == license@,
            reuse.name@ == name@,
            reuse.id@ == licv.id,
            spec_render_all(merged, regv, varsv, licv, name@) == match spec_render_all(
                merged.subrange(i as int, merged.len() as int),
                regv,
                varsv,
                licv,
                name@,
            ) {
                Ok(rest) => Ok::<Seq<(Seq<char>, Seq<char>)>, GenError>(
                    outs@.map_values(|f: RenderedFile| (f.path@, f.content@)) + rest,
                ),
                Err(e) => Err(e),
            },
        decreases all.len() - i,
    {
        let ghost tail = merged.subrange(i as int, merged.len() as int);
        proof {
            assert(tail[0] == merged[i as int]);
            assert(tail.drop_first() =~= merged.subrange(i + 1 as int, merged.len() as int));
            assert(merged[i as int] == (all@[i as int].0@, all@[i as int].1@));
        }
        let tid = &all[i].1;
        match reg.lookup(tid) {
            None => {
                proof {
                    assert(spec_render_entry(tail[0].1, regv, varsv, licv, name@) == Err::<
                        Seq<char>,
                        GenError,
                    >(GenError::TemplateNotFound));
                    assert(tail.len() > 0);
                    assert(spec_render_all(tail, regv, varsv, licv, name@) == Err::<
                        Seq<(Seq<char>, Seq<char>)>,
                        GenError,
                    >(GenError::TemplateNotFound));
                    assert(spec_render_all(merged, regv, varsv, licv, name@) == Err::<
                        Seq<(Seq<char>, Seq<char>)>,
                        GenError,
                    >(GenError::TemplateNotFound));
                    assert(res_view(Err::<Plan, GenError>(GenError::TemplateNotFound))
                        == spec_compose(
                        pairs_view(files@),
                        strs_view(dirs@),
                        pairs_view(vars@),
                        catalog@,
                        project_path@,
                        name@,
                        license@,
                        raw_text@,
                    ));
                }
                return Err(GenError::TemplateNotFound);
            },
            Some(body) => {
                let body = body.clone();
                match render_template(&env, body.as_str(), vars, license, &reuse) {
                    None => {
                        proof {
                            assert(spec_render_entry(tail[0].1, regv, varsv, licv, name@) == Err::<
                                Seq<char>,
                                GenError,
                            >(GenError::Render));
                            assert(tail.len() > 0);
                            assert(spec_render_all(tail, regv, varsv, licv, name@) == Err::<
                                Seq<(Seq<char>, Seq<char>)>,
                                GenError,
                            >(GenError::Render));
                            assert(spec_render_all(merged, regv, varsv, licv, name@) == Err::<
                                Seq<(Seq<char>, Seq<char>)>,
                                GenError,
                            >(GenError::Render));
                            assert(res_view(Err::<Plan, GenError>(GenError::Render))
                                == spec_compose(
                                pairs_view(files@),
                                strs_view(dirs@),
                                pairs_view(vars@),
                                catalog@,
                                project_path@,
                                name@,
                                license@,
                                raw_text@,
                            ));
                        }
                        return Err(GenError::Render);
                    },
                    Some(content) => {
                        let ghost pre = outs@.map_values(|f: RenderedFile| (f.path@, f.content@));
                        let path = all[i].0.clone();
                        outs.push(RenderedFile { path, content });
                        proof {
                            assert(spec_render_entry(tail[0].1, regv, varsv, licv, name@) == Ok::<
                                Seq<char>,
                                GenError,
                            >(outs@.last().content@));
                            assert(outs@.map_values(|f: RenderedFile| (f.path@, f.content@)) =~= pre
                                .push((merged[i as int].0, outs@.last().content@)));
                            if spec_render_all(tail.drop_first(), regv, varsv, licv, name@) is Ok {
                                let rest = spec_render_all(
                                    tail.drop_first(),
                                    regv,
                                    varsv,
                                    licv,
                                    name@,
                                )->Ok_0;
                                assert(pre + (seq![(merged[i as int].0, outs@.last().content@)]
                                    + rest) =~= pre.push((merged[i as int].0, outs@.last().content@))
                                    + rest);
                            }
                        }
                    },
                }
            },
        }
        i += 1;
    }
    proof {
        assert(merged.subrange(merged.len() as int, merged.len() as int) =~= Seq::<
            (Seq<char>, Seq<char>),
        >::empty());
    }
    let r = Plan { dirs: all_dirs, files: outs };
    proof {
        assert(res_view(Ok::<Plan, GenError>(r)) == spec_compose(
            pairs_view(files@),
            strs_view(dirs@),
            pairs_view(vars@),
            catalog@,
            project_path@,
            name@,
            license@,
            raw_text@,
        ));
    }
    Ok(r)
}

/// A successful rendering pass keeps every mapped path, in order.
proof fn lemma_render_all_paths(
    files: Seq<(Seq<char>, Seq<char>)>,
    reg: Seq<(Seq<char>, Seq<char>)>,
    vars: Seq<(Seq<char>, Seq<char>)>,
    lic: LicenseInfoV,
    name: Seq<char>,
)
    ensures
        spec_render_all(files, reg, vars, lic, name) matches Ok(outs) ==> keys_of(outs) == keys_of(
            files,
        ),
    decreases files.len(),
{
    if files.len() > 0 {
        lemma_render_all_paths(files.drop_first(), reg, vars, lic, name);
        if spec_render_all(files, reg, vars, lic, name) is Ok {
            let c = spec_render_entry(files[0].1, reg, vars, lic, name)->Ok_0;
            let rest = spec_render_all(files.drop_first(), reg, vars, lic, name)->Ok_0;
            let combined = seq![(files[0].0, c)] + rest;
            assert(keys_of(rest) == keys_of(files.drop_first()));
            assert(keys_of(rest).len() == rest.len());
            assert(keys_of(files.drop_first()).len() == files.drop_first().len());
            assert(rest.len() == files.len() - 1);
            assert(combined.len() == files.len());
            assert forall|k: int| 0 <= k < files.len() implies keys_of(combined)[k] == keys_of(
                files,
            )[k] by {
                assert(keys_of(combined)[k] == combined[k].0);
                assert(keys_of(files)[k] == files[k].0);
                if k > 0 {
                    assert(combined[k] == rest[k - 1]);
                    assert(keys_of(rest)[k - 1] == rest[k - 1].0);
                    assert(keys_of(files.drop_first())[k - 1] == files.drop_first()[k - 1].0);
                    assert(files.drop_first()[k - 1] == files[k]);
                }
            }
            assert(keys_of(combined) =~= keys_of(files));
        }
    }
}

/// Every supported descriptor produces exactly its declared file set: a
/// successful run's plan maps exactly the descriptor-declared paths plus
/// the attribution manifest and the license file, in order, and lists
/// exactly the declared directories plus `.reuse` and `LICENSES`.
pub proof fn lemma_generated_file_set(
    files: Seq<(Seq<char>, Seq<char>)>,
    dirs: Seq<Seq<char>>,
    vars: Seq<(Seq<char>, Seq<char>)>,
    cat: CatalogV,
    project_path: Seq<char>,
    name: Seq<char>,
    lic: LicenseInfoV,
    raw: Seq<char>,
)
    ensures
        spec_compose(files, dirs, vars, cat, project_path, name, lic, raw) matches Ok(plan) ==> {
            &&& keys_of(plan.files) == keys_of(files + spec_extra_files(project_path, lic.id))
            &&& plan.dirs == dirs + spec_extra_dirs(project_path)
        },
{
    if spec_compose(files, dirs, vars, cat, project_path, name, lic, raw) is Ok {
        let reg = spec_run_registry(cat, raw);
        let merged = files + spec_extra_files(project_path, lic.id);
        lemma_render_all_paths(merged, reg, vars, lic, name);
    }
}

/// Generation is deterministic: any two results that meet the engine
/// contract for the same arguments are the same, so running twice with
/// identical arguments plans byte-identical files.
pub proof fn lemma_generation_deterministic(
    r1: Result<PlanV, GenError>,
    r2: Result<PlanV, GenError>,
    files: Seq<(Seq<char>, Seq<char>)>,
    dirs: Seq<Seq<char>>,
    vars: Seq<(Seq<char>, Seq<char>)>,
    cat: CatalogV,
    project_path: Seq<char>,
    name: Seq<char>,
    lic: LicenseInfoV,
    raw: Seq<char>,
)
    requires
        r1 == spec_compose(files, dirs, vars, cat, project_path, name, lic, raw),
        r2 == spec_compose(files, dirs, vars, cat, project_path, name, lic, raw),
    ensures
        r1 == r2,
{
}

/// The lengths of the literal path pieces the engine adds.
proof fn proof_strlit_lens()
    ensures
        "dep5"@.len() == 4,
        ".txt"@.len() == 4,
{
    reveal_strlit("dep5");
    reveal_strlit(".txt");
}

/// Whether the path strictly extends one of the directories.
pub open spec fn file_covered(p: Seq<char>, ds: Seq<Seq<char>>) -> bool {
    exists|j: int| 0 <= j < ds.len() && path_under(p, #[trigger] ds[j])
}

/// Whether every pair's path strictly extends one of the directories.
pub open spec fn files_covered(fs: Seq<(Seq<char>, Seq<char>)>, ds: Seq<Seq<char>>) -> bool {
    forall|i: int| 0 <= i < fs.len() ==> file_covered((#[trigger] fs[i]).0, ds)
}

/// Every planned file lies beneath a planned directory: if each
/// descriptor-declared path extends one of the declared directories, each
/// file of a successful plan extends one of the plan's directories.
pub proof fn lemma_plan_files_covered(
    files: Seq<(Seq<char>, Seq<char>)>,
    dirs: Seq<Seq<char>>,
    vars: Seq<(Seq<char>, Seq<char>)>,
    cat: CatalogV,
    project_path: Seq<char>,
    name: Seq<char>,
    lic: LicenseInfoV,
    raw: Seq<char>,
)
    requires
        files_covered(files, dirs),
    ensures
        spec_compose(files, dirs, vars, cat, project_path, name, lic, raw) matches Ok(plan)
            ==> files_covered(plan.files, plan.dirs),
{
    if spec_compose(files, dirs, vars, cat, project_path, name, lic, raw) is Ok {
        let plan = spec_compose(files, dirs, vars, cat, project_path, name, lic, raw)->Ok_0;
        let merged = files + spec_extra_files(project_path, lic.id);
        lemma_render_all_paths(merged, spec_run_registry(cat, raw), vars, lic, name);
        assert(keys_of(plan.files) == keys_of(merged));
        assert(plan.files.len() == merged.len()) by {
            assert(keys_of(plan.files).len() == plan.files.len());
            assert(keys_of(merged).len() == merged.len());
        }
        let reuse_dir = spec_path_join(project_path, ".reuse"@);
        let lic_dir = spec_path_join(project_path, "LICENSES"@);
        assert forall|i: int| 0 <= i < plan.files.len() implies file_covered(
            (#[trigger] plan.files[i]).0,
            plan.dirs,
        ) by {
            assert(keys_of(plan.files)[i] == plan.files[i].0);
            assert(keys_of(merged)[i] == merged[i].0);
            if i < files.len() {
                assert(file_covered(files[i].0, dirs));
                let j = choose|j: int| 0 <= j < dirs.len() && path_under(files[i].0, #[trigger] dirs[j]);
                assert(plan.dirs[j] == dirs[j]);
                assert(merged[i].0 == files[i].0);
                assert(path_under(plan.files[i].0, plan.dirs[j]));
            } else if i == files.len() {
                proof_strlit_lens();
                lemma_join_under(reuse_dir, "dep5"@);
                let j = dirs.len() as int;
                assert(plan.dirs[j] == reuse_dir);
                assert(merged[i].0 == spec_path_join(reuse_dir, "dep5"@));
                assert(path_under(plan.files[i].0, plan.dirs[j]));
            } else {
                proof_strlit_lens();
                lemma_join_under(lic_dir, lic.id + ".txt"@);
                let j = dirs.len() as int + 1;
                assert(plan.dirs[j] == lic_dir);
                assert(merged[i].0 == spec_path_join(lic_dir, lic.id + ".txt"@));
                assert(path_under(plan.files[i].0, plan.dirs[j]));
            }
        }
        assert(files_covered(plan.files, plan.dirs));
    }
}

} // verus!
