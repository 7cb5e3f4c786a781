//! Project scaffolding engine.
//!
//! Each toolchain descriptor (`cargo`, `maven`, `meson`, `poetry`,
//! `setuptools`, `yarn`) declares the files, directories and template
//! variables a new project needs; a shared engine resolves the project name,
//! looks the license up in the SPDX database, derives the license body and a
//! REUSE attribution entry, and renders every declared template into a
//! [`plan::Plan`]: the full list of directories to create and files to write.
//! Carrying the plan out on disk is left to the caller.

pub mod error;
pub mod plan;
pub mod render;
pub mod registry;
pub mod filters;
pub mod license_db;
pub mod paths;
pub mod text;
pub mod toolchain;
pub mod views;

pub use toolchain::cargo;
pub use toolchain::maven;
pub use toolchain::meson;
pub use toolchain::poetry;
pub use toolchain::setuptools;
pub use toolchain::yarn;

use vstd::prelude::*;

verus! {

use crate::error::GenError;
use crate::license_db::license_known;
use crate::paths::spec_resolved_name;
use crate::plan::CatalogV;
use crate::plan::Plan;
use crate::plan::PlanV;
use crate::plan::TemplateCatalog;
use crate::plan::res_view;

/// Used to create a CI configuration for a project.
///
/// The method decides the whole run — name resolution, license lookup, the
/// descriptor's file mapping, and template rendering — and yields the plan
/// of directories and rendered files; it touches no file itself. An unknown
/// license fails the run before anything is planned.
pub trait CreateCi {
    /// The plan this descriptor owes the given arguments.
    spec fn spec_plan(
        &self,
        project_name: Seq<char>,
        project_path: Seq<char>,
        license_id: Seq<char>,
        github_branch: Seq<char>,
        catalog: CatalogV,
    ) -> Result<PlanV, GenError>;

    /// Creates a new CI configuration plan for a project.
    fn create_ci(
        &self,
        project_name: &str,
        project_path: &str,
        license_id: &str,
        github_branch: &str,
        catalog: &TemplateCatalog,
    ) -> (r: Result<Plan, GenError>)
        ensures
            res_view(r) == self.spec_plan(
                project_name@,
                project_path@,
                license_id@,
                github_branch@,
                catalog@,
            ),
            spec_resolved_name(project_name@, project_path@) is Some && !license_known(license_id@)
                ==> r == Err::<Plan, GenError>(GenError::LicenseNotFound),
            spec_resolved_name(project_name@, project_path@) is None ==> r == Err::<
                Plan,
                GenError,
            >(GenError::InvalidName),
    ;
}

/// Used to create a new project.
///
/// The method decides the whole run — name resolution, license lookup, the
/// descriptor's file mapping, and template rendering — and yields the plan
/// of directories and rendered files; it touches no file itself. An unknown
/// license fails the run before anything is planned.
pub trait CreateProject {
    /// The plan this descriptor owes the given arguments.
    spec fn spec_plan(
        &self,
        project_name: Seq<char>,
        project_path: Seq<char>,
        license_id: Seq<char>,
        github_branch: Seq<char>,
        catalog: CatalogV,
    ) -> Result<PlanV, GenError>;

    /// Creates a new project plan.
    fn create_project(
        &self,
        project_name: &str,
        project_path: &str,
        license_id: &str,
        github_branch: &str,
        catalog: &TemplateCatalog,
    ) -> (r: Result<Plan, GenError>)
        ensures
            res_view(r) == self.spec_plan(
                project_name@,
                project_path@,
                license_id@,
                github_branch@,
                catalog@,
            ),
            spec_resolved_name(project_name@, project_path@) is Some && !license_known(license_id@)
                ==> r == Err::<Plan, GenError>(GenError::LicenseNotFound),
            spec_resolved_name(project_name@, project_path@) is None ==> r == Err::<
                Plan,
                GenError,
            >(GenError::InvalidName),
    ;
}

} // verus!
