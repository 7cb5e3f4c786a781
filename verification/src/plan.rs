//! The output of a generation run: a plan of directories to create and
//! fully rendered files to write, plus the caller-supplied template catalog
//! it is produced from.

use vstd::prelude::*;

verus! {

use crate::error::GenError;
use crate::views::pairs_view;
use crate::views::strs_view;

/// One rendered output file: where to write it and what to write.
#[derive(Debug)]
pub struct RenderedFile {
    pub path: String,
    pub content: String,
}

/// Everything a generation run decided: the directories to create, in
/// order, and the files to write, each with its final content. Carrying
/// the plan out on disk (recursive directory creation, then writing each
/// file, overwriting what exists) is the caller's last, unverified step.
#[derive(Debug)]
pub struct Plan {
    pub dirs: Vec<String>,
    pub files: Vec<RenderedFile>,
}

/// The mathematical content of a [`Plan`].
pub ghost struct PlanV {
    pub dirs: Seq<Seq<char>>,
    pub files: Seq<(Seq<char>, Seq<char>)>,
}

impl View for Plan {
    type V = PlanV;

    open spec fn view(&self) -> PlanV {
        PlanV {
            dirs: strs_view(self.dirs@),
            files: self.files@.map_values(|f: RenderedFile| (f.path@, f.content@)),
        }
    }
}

/// A generation result as its mathematical content.
pub open spec fn res_view(r: Result<Plan, GenError>) -> Result<PlanV, GenError> {
    match r {
        Ok(p) => Ok(p@),
        Err(e) => Err(e),
    }
}

/// The template bodies a run renders from: the per-toolchain catalog of
/// (identifier, body) pairs, and the fixed body of the attribution
/// manifest. The engine adds the license text itself.
#[derive(Debug)]
pub struct TemplateCatalog {
    pub entries: Vec<(String, String)>,
    pub reuse_template: String,
}

/// The mathematical content of a [`TemplateCatalog`].
pub ghost struct CatalogV {
    pub entries: Seq<(Seq<char>, Seq<char>)>,
    pub reuse_template: Seq<char>,
}

impl View for TemplateCatalog {
    type V = CatalogV;

    open spec fn view(&self) -> CatalogV {
        CatalogV { entries: pairs_view(self.entries@), reuse_template: self.reuse_template@ }
    }
}

/// The attribution-manifest entry: the resolved project name and the
/// license identifier, exposed to templates under `reuse`.
#[derive(Debug)]
pub struct ReuseInfo {
    pub name: String,
    pub id: String,
}

} // verus!
