//! The failure modes of a generation run.

use vstd::prelude::*;

verus! {

/// Why a generation run failed.
///
/// `InvalidName` and `LicenseNotFound` are configuration errors, found before
/// any output is planned. `DuplicateTemplateId`, `TemplateNotFound` and
/// `ShortLicenseText` signal a mismatched template catalog or a malformed
/// license corpus: defects, not user errors. `Render` is a
/// template-evaluation failure.
#[derive(Clone, Copy, Debug, PartialEq, Eq, Structural)]
pub enum GenError {
    /// The caller-supplied project name is empty and the project path has no
    /// usable final component to fall back to.
    InvalidName,
    /// The license identifier is not in the SPDX database.
    LicenseNotFound,
    /// The canonical license text has fewer than two lines, so the body
    /// transform cannot drop its two leading structural lines.
    ShortLicenseText,
    /// A template identifier occurs twice in the supplied catalog.
    DuplicateTemplateId,
    /// A mapped output file references a template identifier that is not
    /// registered.
    TemplateNotFound,
    /// The template engine rejected a template body or its variables.
    Render,
}

} // verus!
