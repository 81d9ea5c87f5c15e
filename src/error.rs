use vstd::prelude::*;

verus! {

/// The ways in which a gallery download fails as a whole.
#[derive(Debug)]
pub enum GalleryError {
    /// The HTTP client could not be set up.
    RequestFailed,
    /// The page renderer produced no markup; the text describes why.
    BrowserError(String),
    /// No image reference was found, or the element selection could not be built.
    ExtractionFailure,
    /// The page's own URL is not a well-formed absolute URL.
    ResolutionFailure,
    /// The target directory could not be created; the text describes why.
    DirectoryCreationFailure(String),
    /// A downloaded image could not be written; the text describes why.
    WriteFailure(String),
    /// A download task could not be run to its end; the text describes why.
    ExecutionEngineFailure(String),
}

} // verus!
