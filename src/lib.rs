//! Image gallery downloading: extraction of image references from rendered
//! markup, their resolution against the page URL, file naming, the retry
//! policy of a single download and the aggregation of a batch.
pub mod batch;
pub mod error;
pub mod extract;
pub mod naming;
pub mod resolve;
pub mod worker;

pub use batch::{aggregate_outcomes, plan_tasks, BatchReport, FetchOutcome, FetchTask};
pub use error::GalleryError;
pub use extract::{first_present, image_references, parse_image_urls, references_of};
pub use naming::{decimal_text, file_name_for, last_segment};
pub use resolve::{resolve_all, resolve_reference, validate_base};
pub use worker::{is_success_status, FetchWorker, RetryPolicy, WorkerAction};
