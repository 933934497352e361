//! Backend orchestration and process-lifecycle engine for a wallpaper setter.
//!
//! The library classifies media files by content, selects them from a
//! directory tree, pairs display outputs with media under a chosen backend,
//! tracks the spawning of worker processes with all-or-nothing rollback, and
//! coordinates the graceful stop of every live worker at shutdown.

pub mod backend;
pub mod mime;
pub mod orchestrator;
pub mod output;
pub mod scan;
pub mod shutdown;
pub mod targets;

pub use backend::{Backend, BackendCapability, BackendSpawnSpec, WallpaperMode, WorkerHandle};
pub use mime::MediaKind;
pub use orchestrator::{OrchestrationError, SetupPlan, SpawnSession};
pub use output::{OutputInfo, OutputMode, SeatInfo};
pub use scan::{DepthBudget, FsTree, ScanMode};
pub use shutdown::ShutdownSession;
