//! Operation execution engine for a dual-pane file manager.
//!
//! The engine performs filesystem mutations (copy, move, delete-to-trash,
//! restore, compress, extract, create, rename) as independently cancellable,
//! pausable, progress-reporting units of work, and negotiates file-conflict
//! resolution with the issuing UI through a request/response protocol.

pub mod conflict;
pub mod config;
pub mod controller;
pub mod executor;
pub mod operation;
pub mod pane;
pub mod registry;
pub mod undo;
pub mod paths;

pub use config::AppTheme;
pub use config::ColorSchemeId;
pub use config::ColorSchemeKind;
pub use config::DesktopConfig;
pub use config::Favorite;
pub use config::IconSizes;
pub use config::PaneView;
pub use config::Profile;
pub use config::ProfileId;
pub use config::TabConfig1;
pub use config::TabConfig2;
pub use conflict::ConflictRequest;
pub use conflict::ReplaceResult;
pub use conflict::StickyResolution;
pub use controller::Controller;
pub use executor::Action;
pub use executor::Event;
pub use executor::Executor;
pub use executor::OpError;
pub use executor::OpKind;
pub use executor::Outcome;
pub use executor::Phase;
pub use executor::Termination;
pub use executor::Work;
pub use executor::WorkItem;
pub use controller::ControllerState;
pub use operation::ArchiveType;
pub use pane::FavoriteIndex;
pub use pane::Mode;
pub use pane::Pane;
pub use pane::PaneType;
pub use registry::CompleteEntry;
pub use registry::FailedEntry;
pub use registry::PendingEntry;
pub use registry::PendingRegistry;
pub use registry::ProgressSnapshot;
pub use undo::undo_restore_items;
pub use operation::Operation;
pub use operation::OperationSelection;
pub use operation::TrashEntry;
