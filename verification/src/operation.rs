use vstd::prelude::*;

verus! {

/// Archive formats the engine can produce or unpack.
#[derive(Clone, Copy, Debug, Default, Eq, Hash, PartialEq, Structural)]
pub enum ArchiveType {
    Tgz,
    #[default]
    Zip,
}

impl ArchiveType {
    /// Every supported archive format, in menu order.
    pub fn all() -> (r: Vec<ArchiveType>)
        ensures
            r@ == seq![ArchiveType::Tgz, ArchiveType::Zip],
    {
        let mut v: Vec<ArchiveType> = Vec::new();
        v.push(ArchiveType::Tgz);
        v.push(ArchiveType::Zip);
        proof {
            assert(v@ =~= seq![ArchiveType::Tgz, ArchiveType::Zip]);
        }
        v
    }

    /// The file extension for this format, with its leading dot.
    pub fn extension(&self) -> (r: &'static str)
        ensures
            *self == ArchiveType::Tgz ==> r@ == ".tgz"@,
            *self == ArchiveType::Zip ==> r@ == ".zip"@,
    {
        match self {
            ArchiveType::Tgz => ".tgz",
            ArchiveType::Zip => ".zip",
        }
    }
}

/// One item in the OS trash, reduced to what the engine reads: a stable
/// handle, the path the item was deleted from, and the deletion time.
#[derive(Clone, Debug, Eq, PartialEq)]
pub struct TrashEntry {
    /// Opaque per-item identifier understood by the trash service.
    pub id: String,
    /// The absolute path the item lived at before deletion.
    pub original_path: String,
    /// Deletion time in seconds since the epoch.
    pub time_deleted: i64,
}

/// An immutable description of one unit of work. Fully determined at
/// construction; all mutable execution state lives in the `Controller`.
#[derive(Clone, Debug, Eq, PartialEq)]
pub enum Operation {
    /// Copy each path into the directory `to`.
    Copy { paths: Vec<String>, to: String },
    /// Move each path into the directory `to`.
    Move { paths: Vec<String>, to: String },
    /// Move each path to the OS trash.
    Delete { paths: Vec<String> },
    /// Restore trash entries to their original locations.
    Restore { items: Vec<TrashEntry> },
    /// Remove everything from the OS trash.
    EmptyTrash,
    /// Pack the paths into the archive `to`.
    Compress {
        paths: Vec<String>,
        to: String,
        archive_type: ArchiveType,
        password: Option<String>,
    },
    /// Unpack each archive into the directory `to`.
    Extract { paths: Vec<String>, to: String, password: Option<String> },
    /// Create an empty file.
    NewFile { path: String },
    /// Create an empty directory.
    NewFolder { path: String },
    /// Rename (or move) a single path.
    Rename { from: String, to: String },
    /// Mark a file executable, then launch it.
    SetExecutableAndLaunch { path: String },
}

impl Operation {
    /// Whether this kind of operation takes long enough to drive the shared
    /// progress indicator. Trivial single-step kinds are excluded from the
    /// aggregate notification but still tracked.
    pub open spec fn progress_worthy(self) -> bool {
        match self {
            Operation::Copy { .. } => true,
            Operation::Move { .. } => true,
            Operation::Delete { .. } => true,
            Operation::Restore { .. } => true,
            Operation::EmptyTrash => true,
            Operation::Compress { .. } => true,
            Operation::Extract { .. } => true,
            Operation::NewFile { .. } => false,
            Operation::NewFolder { .. } => false,
            Operation::Rename { .. } => false,
            Operation::SetExecutableAndLaunch { .. } => false,
        }
    }

    /// Executable mirror of [`Self::progress_worthy`].
    pub fn show_progress_notification(&self) -> (r: bool)
        ensures
            r == self.progress_worthy(),
    {
        match self {
            Operation::Copy { .. } => true,
            Operation::Move { .. } => true,
            Operation::Delete { .. } => true,
            Operation::Restore { .. } => true,
            Operation::EmptyTrash => true,
            Operation::Compress { .. } => true,
            Operation::Extract { .. } => true,
            Operation::NewFile { .. } => false,
            Operation::NewFolder { .. } => false,
            Operation::Rename { .. } => false,
            Operation::SetExecutableAndLaunch { .. } => false,
        }
    }
}

/// The result of a successful operation: `selected` are the destination
/// paths the UI should highlight afterwards; `ignored` are paths the UI
/// must not disturb an existing selection for (skipped conflicts).
#[derive(Clone, Debug, Eq, PartialEq)]
pub struct OperationSelection {
    pub selected: Vec<String>,
    pub ignored: Vec<String>,
}

impl OperationSelection {
    pub fn empty() -> (r: OperationSelection)
        ensures
            r.selected@ == Seq::<String>::empty(),
            r.ignored@ == Seq::<String>::empty(),
    {
        OperationSelection { selected: Vec::new(), ignored: Vec::new() }
    }
}

} // verus!
