//! Decisions of a user-mode file system that shows a remote storage account
//! as a mounted drive: which paths exist locally, what a directory listing
//! becomes, where the volume is mounted, and how a mounted session ends.

pub mod adapter;
pub mod config;
pub mod lifecycle;
pub mod mount_state;
pub mod path;
pub mod status;

pub use adapter::{
    create_file, decode_listing, find_files, get_volume_information, FoundFile, ListedEntry,
    RemoteError, VolumeInformation,
};
pub use config::Config;
pub use lifecycle::{step, Action, Event, Phase};
pub use mount_state::MountState;
pub use path::{is_reserved_path, is_root_path, remote_list_path};
pub use status::Status;
