use vstd::prelude::*;
use crate::path::{is_reserved, is_reserved_path, is_root, is_root_path};
use crate::status::Status;

verus! {

/// Answers the framework's probe of `file_name`. Nothing is asked of the
/// storage service: the system directories do not exist, the root is a
/// directory, and every other path is taken to exist.
pub fn create_file(file_name: &[u16], is_dir: &mut bool) -> (r: Status)
    ensures
        r == (if is_reserved(file_name@) { Status::NoSuchFile } else { Status::Success }),
        *final(is_dir) == (if !is_reserved(file_name@) && is_root(file_name@) {
            true
        } else {
            *old(is_dir)
        }),
{
    if is_reserved_path(file_name) {
        return Status::NoSuchFile;
    }
    if is_root_path(file_name) {
        *is_dir = true;
    }
    Status::Success
}

/// What the volume tells the operating system about itself.
pub struct VolumeInformation {
    pub volume_name: String,
    pub maximum_component_length: u32,
    pub file_system_name: String,
}

pub open spec fn volume_label() -> Seq<char> {
    "DropboxFileSystem"@
}

pub open spec fn advertised_file_system() -> Seq<char> {
    "NTFS"@
}

pub open spec fn longest_component() -> u32 {
    255
}

impl View for VolumeInformation {
    type V = (Seq<char>, u32, Seq<char>);

    open spec fn view(&self) -> Self::V {
        (self.volume_name@, self.maximum_component_length, self.file_system_name@)
    }
}

/// The fixed label, component length and file system name of the volume.
pub open spec fn is_volume_information(v: VolumeInformation) -> bool {
    v@ == (volume_label(), longest_component(), advertised_file_system())
}

/// Always succeeds, with the same answer on every call.
pub fn get_volume_information() -> (r: (Status, VolumeInformation))
    ensures
        r.0 == Status::Success,
        is_volume_information(r.1),
{
    let info = VolumeInformation {
        volume_name: "DropboxFileSystem".to_owned(),
        maximum_component_length: 255,
        file_system_name: "NTFS".to_owned(),
    };
    (Status::Success, info)
}

/// Two answers about the volume never differ, whatever happened between them.
pub proof fn volume_information_is_fixed(a: VolumeInformation, b: VolumeInformation)
    requires
        is_volume_information(a),
        is_volume_information(b),
    ensures
        a@ == b@,
{
}

/// One entry of a listing as the storage service sent it; either field may be
/// missing.
pub struct ListedEntry {
    pub name: Option<String>,
    pub size: Option<u64>,
}

/// A file as it is handed to the framework's sink.
pub struct FoundFile {
    pub name: String,
    pub size: u64,
}

impl View for FoundFile {
    type V = (Seq<char>, u64);

    open spec fn view(&self) -> Self::V {
        (self.name@, self.size)
    }
}

/// Why the storage service gave no listing.
pub struct RemoteError {
    pub message: String,
}

pub open spec fn is_complete(e: ListedEntry) -> bool {
    e.name is Some && e.size is Some
}

pub open spec fn all_complete(es: Seq<ListedEntry>) -> bool {
    forall|i: int| 0 <= i < es.len() ==> #[trigger] is_complete(es[i])
}

pub open spec fn entry_file(e: ListedEntry) -> (Seq<char>, u64) {
    (e.name->0@, e.size->0)
}

/// The files of a listing, name and size as sent, in the order sent.
pub open spec fn listed_files(es: Seq<ListedEntry>) -> Seq<(Seq<char>, u64)> {
    es.map_values(|e: ListedEntry| entry_file(e))
}

pub open spec fn files_view(fs: Seq<FoundFile>) -> Seq<(Seq<char>, u64)> {
    fs.map_values(|f: FoundFile| f@)
}

/// The files of `entries`, or `None` where one of them lacks its name or size.
pub fn decode_listing(entries: &Vec<ListedEntry>) -> (r: Option<Vec<FoundFile>>)
    ensures
        r is Some <==> all_complete(entries@),
        r matches Some(fs) ==> files_view(fs@) == listed_files(entries@),
{
    let mut found: Vec<FoundFile> = Vec::new();
    let mut i: usize = 0;
    while i < entries.len()
        invariant
            i <= entries@.len(),
            forall|j: int| 0 <= j < i ==> #[trigger] is_complete(entries@[j]),
            found@.len() == i,
            forall|j: int| 0 <= j < i ==> #[trigger] found@[j]@ == entry_file(entries@[j]),
        decreases entries@.len() - i,
    {
        let e = &entries[i];
        let name = match &e.name {
            Some(n) => n.clone(),
            None => {
                assert(!is_complete(entries@[i as int]));
                return None;
            },
        };
        let size = match e.size {
            Some(s) => s,
            None => {
                assert(!is_complete(entries@[i as int]));
                return None;
            },
        };
        found.push(FoundFile { name, size });
        i = i + 1;
    }
    assert(files_view(found@) =~= listed_files(entries@));
    Some(found)
}

/// Answers the framework's enumeration of a directory from the storage
/// service's reply. The whole listing reaches `sink`, in order, or none of it:
/// a failed call or an entry without name or size is an internal error.
pub fn find_files(listing: &Result<Vec<ListedEntry>, RemoteError>, sink: &mut Vec<FoundFile>) -> (r: Status)
    ensures
        r == (if listing matches Ok(es) && all_complete(es@) {
            Status::Success
        } else {
            Status::InternalError
        }),
        r == Status::Success ==> (listing matches Ok(es) && files_view(final(sink)@) == files_view(old(sink)@) + listed_files(es@)),
        r != Status::Success ==> final(sink)@ == old(sink)@,
{
    let entries = match listing {
        Ok(es) => es,
        Err(_) => return Status::InternalError,
    };
    let found = match decode_listing(entries) {
        Some(fs) => fs,
        None => return Status::InternalError,
    };
    let ghost start = sink@;
    let mut i: usize = 0;
    while i < found.len()
        invariant
            i <= found@.len(),
            sink@.len() == start.len() + i,
            forall|j: int| 0 <= j < start.len() ==> #[trigger] sink@[j] == start[j],
            forall|j: int| 0 <= j < i ==> #[trigger] sink@[start.len() + j]@ == found@[j]@,
        decreases found@.len() - i,
    {
        let f = &found[i];
        sink.push(FoundFile { name: f.name.clone(), size: f.size });
        i = i + 1;
    }
    assert forall|k: int| 0 <= k < sink@.len() implies #[trigger] files_view(sink@)[k] == (files_view(start) + files_view(found@))[k] by {
        if k >= start.len() {
            assert(sink@[start.len() + (k - start.len())]@ == found@[k - start.len()]@);
        }
    }
    assert(files_view(sink@) =~= files_view(start) + files_view(found@));
    Status::Success
}

} // verus!
