//! Where uploaded bytes are kept: a directory tree below a base directory,
//! one partition per day, one file per upload. Paths are texts with `/`
//! between their parts.

use crate::clock::{lemma_partition_shape, partition_dir, partition_of, today};
use crate::ids::{fresh_id, is_uuid_text};
use crate::text::{opt_chars, opt_str_chars};
use vstd::prelude::*;
use vstd::string::*;

verus! {

/// Whether `s` ends with `suffix`.
pub open spec fn has_suffix(s: Seq<char>, suffix: Seq<char>) -> bool {
    suffix.len() <= s.len() && s.skip(s.len() - suffix.len()) == suffix
}

/// Whether a path begins with a `~` that stands for the home directory: a
/// `~` alone, or one followed by a separator.
pub open spec fn tilde_led(path: Seq<char>) -> bool {
    path.len() >= 1 && path[0] == '~' && (path.len() == 1 || path[1] == '/' || path[1] == '\\')
}

/// Calls `shellexpand::tilde`. A path that no home-directory `~` leads comes
/// back unchanged. Of one that it leads, the `~` is replaced by the home
/// directory where that is known, so what followed the `~` still ends the path.
#[verifier::external_body]
fn expand_tilde(path: &str) -> (expanded: String)
    ensures
        !tilde_led(path@) ==> expanded@ == path@,
        tilde_led(path@) ==> has_suffix(expanded@, path@.skip(1)),
{
    shellexpand::tilde(path).into_owned()
}

/// The extension of a path as `Path::extension` of the standard library
/// reads it: what follows the final `.` of the path's last part, if that
/// part has one that is not its first character.
pub uninterp spec fn path_extension_of(path: Seq<char>) -> Option<Seq<char>>;

/// Calls `Path::extension`. The result is the extension of the path.
#[verifier::external_body]
fn path_extension(path: &str) -> (ext: Option<String>)
    ensures
        opt_chars(ext) == path_extension_of(path@),
{
    std::path::Path::new(path).extension().and_then(|e| e.to_str()).map(|e| e.to_owned())
}

/// A path joined to a base: the path itself where it is absolute, else the
/// base, a `/` unless the base is empty or ends with one, and the path.
pub open spec fn joined(base: Seq<char>, path: Seq<char>) -> Seq<char> {
    if path.len() > 0 && path[0] == '/' {
        path
    } else if base.len() == 0 || base.last() == '/' {
        base + path
    } else {
        base + seq!['/'] + path
    }
}

/// The extension a stored file gets: that of the original name, or `bin`.
pub open spec fn extension_or_bin(ext: Option<Seq<char>>) -> Seq<char> {
    match ext {
        Some(e) => e,
        None => "bin"@,
    }
}

/// The name of a stored file: its identifier, a `.` and its extension.
pub open spec fn stored_name(file_id: Seq<char>, ext: Option<Seq<char>>) -> Seq<char> {
    file_id + seq!['.'] + extension_or_bin(ext)
}

/// Where an upload is written.
#[derive(Debug, Clone, PartialEq, Eq)]
pub struct StoredFile {
    /// The path of the file below the base directory.
    pub relative_path: String,
    /// The directory that holds the file, which has to exist before the write.
    pub directory: String,
    /// The path of the file.
    pub absolute_path: String,
}

/// What a [`StoredFile`] holds, as mathematical values.
pub struct StoredFileView {
    pub relative_path: Seq<char>,
    pub directory: Seq<char>,
    pub absolute_path: Seq<char>,
}

impl View for StoredFile {
    type V = StoredFileView;

    open spec fn view(&self) -> StoredFileView {
        StoredFileView {
            relative_path: self.relative_path@,
            directory: self.directory@,
            absolute_path: self.absolute_path@,
        }
    }
}

/// The place of a file in the tree: `<partition>/<id>.<ext>` below the base.
pub open spec fn placement(
    base: Seq<char>,
    partition: Seq<char>,
    file_id: Seq<char>,
    ext: Option<Seq<char>>,
) -> StoredFileView {
    StoredFileView {
        relative_path: partition + seq!['/'] + stored_name(file_id, ext),
        directory: joined(base, partition),
        absolute_path: joined(joined(base, partition), stored_name(file_id, ext)),
    }
}

/// Whether `slot` is a place for a file of the given name below `base`: in
/// the partition of some date, under some UUID, with the name's extension.
pub open spec fn is_allocation(base: Seq<char>, filename: Seq<char>, slot: StoredFileView) -> bool {
    exists|year: int, month: nat, day: nat, id: Seq<char>|
        {
            &&& 1 <= month <= 12
            &&& 1 <= day <= 31
            &&& is_uuid_text(id)
            &&& slot == #[trigger] placement(
                base,
                partition_of(year, month, day),
                id,
                path_extension_of(filename),
            )
        }
}

/// The relative path of a placed file leads back to it: joined to the base
/// it is the file's absolute path. This holds where the partition is a
/// relative path that does not end in `/` and the identifier is not empty
/// and does not begin with `/`.
pub proof fn lemma_placement_is_found_again(
    base: Seq<char>,
    partition: Seq<char>,
    file_id: Seq<char>,
    ext: Option<Seq<char>>,
)
    requires
        partition.len() > 0,
        partition[0] != '/',
        partition.last() != '/',
        file_id.len() > 0,
        file_id[0] != '/',
    ensures
        joined(base, placement(base, partition, file_id, ext).relative_path) == placement(
            base,
            partition,
            file_id,
            ext,
        ).absolute_path,
        placement(base, partition, file_id, ext).relative_path[0] != '/',
{
    let name = stored_name(file_id, ext);
    let rel = partition + seq!['/'] + name;
    let dir = joined(base, partition);
    assert(name.len() > 0 && name[0] == file_id[0]);
    assert(rel[0] == partition[0]);
    assert(dir.len() > 0 && dir.last() == partition.last());
    assert(joined(dir, name) == dir + seq!['/'] + name);
    if base.len() == 0 || base.last() == '/' {
        assert(base + partition + seq!['/'] + name =~= base + rel);
    } else {
        assert(base + seq!['/'] + partition + seq!['/'] + name =~= base + seq!['/'] + rel);
    }
}

/// Every place that `allocate` chooses is a relative path below the base
/// that leads back to the file.
pub proof fn lemma_allocation_is_found_again(
    base: Seq<char>,
    filename: Seq<char>,
    slot: StoredFileView,
)
    requires
        is_allocation(base, filename, slot),
    ensures
        slot.relative_path.len() > 0,
        slot.relative_path[0] != '/',
        joined(base, slot.relative_path) == slot.absolute_path,
{
    let (year, month, day, id) = choose|year: int, month: nat, day: nat, id: Seq<char>|
        {
            &&& 1 <= month <= 12
            &&& 1 <= day <= 31
            &&& is_uuid_text(id)
            &&& slot == #[trigger] placement(
                base,
                partition_of(year, month, day),
                id,
                path_extension_of(filename),
            )
        };
    lemma_partition_shape(year, month, day);
    assert(id[0] != '/') by {
        assert(crate::ids::is_hex_digit(id[0]));
    }
    lemma_placement_is_found_again(
        base,
        partition_of(year, month, day),
        id,
        path_extension_of(filename),
    );
}

/// Joins a path to a base directory.
pub fn join_paths(base: &str, path: &str) -> (whole: String)
    ensures
        whole@ == joined(base@, path@),
{
    proof {
        reveal_strlit("/");
    }
    let path_len = path.unicode_len();
    if path_len > 0 && path.get_char(0) == '/' {
        return path.to_owned();
    }
    let base_len = base.unicode_len();
    let mut whole = base.to_owned();
    if base_len > 0 && base.get_char(base_len - 1) != '/' {
        whole.append("/");
    }
    whole.append(path);
    assert(whole@ =~= joined(base@, path@));
    whole
}

/// File storage on disk, below a base directory, one partition per day.
#[derive(Debug, Clone, PartialEq, Eq)]
pub struct FileStorage {
    base_dir: String,
}

impl View for FileStorage {
    type V = Seq<char>;

    /// The base directory.
    closed spec fn view(&self) -> Seq<char> {
        self.base_dir@
    }
}

impl FileStorage {
    /// A storage below `base_dir`. A leading `~` of the path stands for the
    /// home directory and is replaced by it where it is known.
    pub fn new(base_dir: &str) -> (storage: FileStorage)
        ensures
            !tilde_led(base_dir@) ==> storage@ == base_dir@,
            tilde_led(base_dir@) ==> has_suffix(storage@, base_dir@.skip(1)),
    {
        FileStorage { base_dir: expand_tilde(base_dir) }
    }

    /// The base directory.
    pub fn base_dir(&self) -> (dir: &str)
        ensures
            dir@ == self@,
    {
        self.base_dir.as_str()
    }

    /// Get absolute path for a relative path.
    pub fn absolute_path(&self, rel_path: &str) -> (path: String)
        ensures
            path@ == joined(self@, rel_path@),
    {
        join_paths(self.base_dir.as_str(), rel_path)
    }

    /// The place of a file with a given identifier and extension in a
    /// given partition.
    pub fn place(&self, partition: &str, file_id: &str, extension: Option<&str>) -> (slot:
        StoredFile)
        ensures
            slot@ == placement(self@, partition@, file_id@, opt_str_chars(extension)),
    {
        proof {
            reveal_strlit(".");
            reveal_strlit("/");
        }
        let mut name = file_id.to_owned();
        name.append(".");
        match extension {
            Some(e) => name.append(e),
            None => name.append("bin"),
        }
        assert(name@ =~= stored_name(file_id@, opt_str_chars(extension)));
        let mut relative_path = partition.to_owned();
        relative_path.append("/");
        relative_path.append(name.as_str());
        assert(relative_path@ =~= partition@ + seq!['/'] + name@);
        let directory = self.absolute_path(partition);
        let absolute_path = join_paths(directory.as_str(), name.as_str());
        StoredFile { relative_path, directory, absolute_path }
    }

    /// Chooses the place for a new upload: today's partition, a fresh
    /// identifier, and the extension of the original name (`bin` where it
    /// has none). Nothing is written.
    pub fn allocate(&self, original_filename: &str) -> (slot: StoredFile)
        ensures
            is_allocation(self@, original_filename@, slot@),
            slot.relative_path@.len() > 0,
            slot.relative_path@[0] != '/',
            slot.absolute_path@ == joined(self@, slot.relative_path@),
    {
        let (year, month, day) = today();
        let partition = partition_dir(year, month, day);
        let file_id = fresh_id();
        let slot = match path_extension(original_filename) {
            Some(ext) => self.place(partition.as_str(), file_id.as_str(), Some(ext.as_str())),
            None => self.place(partition.as_str(), file_id.as_str(), None),
        };
        proof {
            assert(slot@ == placement(
                self@,
                partition_of(year as int, month as nat, day as nat),
                file_id@,
                path_extension_of(original_filename@),
            ));
            lemma_allocation_is_found_again(self@, original_filename@, slot@);
        }
        slot
    }
}

} // verus!
