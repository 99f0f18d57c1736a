//! The vault as it lies in its directory, and the commands on it.
//!
//! The directory holds two files that do not depend on each other: a marker,
//! whose presence says that the vault was initialized, and the vault file with
//! the records. A command takes what the directory holds, as a `VaultFiles`,
//! and changes that value; reading the directory before and writing it back
//! after is the caller's part. What a command returns tells the caller what
//! there is to write.

use vstd::prelude::*;
use crate::entry::{EntryView, PasswordEntry};
use crate::store::{
    has_name, lemma_position_of, lookup, names_of, names_unique, without, StoreError, Vault,
};

verus! {

/// What the vault directory holds.
#[derive(Debug, PartialEq, Eq)]
pub struct VaultFiles {
    /// Whether the marker file is there.
    pub marker: bool,
    /// The records of the vault file, or `None` while there is no vault file.
    pub records: Option<Vault>,
}

/// What `VaultFiles` means.
pub struct VaultFilesView {
    pub marker: bool,
    pub records: Option<Seq<EntryView>>,
}

impl View for VaultFiles {
    type V = VaultFilesView;

    open spec fn view(&self) -> VaultFilesView {
        VaultFilesView {
            marker: self.marker,
            records: match self.records {
                Some(vault) => Some(vault@),
                None => None,
            },
        }
    }
}

/// The entries that a reader finds: those of the vault file, and none where
/// the file is missing.
pub open spec fn stored(files: VaultFilesView) -> Seq<EntryView> {
    match files.records {
        Some(entries) => entries,
        None => Seq::empty(),
    }
}

/// The directory after an initialization: the marker is there, and so is the
/// vault file, with the entries it had before or with none if it was missing.
pub open spec fn initialized(files: VaultFilesView) -> VaultFilesView {
    VaultFilesView { marker: true, records: Some(stored(files)) }
}

/// What an initialization had to create.
#[derive(Debug, Clone, Copy, PartialEq, Eq, Structural)]
pub struct InitReport {
    /// The marker was missing and is to be written.
    pub marker_created: bool,
    /// The vault file was missing and is to be written, without entries.
    pub vault_created: bool,
}

/// What an initialization of `files` has to create.
pub open spec fn init_work(files: VaultFilesView) -> InitReport {
    InitReport { marker_created: !files.marker, vault_created: files.records is None }
}

/// What came of reading the vault file.
#[derive(Debug, PartialEq, Eq)]
pub enum VaultFileRead {
    /// There is no vault file.
    Missing,
    /// There is a vault file, but it could not be read.
    Unreadable,
    /// The content of the vault file is not a collection of entries.
    Malformed,
    /// The entries that the vault file holds, in its order.
    Entries(Vec<PasswordEntry>),
}

/// Takes stock of the vault directory, from whether the marker is there and
/// from what came of reading the vault file. A missing vault file is no
/// failure; one that cannot be read or understood is, and nothing is repaired.
pub fn load_vault(marker: bool, read: VaultFileRead) -> (loaded: Result<VaultFiles, StoreError>)
    ensures
        match read {
            VaultFileRead::Missing => loaded matches Ok(files) && files@ == (VaultFilesView {
                marker,
                records: None,
            }),
            VaultFileRead::Entries(entries) => loaded matches Ok(files) && files@ == (
            VaultFilesView { marker, records: Some(entries.deep_view()) }),
            VaultFileRead::Unreadable => loaded == Err::<VaultFiles, StoreError>(StoreError::Io),
            VaultFileRead::Malformed => loaded == Err::<VaultFiles, StoreError>(
                StoreError::Serialization,
            ),
        },
{
    match read {
        VaultFileRead::Missing => Ok(VaultFiles { marker, records: None }),
        VaultFileRead::Entries(entries) => Ok(
            VaultFiles { marker, records: Some(Vault::from_entries(entries)) },
        ),
        VaultFileRead::Unreadable => Err(StoreError::Io),
        VaultFileRead::Malformed => Err(StoreError::Serialization),
    }
}

/// Whether the vault was initialized: whether the marker is there.
pub fn is_vault_initialized(files: &VaultFiles) -> (initialized: bool)
    ensures
        initialized == files@.marker,
{
    files.marker
}

/// Whether there is a vault file.
pub fn vault_file_exists(files: &VaultFiles) -> (exists: bool)
    ensures
        exists == files@.records is Some,
{
    files.records.is_some()
}

/// Initializes the vault: sets the marker if it is missing, and starts an empty
/// vault file if there is none. A vault file that is there keeps its records.
pub fn init_vault(files: &mut VaultFiles) -> (report: InitReport)
    ensures
        final(files)@ == initialized(old(files)@),
        report == init_work(old(files)@),
{
    let marker_created = !is_vault_initialized(files);
    if marker_created {
        files.marker = true;
    }
    let vault_created = !vault_file_exists(files);
    if vault_created {
        files.records = Some(Vault::new());
    }
    InitReport { marker_created, vault_created }
}

/// Stores `password` under `name` and hands the password back, for the caller
/// to put on the clipboard. A name that is in use is refused and nothing
/// changes. On success the vault file is to be written anew, whether or not
/// there was one before.
pub fn add_password(
    files: &mut VaultFiles,
    name: String,
    password: String,
) -> (added: Result<String, StoreError>)
    ensures
        final(files)@.marker == old(files)@.marker,
        has_name(stored(old(files)@), name@) ==> added == Err::<String, StoreError>(
            StoreError::Duplicate,
        ) && final(files)@ == old(files)@,
        !has_name(stored(old(files)@), name@) ==> added == Ok::<String, StoreError>(password)
            && final(files)@.records == Some(
            stored(old(files)@).push(EntryView { name: name@, password: password@ }),
        ),
        names_unique(stored(old(files)@)) ==> names_unique(stored(final(files)@)),
{
    match &mut files.records {
        Some(vault) => vault.add(name, password),
        None => {
            let mut vault = Vault::new();
            let added = vault.add(name, password);
            files.records = Some(vault);
            added
        },
    }
}

/// What a retrieval hands to the caller.
#[derive(Debug, PartialEq, Eq)]
pub struct Retrieval {
    /// The password, to be put on the clipboard.
    pub clipboard: String,
    /// The password again if it is to be shown, else `None`.
    pub display: Option<String>,
}

/// What `Retrieval` means.
pub struct RetrievalView {
    pub clipboard: Seq<char>,
    pub display: Option<Seq<char>>,
}

impl View for Retrieval {
    type V = RetrievalView;

    open spec fn view(&self) -> RetrievalView {
        RetrievalView {
            clipboard: self.clipboard@,
            display: match self.display {
                Some(shown) => Some(shown@),
                None => None,
            },
        }
    }
}

/// The retrieval of `entry`: its password goes to the clipboard, and is shown
/// as well if `reveal` says so.
pub open spec fn retrieval_of(entry: EntryView, reveal: bool) -> RetrievalView {
    RetrievalView {
        clipboard: entry.password,
        display: if reveal {
            Some(entry.password)
        } else {
            None
        },
    }
}

/// Looks up the password stored under `name`. A name that is not in the vault
/// is no error: the answer is `None`.
pub fn get_password(files: &VaultFiles, name: String, reveal: bool) -> (found: Option<Retrieval>)
    ensures
        match found {
            Some(retrieval) => lookup(stored(files@), name@) matches Some(entry) && retrieval@
                == retrieval_of(entry, reveal),
            None => lookup(stored(files@), name@) is None,
        },
{
    match &files.records {
        Some(vault) => match vault.find(name.as_str()) {
            Some(entry) => {
                let display = if reveal {
                    Some(entry.password.clone())
                } else {
                    None
                };
                Some(Retrieval { clipboard: entry.password.clone(), display })
            },
            None => None,
        },
        None => {
            proof {
                lemma_position_of(stored(files@), name@);
            }
            None
        },
    }
}

/// The names of the stored entries, in storage order. A vault without entries,
/// or without a vault file, gives the empty list.
pub fn list_passwords(files: &VaultFiles) -> (names: Vec<String>)
    ensures
        names.deep_view() == names_of(stored(files@)),
{
    match &files.records {
        Some(vault) => vault.list(),
        None => {
            let names: Vec<String> = Vec::new();
            assert(names.deep_view() =~= names_of(stored(files@)));
            names
        },
    }
}

/// Removes the entry stored under `name` and says whether there was one. When
/// there was, the vault file is to be written anew; when there was none,
/// nothing changes and nothing is to be written.
pub fn delete_password(files: &mut VaultFiles, name: String) -> (removed: bool)
    ensures
        removed == has_name(stored(old(files)@), name@),
        removed ==> final(files)@ == (VaultFilesView {
            marker: old(files)@.marker,
            records: Some(without(stored(old(files)@), name@)),
        }),
        !removed ==> final(files)@ == old(files)@,
        names_unique(stored(old(files)@)) ==> names_unique(stored(final(files)@)) && !has_name(
            stored(final(files)@),
            name@,
        ),
{
    match &mut files.records {
        Some(vault) => vault.delete(name.as_str()),
        None => false,
    }
}

/// Initializing twice is initializing once: the second time nothing is left to
/// create and nothing changes. A vault file that was there keeps its records
/// through any number of initializations.
pub proof fn lemma_init_is_idempotent(files: VaultFilesView)
    ensures
        initialized(initialized(files)) == initialized(files),
        init_work(initialized(files)) == (InitReport {
            marker_created: false,
            vault_created: false,
        }),
        files.records is Some ==> initialized(files).records == files.records,
{
}

/// A missing vault file reads as a vault file without entries: both have the
/// same stored entries, none, so every listing is empty and every lookup finds
/// nothing, on the one as on the other.
pub proof fn lemma_missing_file_reads_as_empty(missing: VaultFilesView, empty: VaultFilesView)
    requires
        missing.records is None,
        empty.records == Some(Seq::<EntryView>::empty()),
    ensures
        stored(missing) == stored(empty),
        names_of(stored(missing)) == Seq::<Seq<char>>::empty(),
        forall|name: Seq<char>| lookup(stored(missing), name) is None,
{
    let entries = stored(missing);
    assert(names_of(entries) =~= Seq::<Seq<char>>::empty());
    assert forall|name: Seq<char>| lookup(entries, name) is None by {
        lemma_position_of(entries, name);
    }
}

} // verus!
