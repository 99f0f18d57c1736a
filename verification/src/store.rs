//! The record collection: an ordered sequence of entries, keyed by name.
//!
//! Entries keep the order in which they were added. A name is looked up by
//! exact comparison, and the first entry that bears it is the one found. A
//! vault built by `add` alone never holds a name twice; one read from a file
//! may, and every operation is defined for it all the same.

use vstd::prelude::*;
use crate::entry::{EntryView, PasswordEntry};

verus! {

/// The names of the entries, in storage order.
pub open spec fn names_of(entries: Seq<EntryView>) -> Seq<Seq<char>> {
    entries.map_values(|e: EntryView| e.name)
}

/// No name is borne by two entries.
pub open spec fn names_unique(entries: Seq<EntryView>) -> bool {
    names_of(entries).no_duplicates()
}

/// Some entry bears `name`.
pub open spec fn has_name(entries: Seq<EntryView>, name: Seq<char>) -> bool {
    names_of(entries).contains(name)
}

/// The position of the first entry that bears `name`.
pub open spec fn position_of(entries: Seq<EntryView>, name: Seq<char>) -> Option<int> {
    names_of(entries).index_of_first(name)
}

/// The first entry that bears `name`.
pub open spec fn lookup(entries: Seq<EntryView>, name: Seq<char>) -> Option<EntryView> {
    match position_of(entries, name) {
        Some(i) => Some(entries[i]),
        None => None,
    }
}

/// The entries without the first one that bears `name`.
pub open spec fn without(entries: Seq<EntryView>, name: Seq<char>) -> Seq<EntryView> {
    match position_of(entries, name) {
        Some(i) => entries.remove(i),
        None => entries,
    }
}

/// What `position_of` returns, said of the entries themselves: `Some(i)` exactly
/// when entry `i` bears the name and none before it does, `None` exactly when
/// no entry bears it.
pub proof fn lemma_position_of(entries: Seq<EntryView>, name: Seq<char>)
    ensures
        match position_of(entries, name) {
            Some(i) => {
                &&& 0 <= i < entries.len()
                &&& entries[i].name == name
                &&& forall|j: int| 0 <= j < i ==> entries[j].name != name
            },
            None => forall|j: int| 0 <= j < entries.len() ==> entries[j].name != name,
        },
        position_of(entries, name) is Some <==> has_name(entries, name),
{
    let names = names_of(entries);
    names.index_of_first_ensures(name);
    match names.index_of_first(name) {
        Some(i) => {
            assert forall|j: int| 0 <= j < i implies entries[j].name != name by {
                assert(names[j] != name);
            }
        },
        None => {
            assert forall|j: int| 0 <= j < entries.len() implies entries[j].name != name by {
                assert(names[j] == entries[j].name);
            }
        },
    }
}

/// An index that bears the name, with none before it that does, is the position.
pub proof fn lemma_first_match_is_position(entries: Seq<EntryView>, name: Seq<char>, i: int)
    requires
        0 <= i < entries.len(),
        entries[i].name == name,
        forall|j: int| 0 <= j < i ==> entries[j].name != name,
    ensures
        position_of(entries, name) == Some(i),
{
    lemma_position_of(entries, name);
    assert(names_of(entries)[i] == name);
}

/// Why an operation on the stored collection failed.
#[derive(Debug, Clone, Copy, PartialEq, Eq, Structural)]
pub enum StoreError {
    /// The name is already in use. Nothing was changed.
    Duplicate,
    /// The content of the vault file is not a collection of entries.
    Serialization,
    /// The vault file could not be read.
    Io,
}

impl StoreError {
    /// The failure in words.
    pub fn message(&self) -> (text: String)
        ensures
            text@ == match *self {
                StoreError::Duplicate => "Password entry already exists"@,
                StoreError::Serialization => "The vault file does not hold a list of entries"@,
                StoreError::Io => "The vault file could not be read"@,
            },
    {
        match self {
            StoreError::Duplicate => "Password entry already exists".to_owned(),
            StoreError::Serialization =>
                "The vault file does not hold a list of entries".to_owned(),
            StoreError::Io => "The vault file could not be read".to_owned(),
        }
    }
}

/// The ordered collection of stored entries.
#[derive(Debug, PartialEq, Eq)]
pub struct Vault {
    entries: Vec<PasswordEntry>,
}

impl View for Vault {
    type V = Seq<EntryView>;

    closed spec fn view(&self) -> Seq<EntryView> {
        self.entries.deep_view()
    }
}

impl Vault {
    /// A vault without entries.
    pub fn new() -> (vault: Vault)
        ensures
            vault@ == Seq::<EntryView>::empty(),
            names_unique(vault@),
    {
        let vault = Vault { entries: Vec::new() };
        assert(vault@ =~= Seq::<EntryView>::empty());
        vault
    }

    /// The vault that holds `entries`, in their order.
    pub fn from_entries(entries: Vec<PasswordEntry>) -> (vault: Vault)
        ensures
            vault@ == entries.deep_view(),
    {
        Vault { entries }
    }

    /// The entries, in storage order.
    pub fn entries(&self) -> (entries: &Vec<PasswordEntry>)
        ensures
            entries.deep_view() == self@,
    {
        &self.entries
    }

    /// The number of entries.
    pub fn len(&self) -> (n: usize)
        ensures
            n == self@.len(),
    {
        self.entries.len()
    }

    /// Whether the vault holds no entry.
    pub fn is_empty(&self) -> (empty: bool)
        ensures
            empty == (self@.len() == 0),
    {
        self.entries.len() == 0
    }

    /// The position of the first entry named `name`.
    pub fn position(&self, name: &str) -> (found: Option<usize>)
        ensures
            match found {
                Some(i) => position_of(self@, name@) == Some(i as int),
                None => position_of(self@, name@) is None,
            },
    {
        let wanted = name.to_owned();
        let mut i: usize = 0;
        while i < self.entries.len()
            invariant
                i <= self.entries.len(),
                wanted@ == name@,
                forall|j: int| 0 <= j < i ==> self@[j].name != name@,
            decreases self.entries.len() - i,
        {
            if self.entries[i].name == wanted {
                proof {
                    lemma_first_match_is_position(self@, name@, i as int);
                }
                return Some(i);
            }
            i += 1;
        }
        proof {
            lemma_position_of(self@, name@);
        }
        None
    }

    /// The first entry named `name`. The comparison is exact: no folding of
    /// case, no matching of parts.
    pub fn find(&self, name: &str) -> (found: Option<&PasswordEntry>)
        ensures
            match found {
                Some(entry) => lookup(self@, name@) == Some(entry@),
                None => lookup(self@, name@) is None,
            },
    {
        proof {
            lemma_position_of(self@, name@);
        }
        match self.position(name) {
            Some(i) => Some(&self.entries[i]),
            None => None,
        }
    }

    /// Appends an entry that stores `password` under `name` and hands the
    /// password back. A name that is already in use is refused, and the vault
    /// stays as it was.
    pub fn add(&mut self, name: String, password: String) -> (added: Result<String, StoreError>)
        ensures
            has_name(old(self)@, name@) ==> added == Err::<String, StoreError>(
                StoreError::Duplicate,
            ) && final(self)@ == old(self)@,
            !has_name(old(self)@, name@) ==> added == Ok::<String, StoreError>(password)
                && final(self)@ == old(self)@.push(
                EntryView { name: name@, password: password@ },
            ),
            names_unique(old(self)@) ==> names_unique(final(self)@),
    {
        proof {
            lemma_position_of(self@, name@);
        }
        if self.position(name.as_str()).is_some() {
            return Err(StoreError::Duplicate);
        }
        let ghost before = self@;
        let ghost entry = EntryView { name: name@, password: password@ };
        self.entries.push(PasswordEntry { name, password: password.clone() });
        proof {
            assert(self@ =~= before.push(entry));
            assert(names_of(self@) =~= names_of(before).push(entry.name));
        }
        Ok(password)
    }

    /// Removes the first entry named `name` and says whether there was one.
    /// Without such an entry the vault stays as it was.
    pub fn delete(&mut self, name: &str) -> (removed: bool)
        ensures
            removed == has_name(old(self)@, name@),
            final(self)@ == without(old(self)@, name@),
            !removed ==> final(self)@ == old(self)@,
            names_unique(old(self)@) ==> names_unique(final(self)@) && !has_name(
                final(self)@,
                name@,
            ),
    {
        proof {
            lemma_position_of(self@, name@);
        }
        match self.position(name) {
            Some(i) => {
                let ghost before = self@;
                self.entries.remove(i);
                proof {
                    assert(self@ =~= before.remove(i as int));
                    lemma_remove_keeps_unique(before, i as int);
                }
                true
            },
            None => false,
        }
    }

    /// The names of the entries, in storage order.
    pub fn list(&self) -> (names: Vec<String>)
        ensures
            names.deep_view() == names_of(self@),
    {
        let mut names: Vec<String> = Vec::new();
        let mut i: usize = 0;
        while i < self.entries.len()
            invariant
                i <= self.entries.len(),
                names.len() == i,
                forall|j: int| 0 <= j < i ==> names[j]@ == self@[j].name,
            decreases self.entries.len() - i,
        {
            names.push(self.entries[i].name.clone());
            i += 1;
        }
        assert(names.deep_view() =~= names_of(self@));
        names
    }
}

/// An entry that was added under a new name is the one found under that name.
pub proof fn lemma_add_then_find(entries: Seq<EntryView>, name: Seq<char>, password: Seq<char>)
    requires
        !has_name(entries, name),
    ensures
        lookup(entries.push(EntryView { name, password }), name) == Some(
            EntryView { name, password },
        ),
{
    let entry = EntryView { name, password };
    lemma_position_of(entries, name);
    lemma_first_match_is_position(entries.push(entry), name, entries.len() as int);
}

/// Adding an entry changes nothing about what is found under any other name.
pub proof fn lemma_add_keeps_others(
    entries: Seq<EntryView>,
    name: Seq<char>,
    password: Seq<char>,
    other: Seq<char>,
)
    requires
        other != name,
    ensures
        lookup(entries.push(EntryView { name, password }), other) == lookup(entries, other),
{
    let grown = entries.push(EntryView { name, password });
    lemma_position_of(entries, other);
    lemma_position_of(grown, other);
    match position_of(entries, other) {
        Some(i) => {
            lemma_first_match_is_position(grown, other, i);
        },
        None => {
            if position_of(grown, other) is Some {
                let i = position_of(grown, other).unwrap();
                assert(grown[i].name == other);
                assert(i < entries.len());
                assert(entries[i].name == other);
            }
        },
    }
}

/// Removing the entry of one name changes nothing about what is found under
/// any other name.
pub proof fn lemma_delete_keeps_others(entries: Seq<EntryView>, name: Seq<char>, other: Seq<char>)
    requires
        other != name,
    ensures
        lookup(without(entries, name), other) == lookup(entries, other),
{
    lemma_position_of(entries, name);
    lemma_position_of(entries, other);
    if let Some(i) = position_of(entries, name) {
        let rest = entries.remove(i);
        lemma_position_of(rest, other);
        match position_of(entries, other) {
            Some(k) => {
                let moved = if k < i {
                    k
                } else {
                    k - 1
                };
                assert(rest[moved] == entries[k]);
                assert forall|j: int| 0 <= j < moved implies rest[j].name != other by {
                    let from = if j < i {
                        j
                    } else {
                        j + 1
                    };
                    assert(rest[j] == entries[from]);
                }
                lemma_first_match_is_position(rest, other, moved);
            },
            None => {
                if let Some(m) = position_of(rest, other) {
                    let from = if m < i {
                        m
                    } else {
                        m + 1
                    };
                    assert(rest[m] == entries[from]);
                }
            },
        }
    }
}

/// Removing an entry from a collection of unique names leaves the names unique,
/// and the name of the removed entry is no longer borne.
pub proof fn lemma_remove_keeps_unique(entries: Seq<EntryView>, i: int)
    requires
        0 <= i < entries.len(),
    ensures
        names_unique(entries) ==> names_unique(entries.remove(i)) && !has_name(
            entries.remove(i),
            entries[i].name,
        ),
{
    if names_unique(entries) {
        let rest = entries.remove(i);
        let names = names_of(entries);
        assert forall|a: int, b: int|
            0 <= a < rest.len() && 0 <= b < rest.len() && a != b implies names_of(rest)[a]
            != names_of(rest)[b] by {
            let a0 = if a < i { a } else { a + 1 };
            let b0 = if b < i { b } else { b + 1 };
            assert(names_of(rest)[a] == names[a0]);
            assert(names_of(rest)[b] == names[b0]);
        }
        assert forall|a: int| 0 <= a < rest.len() implies names_of(rest)[a] != entries[i].name by {
            let a0 = if a < i { a } else { a + 1 };
            assert(names_of(rest)[a] == names[a0]);
            assert(names[i] == entries[i].name);
        }
    }
}

} // verus!
