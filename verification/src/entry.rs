//! The record that the vault stores.

use vstd::prelude::*;

verus! {

/// What an entry means: its name and its password, as sequences of characters.
pub struct EntryView {
    pub name: Seq<char>,
    pub password: Seq<char>,
}

/// A named secret. The name is the key of the entry; names are compared exactly,
/// case included. The password is kept as plain text.
#[derive(Debug, PartialEq, Eq)]
pub struct PasswordEntry {
    pub name: String,
    pub password: String,
}

impl View for PasswordEntry {
    type V = EntryView;

    open spec fn view(&self) -> EntryView {
        EntryView { name: self.name@, password: self.password@ }
    }
}

impl DeepView for PasswordEntry {
    type V = EntryView;

    open spec fn deep_view(&self) -> EntryView {
        self.view()
    }
}

impl Clone for PasswordEntry {
    fn clone(&self) -> (copy: PasswordEntry)
        ensures
            copy == *self,
    {
        PasswordEntry { name: self.name.clone(), password: self.password.clone() }
    }
}

impl PasswordEntry {
    /// An entry that stores `password` under `name`.
    pub fn new(name: String, password: String) -> (entry: PasswordEntry)
        ensures
            entry.name == name,
            entry.password == password,
    {
        PasswordEntry { name, password }
    }
}

} // verus!
