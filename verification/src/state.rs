//! The contract's configuration and the deeplink records it stores.
use vstd::prelude::*;

verus! {

/// Whether `addr` occurs (by its text) in `list`.
pub open spec fn lists_address(list: Seq<String>, addr: Seq<char>) -> bool {
    exists|i: int| 0 <= i < list.len() && #[trigger] list[i]@ == addr
}

/// Scans `list` for an entry whose text is `addr`.
fn contains_address(list: &Vec<String>, addr: &str) -> (found: bool)
    ensures
        found == lists_address(list@, addr@),
{
    let target = addr.to_owned();
    let mut i: usize = 0;
    while i < list.len()
        invariant
            i <= list.len(),
            target@ == addr@,
            forall|j: int| 0 <= j < i ==> (#[trigger] list@[j])@ != addr@,
        decreases list.len() - i,
    {
        if list[i] == target {
            assert(list@[i as int]@ == addr@);
            return true;
        }
        i += 1;
    }
    false
}

/// Who may administer the contract (`admins`) and who may send cyberlinks
/// through it (`executors`).
#[derive(Debug, PartialEq, Eq)]
pub struct Config {
    pub admins: Vec<String>,
    pub executors: Vec<String>,
}

impl Config {
    pub open spec fn is_admin(&self, addr: Seq<char>) -> bool {
        lists_address(self.admins@, addr)
    }

    pub open spec fn is_executor(&self, addr: Seq<char>) -> bool {
        lists_address(self.executors@, addr)
    }

    /// An address may change the registry or the configuration iff it is an admin.
    pub fn can_modify(&self, addr: &str) -> (allowed: bool)
        ensures
            allowed == self.is_admin(addr@),
    {
        contains_address(&self.admins, addr)
    }

    /// An address may send cyberlinks through the contract iff it is an executor.
    pub fn can_execute(&self, addr: &str) -> (allowed: bool)
        ensures
            allowed == self.is_executor(addr@),
    {
        contains_address(&self.executors, addr)
    }
}

/// What a stored deeplink holds, as text.
pub struct LinkModel {
    pub type_: Seq<char>,
    pub from: Seq<char>,
    pub to: Seq<char>,
}

/// A deeplink as the contract stores it: its type and both endpoints, each the
/// name of a named deeplink (or the marker `Any` on a named deeplink's ends).
#[derive(Debug, PartialEq, Eq)]
pub struct DeeplinkState {
    pub type_: String,
    pub from: String,
    pub to: String,
}

impl View for DeeplinkState {
    type V = LinkModel;

    open spec fn view(&self) -> LinkModel {
        LinkModel { type_: self.type_@, from: self.from@, to: self.to@ }
    }
}

impl Clone for DeeplinkState {
    fn clone(&self) -> (copy: Self)
        ensures
            copy == *self,
    {
        DeeplinkState { type_: self.type_.clone(), from: self.from.clone(), to: self.to.clone() }
    }
}

/// The text of an optional string.
pub open spec fn opt_view(s: Option<String>) -> Option<Seq<char>> {
    match s {
        Some(t) => Some(t@),
        None => None,
    }
}

/// What a deeplink request holds, as text.
pub struct DeeplinkModel {
    pub type_: Seq<char>,
    pub from: Option<Seq<char>>,
    pub to: Option<Seq<char>>,
}

/// A deeplink as a request names it: a type and optional endpoints.
#[derive(Debug, PartialEq, Eq)]
pub struct Deeplink {
    pub type_: String,
    pub from: Option<String>,
    pub to: Option<String>,
}

impl View for Deeplink {
    type V = DeeplinkModel;

    open spec fn view(&self) -> DeeplinkModel {
        DeeplinkModel { type_: self.type_@, from: opt_view(self.from), to: opt_view(self.to) }
    }
}

impl Clone for Deeplink {
    fn clone(&self) -> (copy: Self)
        ensures
            copy == *self,
    {
        Deeplink { type_: self.type_.clone(), from: clone_opt(&self.from), to: clone_opt(&self.to) }
    }
}

/// Copies an optional string.
pub fn clone_opt(s: &Option<String>) -> (copy: Option<String>)
    ensures
        copy == *s,
{
    match s {
        Some(t) => Some(t.clone()),
        None => None,
    }
}

} // verus!
