//! The contract's state: its configuration, the last id it issued, the
//! deeplinks by id, the named deeplinks by name, and the ids marked deleted.
use vstd::prelude::*;
use crate::state::{lists_address, Config, DeeplinkState, LinkModel};
use crate::table::Table;

verus! {

/// The texts of a list of strings.
pub open spec fn texts(list: Seq<String>) -> Seq<Seq<char>> {
    list.map_values(|s: String| s@)
}

proof fn lemma_texts_contains(list: Seq<String>, addr: Seq<char>)
    ensures
        texts(list).contains(addr) == lists_address(list, addr),
{
    if lists_address(list, addr) {
        let i = choose|i: int| 0 <= i < list.len() && #[trigger] list[i]@ == addr;
        assert(texts(list)[i] == addr);
    }
    if texts(list).contains(addr) {
        let i = choose|i: int| 0 <= i < texts(list).len() && texts(list)[i] == addr;
        assert(list[i]@ == addr);
    }
}

/// The contract's state, as text.
pub struct StoreModel {
    pub admins: Seq<Seq<char>>,
    pub executors: Seq<Seq<char>>,
    pub last_id: u64,
    pub deeplinks: Map<u64, LinkModel>,
    pub named: Map<Seq<char>, LinkModel>,
    pub deleted: Map<u64, bool>,
}

impl StoreModel {
    pub open spec fn is_admin(self, addr: Seq<char>) -> bool {
        self.admins.contains(addr)
    }

    pub open spec fn is_executor(self, addr: Seq<char>) -> bool {
        self.executors.contains(addr)
    }

    /// No deeplink is stored under an id the contract has not issued yet.
    pub open spec fn ids_issued(self) -> bool {
        forall|id: u64| #[trigger] self.deeplinks.contains_key(id) ==> id <= self.last_id
    }
}

/// The contract's state.
pub struct DeeplinkStore {
    config: Config,
    last_id: u64,
    deeplinks: Table<u64, DeeplinkState>,
    named_deeplinks: Table<String, DeeplinkState>,
    deleted_ids: Table<u64, bool>,
}

impl View for DeeplinkStore {
    type V = StoreModel;

    closed spec fn view(&self) -> StoreModel {
        StoreModel {
            admins: texts(self.config.admins@),
            executors: texts(self.config.executors@),
            last_id: self.last_id,
            deeplinks: self.deeplinks@,
            named: self.named_deeplinks@,
            deleted: self.deleted_ids@,
        }
    }
}

impl DeeplinkStore {
    /// The tables are well formed and every stored deeplink has an issued id.
    pub closed spec fn wf(&self) -> bool {
        &&& self.deeplinks.wf()
        &&& self.named_deeplinks.wf()
        &&& self.deleted_ids.wf()
        &&& self@.ids_issued()
    }

    /// No deeplink of a well-formed state is stored under an id not issued yet.
    pub proof fn lemma_ids_issued(&self)
        requires
            self.wf(),
        ensures
            self@.ids_issued(),
    {
    }

    /// A state with the given configuration, `last_id` as the last id issued, and
    /// no deeplinks.
    pub fn new(config: Config, last_id: u64) -> (s: Self)
        ensures
            s.wf(),
            s@.admins == texts(config.admins@),
            s@.executors == texts(config.executors@),
            s@.last_id == last_id,
            s@.deeplinks == Map::<u64, LinkModel>::empty(),
            s@.named == Map::<Seq<char>, LinkModel>::empty(),
            s@.deleted == Map::<u64, bool>::empty(),
    {
        DeeplinkStore {
            config,
            last_id,
            deeplinks: Table::new(),
            named_deeplinks: Table::new(),
            deleted_ids: Table::new(),
        }
    }

    pub fn config(&self) -> (c: &Config)
        ensures
            texts(c.admins@) == self@.admins,
            texts(c.executors@) == self@.executors,
    {
        &self.config
    }

    pub fn last_id(&self) -> (id: u64)
        ensures
            id == self@.last_id,
    {
        self.last_id
    }

    /// Whether `sender` is an admin.
    pub fn can_modify(&self, sender: &str) -> (allowed: bool)
        ensures
            allowed == self@.is_admin(sender@),
    {
        proof { lemma_texts_contains(self.config.admins@, sender@); }
        self.config.can_modify(sender)
    }

    /// Whether `sender` is an executor.
    pub fn can_execute(&self, sender: &str) -> (allowed: bool)
        ensures
            allowed == self@.is_executor(sender@),
    {
        proof { lemma_texts_contains(self.config.executors@, sender@); }
        self.config.can_execute(sender)
    }

    /// The deeplink stored under `id`.
    pub fn deeplink(&self, id: u64) -> (found: Option<DeeplinkState>)
        requires
            self.wf(),
        ensures
            match found {
                Some(d) => self@.deeplinks.contains_key(id) && self@.deeplinks[id] == d@,
                None => !self@.deeplinks.contains_key(id),
            },
    {
        match self.deeplinks.get(&id) {
            Some(d) => Some(d.clone()),
            None => None,
        }
    }

    /// The named deeplink stored under `name`.
    pub fn named_deeplink(&self, name: &String) -> (found: Option<DeeplinkState>)
        requires
            self.wf(),
        ensures
            match found {
                Some(d) => self@.named.contains_key(name@) && self@.named[name@] == d@,
                None => !self@.named.contains_key(name@),
            },
    {
        match self.named_deeplinks.get(name) {
            Some(d) => Some(d.clone()),
            None => None,
        }
    }

    /// The deletion mark stored under `id`.
    pub fn deleted_flag(&self, id: u64) -> (found: Option<bool>)
        requires
            self.wf(),
        ensures
            match found {
                Some(b) => self@.deleted.contains_key(id) && self@.deleted[id] == b,
                None => !self@.deleted.contains_key(id),
            },
    {
        match self.deleted_ids.get(&id) {
            Some(b) => Some(*b),
            None => None,
        }
    }

    /// Issues the next id.
    pub fn issue_id(&mut self) -> (id: u64)
        requires
            old(self).wf(),
            old(self)@.last_id < u64::MAX,
        ensures
            final(self).wf(),
            id == old(self)@.last_id + 1,
            final(self)@ == (StoreModel { last_id: id, ..old(self)@ }),
    {
        self.last_id = self.last_id + 1;
        self.last_id
    }

    /// Stores `state` under the issued id `id`.
    pub fn save_deeplink(&mut self, id: u64, state: DeeplinkState)
        requires
            old(self).wf(),
            id <= old(self)@.last_id,
        ensures
            final(self).wf(),
            final(self)@ == (StoreModel {
                deeplinks: old(self)@.deeplinks.insert(id, state@),
                ..old(self)@
            }),
    {
        self.deeplinks.save(id, state);
    }

    /// Stores `state` under `name`.
    pub fn save_named_deeplink(&mut self, name: String, state: DeeplinkState)
        requires
            old(self).wf(),
        ensures
            final(self).wf(),
            final(self)@ == (StoreModel {
                named: old(self)@.named.insert(name@, state@),
                ..old(self)@
            }),
    {
        self.named_deeplinks.save(name, state);
        assert(self@.deeplinks == old(self)@.deeplinks);
    }

    /// Stores the deletion mark `flag` under `id`.
    pub fn save_deleted(&mut self, id: u64, flag: bool)
        requires
            old(self).wf(),
        ensures
            final(self).wf(),
            final(self)@ == (StoreModel { deleted: old(self)@.deleted.insert(id, flag), ..old(self)@ }),
    {
        self.deleted_ids.save(id, flag);
        assert(self@.deeplinks == old(self)@.deeplinks);
    }

    /// Replaces the admins.
    pub fn set_admins(&mut self, admins: Vec<String>)
        requires
            old(self).wf(),
        ensures
            final(self).wf(),
            final(self)@ == (StoreModel { admins: texts(admins@), ..old(self)@ }),
    {
        self.config.admins = admins;
    }

    /// Replaces the executors.
    pub fn set_executors(&mut self, executors: Vec<String>)
        requires
            old(self).wf(),
        ensures
            final(self).wf(),
            final(self)@ == (StoreModel { executors: texts(executors@), ..old(self)@ }),
    {
        self.config.executors = executors;
    }

    /// Every stored deeplink with its id, each id once.
    pub fn deeplink_entries(&self) -> (list: &Vec<(u64, DeeplinkState)>)
        requires
            self.wf(),
        ensures
            forall|i: int|
                0 <= i < list@.len() ==> self@.deeplinks.contains_key((#[trigger] list@[i]).0)
                    && self@.deeplinks[list@[i].0] == list@[i].1@,
            forall|i: int, j: int|
                0 <= i < j < list@.len() ==> (#[trigger] list@[i]).0 != (#[trigger] list@[j]).0,
            forall|id: u64|
                #[trigger] self@.deeplinks.contains_key(id) ==> exists|i: int|
                    0 <= i < list@.len() && (#[trigger] list@[i]).0 == id,
    {
        proof { self.deeplinks.lemma_listed(); }
        self.deeplinks.entries()
    }

    /// Every named deeplink with its name, each name once.
    pub fn named_entries(&self) -> (list: &Vec<(String, DeeplinkState)>)
        requires
            self.wf(),
        ensures
            forall|i: int|
                0 <= i < list@.len() ==> self@.named.contains_key((#[trigger] list@[i]).0@)
                    && self@.named[list@[i].0@] == list@[i].1@,
            forall|i: int, j: int|
                0 <= i < j < list@.len() ==> (#[trigger] list@[i]).0@ != (#[trigger] list@[j]).0@,
            forall|name: Seq<char>|
                #[trigger] self@.named.contains_key(name) ==> exists|i: int|
                    0 <= i < list@.len() && (#[trigger] list@[i]).0@ == name,
    {
        proof { self.named_deeplinks.lemma_listed(); }
        self.named_deeplinks.entries()
    }

    /// Every deletion mark with its id, each id once.
    pub fn deleted_entries(&self) -> (list: &Vec<(u64, bool)>)
        requires
            self.wf(),
        ensures
            forall|i: int|
                0 <= i < list@.len() ==> self@.deleted.contains_key((#[trigger] list@[i]).0)
                    && self@.deleted[list@[i].0] == list@[i].1,
            forall|i: int, j: int|
                0 <= i < j < list@.len() ==> (#[trigger] list@[i]).0 != (#[trigger] list@[j]).0,
            forall|id: u64|
                #[trigger] self@.deleted.contains_key(id) ==> exists|i: int|
                    0 <= i < list@.len() && (#[trigger] list@[i]).0 == id,
    {
        proof { self.deleted_ids.lemma_listed(); }
        self.deleted_ids.entries()
    }
}

} // verus!
