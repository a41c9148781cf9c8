//! The category-partitioned registry of live processes.
//!
//! Each category owns one table. A table knows which ids are *reserved* (a
//! launch is in flight and no process exists yet) and which are *running*
//! (a handle is registered). An id is running exactly while a process for it
//! is believed alive; absence is the one source of truth for "not running".

use vstd::prelude::*;

verus! {

/// The namespace an entity id belongs to. Ids of different categories never
/// collide.
#[derive(Clone, Copy, Debug, PartialEq, Eq, Structural)]
pub enum ProcessCategory {
    Service,
    ProjectScript,
    GlobalScript,
}

/// One live process: the owned child handle and its bookkeeping. The handle
/// type `C` is opaque to the registry, which only stores it and hands it back.
#[derive(Debug)]
pub struct ProcessInfo<C> {
    pub child: C,
    pub service_id: String,
    pub pid: u32,
    pub active_mode: Option<String>,
    pub active_arg_preset: Option<String>,
}

/// What a `ProcessInfo` is, with its strings as sequences of characters.
pub struct ProcessInfoView<C> {
    pub child: C,
    pub service_id: Seq<char>,
    pub pid: u32,
    pub active_mode: Option<Seq<char>>,
    pub active_arg_preset: Option<Seq<char>>,
}

/// The characters of an optional string.
pub open spec fn opt_text(s: Option<String>) -> Option<Seq<char>> {
    match s {
        Some(t) => Some(t@),
        None => None,
    }
}

impl<C> View for ProcessInfo<C> {
    type V = ProcessInfoView<C>;

    open spec fn view(&self) -> ProcessInfoView<C> {
        ProcessInfoView {
            child: self.child,
            service_id: self.service_id@,
            pid: self.pid,
            active_mode: opt_text(self.active_mode),
            active_arg_preset: opt_text(self.active_arg_preset),
        }
    }
}

/// The mathematical content of one category's table.
pub struct TableView<C> {
    /// The registered handles, by entity id.
    pub running: Map<Seq<char>, ProcessInfoView<C>>,
    /// The ids for which a launch is in flight.
    pub reserved: Set<Seq<char>>,
}

impl<C> TableView<C> {
    /// The table with nothing running and nothing reserved.
    pub open spec fn empty() -> TableView<C> {
        TableView { running: Map::empty(), reserved: Set::empty() }
    }

    /// What holds of every table: a handle is registered under its own id,
    /// and no id is both running and reserved.
    pub open spec fn consistent(self) -> bool {
        &&& forall|id: Seq<char>| #[trigger]
            self.running.contains_key(id) ==> self.running[id].service_id == id
        &&& forall|id: Seq<char>|
            !(#[trigger] self.running.contains_key(id) && self.reserved.contains(id))
    }

    /// A slot is occupied when its id is running or reserved.
    pub open spec fn occupied(self, id: Seq<char>) -> bool {
        self.running.contains_key(id) || self.reserved.contains(id)
    }
}

/// Whether some entry of `entries` carries the id `id`.
pub open spec fn has_entry<C>(entries: Seq<ProcessInfo<C>>, id: Seq<char>) -> bool {
    exists|i: int| 0 <= i < entries.len() && #[trigger] entries[i].service_id@ == id
}

/// The position of an entry that carries the id `id`.
pub open spec fn slot_of<C>(entries: Seq<ProcessInfo<C>>, id: Seq<char>) -> int {
    choose|i: int| 0 <= i < entries.len() && #[trigger] entries[i].service_id@ == id
}

/// No two entries carry the same id.
pub open spec fn distinct_ids<C>(entries: Seq<ProcessInfo<C>>) -> bool {
    forall|i: int, j: int|
        0 <= i < entries.len() && 0 <= j < entries.len() && i != j
            ==> #[trigger] entries[i].service_id@ != #[trigger] entries[j].service_id@
}

/// The map from id to handle that a duplicate-free list of entries stands for.
pub open spec fn entries_map<C>(entries: Seq<ProcessInfo<C>>) -> Map<
    Seq<char>,
    ProcessInfoView<C>,
> {
    Map::new(
        |id: Seq<char>| has_entry(entries, id),
        |id: Seq<char>| entries[slot_of(entries, id)]@,
    )
}

/// Whether some element of `names` reads `id`.
pub open spec fn has_name(names: Seq<String>, id: Seq<char>) -> bool {
    exists|i: int| 0 <= i < names.len() && #[trigger] names[i]@ == id
}

/// No two elements of `names` read the same.
pub open spec fn distinct_names(names: Seq<String>) -> bool {
    forall|i: int, j: int|
        0 <= i < names.len() && 0 <= j < names.len() && i != j ==> #[trigger] names[i]@
            != #[trigger] names[j]@
}

/// The set of texts that a list of strings holds.
pub open spec fn names_set(names: Seq<String>) -> Set<Seq<char>> {
    Set::new(|id: Seq<char>| has_name(names, id))
}

proof fn lemma_entries_push<C>(entries: Seq<ProcessInfo<C>>, info: ProcessInfo<C>)
    requires
        distinct_ids(entries),
        !has_entry(entries, info.service_id@),
    ensures
        distinct_ids(entries.push(info)),
        entries_map(entries.push(info)) == entries_map(entries).insert(info.service_id@, info@),
        forall|id: Seq<char>| #[trigger]
            has_entry(entries.push(info), id) <==> has_entry(entries, id) || id
                == info.service_id@,
{
    let after = entries.push(info);
    assert forall|i: int, j: int|
        0 <= i < after.len() && 0 <= j < after.len() && i != j implies #[trigger] after[i].service_id@
        != #[trigger] after[j].service_id@ by {
        if i < entries.len() && j < entries.len() {
            assert(after[i] == entries[i] && after[j] == entries[j]);
        } else if i < entries.len() {
            assert(after[i] == entries[i]);
            assert(entries[i].service_id@ != info.service_id@);
        } else {
            assert(after[j] == entries[j]);
            assert(entries[j].service_id@ != info.service_id@);
        }
    }
    let want = entries_map(entries).insert(info.service_id@, info@);
    assert forall|id: Seq<char>| #[trigger]
        entries_map(after).contains_key(id) <==> want.contains_key(id) by {
        if has_entry(after, id) {
            let i = slot_of(after, id);
            if i < entries.len() {
                assert(entries[i].service_id@ == id);
            }
        }
        if has_entry(entries, id) {
            let i = slot_of(entries, id);
            assert(after[i].service_id@ == id);
        }
        if id == info.service_id@ {
            assert(after[entries.len() as int].service_id@ == id);
        }
    }
    assert forall|id: Seq<char>| #[trigger] entries_map(after).contains_key(id) implies entries_map(
        after,
    )[id] == want[id] by {
        let i = slot_of(after, id);
        if id == info.service_id@ {
            if i < entries.len() {
                assert(entries[i].service_id@ == id);
            }
            assert(after[i] == info);
        } else {
            assert(i < entries.len());
            assert(entries[i].service_id@ == id);
            let k = slot_of(entries, id);
            assert(after[k].service_id@ == id);
            assert(k == i);
        }
    }
    assert(entries_map(after) =~= want);
    assert forall|id: Seq<char>| #[trigger]
        has_entry(after, id) <==> has_entry(entries, id) || id == info.service_id@ by {
        assert(entries_map(after).contains_key(id) <==> want.contains_key(id));
    }
}

proof fn lemma_entries_remove<C>(entries: Seq<ProcessInfo<C>>, at: int)
    requires
        distinct_ids(entries),
        0 <= at < entries.len(),
    ensures
        distinct_ids(entries.remove(at)),
        entries_map(entries.remove(at)) == entries_map(entries).remove(entries[at].service_id@),
        entries_map(entries).contains_key(entries[at].service_id@),
        entries_map(entries)[entries[at].service_id@] == entries[at]@,
        forall|id: Seq<char>| #[trigger]
            has_entry(entries.remove(at), id) <==> has_entry(entries, id) && id
                != entries[at].service_id@,
{
    let after = entries.remove(at);
    let gone = entries[at].service_id@;
    assert forall|i: int| 0 <= i < after.len() implies #[trigger] after[i] == entries[if i < at {
        i
    } else {
        i + 1
    }] by {}
    assert forall|i: int, j: int|
        0 <= i < after.len() && 0 <= j < after.len() && i != j implies #[trigger] after[i].service_id@
        != #[trigger] after[j].service_id@ by {
        let a = if i < at { i } else { i + 1 };
        let b = if j < at { j } else { j + 1 };
        assert(after[i] == entries[a] && after[j] == entries[b]);
    }
    let want = entries_map(entries).remove(gone);
    assert forall|id: Seq<char>| #[trigger]
        entries_map(after).contains_key(id) <==> want.contains_key(id) by {
        if has_entry(after, id) {
            let i = slot_of(after, id);
            let a = if i < at { i } else { i + 1 };
            assert(after[i] == entries[a]);
            assert(entries[a].service_id@ == id);
        }
        if has_entry(entries, id) && id != gone {
            let k = slot_of(entries, id);
            let i = if k < at { k } else { k - 1 };
            assert(after[i] == entries[k]);
            assert(after[i].service_id@ == id);
        }
    }
    assert forall|id: Seq<char>| #[trigger] entries_map(after).contains_key(id) implies entries_map(
        after,
    )[id] == want[id] by {
        let i = slot_of(after, id);
        let a = if i < at { i } else { i + 1 };
        assert(after[i] == entries[a]);
        let k = slot_of(entries, id);
        assert(entries[a].service_id@ == id);
        assert(k == a);
    }
    assert(entries_map(after) =~= want);
    assert(has_entry(entries, gone));
    assert(slot_of(entries, gone) == at);
    assert forall|id: Seq<char>| #[trigger]
        has_entry(after, id) <==> has_entry(entries, id) && id != gone by {
        assert(entries_map(after).contains_key(id) <==> want.contains_key(id));
    }
}

proof fn lemma_names_push(names: Seq<String>, name: String)
    requires
        distinct_names(names),
        !has_name(names, name@),
    ensures
        distinct_names(names.push(name)),
        names_set(names.push(name)) == names_set(names).insert(name@),
        forall|id: Seq<char>| #[trigger]
            has_name(names.push(name), id) <==> has_name(names, id) || id == name@,
{
    let after = names.push(name);
    assert forall|i: int, j: int|
        0 <= i < after.len() && 0 <= j < after.len() && i != j implies #[trigger] after[i]@
        != #[trigger] after[j]@ by {
        if i < names.len() && j < names.len() {
            assert(after[i] == names[i] && after[j] == names[j]);
        } else if i < names.len() {
            assert(after[i] == names[i]);
            assert(names[i]@ != name@);
        } else {
            assert(after[j] == names[j]);
            assert(names[j]@ != name@);
        }
    }
    let want = names_set(names).insert(name@);
    assert forall|id: Seq<char>| #[trigger] names_set(after).contains(id) <==> want.contains(id) by {
        if has_name(after, id) {
            let i = choose|i: int| 0 <= i < after.len() && #[trigger] after[i]@ == id;
            if i < names.len() {
                assert(names[i]@ == id);
            }
        }
        if has_name(names, id) {
            let i = choose|i: int| 0 <= i < names.len() && #[trigger] names[i]@ == id;
            assert(after[i]@ == id);
        }
        if id == name@ {
            assert(after[names.len() as int]@ == id);
        }
    }
    assert(names_set(after) =~= want);
    assert forall|id: Seq<char>| #[trigger]
        has_name(after, id) <==> has_name(names, id) || id == name@ by {
        assert(names_set(after).contains(id) <==> want.contains(id));
    }
}

proof fn lemma_names_remove(names: Seq<String>, at: int)
    requires
        distinct_names(names),
        0 <= at < names.len(),
    ensures
        distinct_names(names.remove(at)),
        names_set(names.remove(at)) == names_set(names).remove(names[at]@),
        forall|id: Seq<char>| #[trigger]
            has_name(names.remove(at), id) <==> has_name(names, id) && id != names[at]@,
{
    let after = names.remove(at);
    let gone = names[at]@;
    assert forall|i: int| 0 <= i < after.len() implies #[trigger] after[i] == names[if i < at {
        i
    } else {
        i + 1
    }] by {}
    assert forall|i: int, j: int|
        0 <= i < after.len() && 0 <= j < after.len() && i != j implies #[trigger] after[i]@
        != #[trigger] after[j]@ by {
        let a = if i < at { i } else { i + 1 };
        let b = if j < at { j } else { j + 1 };
        assert(after[i] == names[a] && after[j] == names[b]);
    }
    let want = names_set(names).remove(gone);
    assert forall|id: Seq<char>| #[trigger] names_set(after).contains(id) <==> want.contains(id) by {
        if has_name(after, id) {
            let i = choose|i: int| 0 <= i < after.len() && #[trigger] after[i]@ == id;
            let a = if i < at { i } else { i + 1 };
            assert(after[i] == names[a]);
            assert(names[a]@ == id);
        }
        if has_name(names, id) && id != gone {
            let k = choose|k: int| 0 <= k < names.len() && #[trigger] names[k]@ == id;
            let i = if k < at { k } else { k - 1 };
            assert(after[i] == names[k]);
            assert(after[i]@ == id);
        }
    }
    assert(names_set(after) =~= want);
    assert forall|id: Seq<char>| #[trigger]
        has_name(after, id) <==> has_name(names, id) && id != gone by {
        assert(names_set(after).contains(id) <==> want.contains(id));
    }
}

proof fn lemma_ids_of_entries<C>(entries: Seq<ProcessInfo<C>>, names: Seq<String>)
    requires
        distinct_ids(entries),
        names.len() == entries.len(),
        forall|k: int| 0 <= k < names.len() ==> #[trigger] names[k]@ == entries[k].service_id@,
    ensures
        distinct_names(names),
        names_set(names) == entries_map(entries).dom(),
        entries_map(entries).dom().finite(),
        entries_map(entries).dom().len() == entries.len(),
    decreases entries.len(),
{
    assert forall|i: int, j: int|
        0 <= i < names.len() && 0 <= j < names.len() && i != j implies #[trigger] names[i]@
        != #[trigger] names[j]@ by {
        assert(entries[i].service_id@ != entries[j].service_id@);
    }
    assert forall|id: Seq<char>| #[trigger]
        names_set(names).contains(id) <==> entries_map(entries).dom().contains(id) by {
        if has_name(names, id) {
            let i = choose|i: int| 0 <= i < names.len() && #[trigger] names[i]@ == id;
            assert(entries[i].service_id@ == id);
        }
        if has_entry(entries, id) {
            let i = slot_of(entries, id);
            assert(names[i]@ == id);
        }
    }
    assert(names_set(names) =~= entries_map(entries).dom());
    if entries.len() == 0 {
        assert(entries_map(entries).dom() =~= Set::empty());
    } else {
        let last = entries.len() - 1;
        lemma_entries_remove(entries, last);
        let shorter = entries.remove(last);
        assert(shorter =~= entries.drop_last());
        lemma_ids_of_entries(shorter, names.drop_last());
        assert(entries_map(entries).dom() =~= entries_map(shorter).dom().insert(
            entries[last].service_id@,
        ));
    }
}

/// The table of one category: the handles that are registered and the ids
/// whose launch is in flight. No id occurs twice, in either list or across
/// them.
pub struct ProcessTable<C> {
    running: Vec<ProcessInfo<C>>,
    reserved: Vec<String>,
}

impl<C> View for ProcessTable<C> {
    type V = TableView<C>;

    closed spec fn view(&self) -> TableView<C> {
        TableView { running: entries_map(self.running@), reserved: names_set(self.reserved@) }
    }
}

impl<C> ProcessTable<C> {
    /// The table's invariant: no id occurs twice among the running entries
    /// or among the reservations, and none is both running and reserved.
    pub closed spec fn wf(&self) -> bool {
        &&& distinct_ids(self.running@)
        &&& distinct_names(self.reserved@)
        &&& forall|id: Seq<char>|
            !(has_entry(self.running@, id) && has_name(self.reserved@, id))
    }

    /// A well-formed table stands for a consistent value.
    pub proof fn lemma_consistent(&self)
        requires
            self.wf(),
        ensures
            self@.consistent(),
    {
    }

    /// A table with nothing in it.
    pub fn new() -> (table: Self)
        ensures
            table.wf(),
            table@ == TableView::<C>::empty(),
    {
        let table = ProcessTable { running: Vec::new(), reserved: Vec::new() };
        assert(table@.running =~= Map::empty());
        assert(table@.reserved =~= Set::empty());
        table
    }

    fn find_running(&self, key: &String) -> (found: Option<usize>)
        ensures
            match found {
                Some(i) => i < self.running@.len() && self.running@[i as int].service_id@ == key@,
                None => !has_entry(self.running@, key@),
            },
    {
        let mut i: usize = 0;
        while i < self.running.len()
            invariant
                i <= self.running@.len(),
                forall|k: int| 0 <= k < i ==> self.running@[k].service_id@ != key@,
            decreases self.running@.len() - i,
        {
            if self.running[i].service_id == *key {
                return Some(i);
            }
            i += 1;
        }
        None
    }

    fn find_reserved(&self, key: &String) -> (found: Option<usize>)
        ensures
            match found {
                Some(i) => i < self.reserved@.len() && self.reserved@[i as int]@ == key@,
                None => !has_name(self.reserved@, key@),
            },
    {
        let mut i: usize = 0;
        while i < self.reserved.len()
            invariant
                i <= self.reserved@.len(),
                forall|k: int| 0 <= k < i ==> self.reserved@[k]@ != key@,
            decreases self.reserved@.len() - i,
        {
            if self.reserved[i] == *key {
                return Some(i);
            }
            i += 1;
        }
        None
    }

    /// Whether a handle is registered under `id`.
    pub fn contains(&self, id: &str) -> (present: bool)
        ensures
            present == self@.running.contains_key(id@),
    {
        let key = id.to_owned();
        self.find_running(&key).is_some()
    }

    /// Whether `id` is running or reserved.
    pub fn is_occupied(&self, id: &str) -> (taken: bool)
        ensures
            taken == self@.occupied(id@),
    {
        let key = id.to_owned();
        self.find_running(&key).is_some() || self.find_reserved(&key).is_some()
    }

    /// Reserves the slot `id` unless it is occupied. Returns whether the
    /// reservation was made.
    pub fn reserve(&mut self, id: &str) -> (made: bool)
        requires
            old(self).wf(),
        ensures
            final(self).wf(),
            made == !old(self)@.occupied(id@),
            made ==> final(self)@ == (TableView {
                running: old(self)@.running,
                reserved: old(self)@.reserved.insert(id@),
            }),
            !made ==> final(self)@ == old(self)@,
    {
        let key = id.to_owned();
        if self.find_running(&key).is_some() || self.find_reserved(&key).is_some() {
            return false;
        }
        proof {
            lemma_names_push(self.reserved@, key);
        }
        self.reserved.push(key);
        true
    }

    /// Gives up the reservation of `id`, if there is one. Returns whether
    /// there was one.
    pub fn release(&mut self, id: &str) -> (was_reserved: bool)
        requires
            old(self).wf(),
        ensures
            final(self).wf(),
            was_reserved == old(self)@.reserved.contains(id@),
            final(self)@ == (TableView {
                running: old(self)@.running,
                reserved: old(self)@.reserved.remove(id@),
            }),
    {
        let key = id.to_owned();
        match self.find_reserved(&key) {
            Some(i) => {
                proof {
                    lemma_names_remove(self.reserved@, i as int);
                }
                self.reserved.remove(i);
                true
            },
            None => {
                assert(self@.reserved.remove(id@) =~= self@.reserved);
                false
            },
        }
    }

    /// Registers `info` under its own id. Fails, handing `info` back, when a
    /// handle is already registered under that id; a reservation of the id is
    /// consumed by the registration.
    pub fn register(&mut self, info: ProcessInfo<C>) -> (outcome: Result<(), ProcessInfo<C>>)
        requires
            old(self).wf(),
        ensures
            final(self).wf(),
            outcome is Ok <==> !old(self)@.running.contains_key(info.service_id@),
            outcome is Ok ==> final(self)@ == (TableView {
                running: old(self)@.running.insert(info.service_id@, info@),
                reserved: old(self)@.reserved.remove(info.service_id@),
            }),
            outcome is Err ==> final(self)@ == old(self)@ && outcome->Err_0 == info,
    {
        if self.find_running(&info.service_id).is_some() {
            return Err(info);
        }
        match self.find_reserved(&info.service_id) {
            Some(i) => {
                proof {
                    lemma_names_remove(self.reserved@, i as int);
                }
                self.reserved.remove(i);
            },
            None => {
                assert(self@.reserved.remove(info.service_id@) =~= self@.reserved);
            },
        }
        proof {
            lemma_entries_push(self.running@, info);
        }
        self.running.push(info);
        Ok(())
    }

    /// Removes the handle registered under `id` and returns it, or `None`
    /// when there is none. Reservations are left alone.
    pub fn remove(&mut self, id: &str) -> (handle: Option<ProcessInfo<C>>)
        requires
            old(self).wf(),
        ensures
            final(self).wf(),
            handle is Some <==> old(self)@.running.contains_key(id@),
            handle is Some ==> handle->Some_0@ == old(self)@.running[id@],
            final(self)@ == (TableView {
                running: old(self)@.running.remove(id@),
                reserved: old(self)@.reserved,
            }),
    {
        let key = id.to_owned();
        match self.find_running(&key) {
            Some(i) => {
                proof {
                    lemma_entries_remove(self.running@, i as int);
                }
                let info = self.running.remove(i);
                Some(info)
            },
            None => {
                assert(self@.running.remove(id@) =~= self@.running);
                None
            },
        }
    }

    /// The handle registered under `id`, if any.
    pub fn lookup(&self, id: &str) -> (handle: Option<&ProcessInfo<C>>)
        requires
            self.wf(),
        ensures
            handle is Some <==> self@.running.contains_key(id@),
            handle is Some ==> handle->Some_0@ == self@.running[id@],
    {
        let key = id.to_owned();
        match self.find_running(&key) {
            Some(i) => {
                proof {
                    lemma_entries_remove(self.running@, i as int);
                }
                Some(&self.running[i])
            },
            None => None,
        }
    }

    /// The ids under which a handle is registered, each once.
    pub fn ids(&self) -> (ids: Vec<String>)
        requires
            self.wf(),
        ensures
            distinct_names(ids@),
            names_set(ids@) == self@.running.dom(),
            ids@.len() == self@.running.dom().len(),
    {
        let mut ids: Vec<String> = Vec::new();
        let mut i: usize = 0;
        while i < self.running.len()
            invariant
                i <= self.running@.len(),
                ids@.len() == i,
                forall|k: int| 0 <= k < i ==> #[trigger] ids@[k]@ == self.running@[k].service_id@,
            decreases self.running@.len() - i,
        {
            ids.push(self.running[i].service_id.clone());
            i += 1;
        }
        proof {
            lemma_ids_of_entries(self.running@, ids@);
        }
        ids
    }

    /// The id and the process id of every registered handle, each once.
    pub fn snapshot(&self) -> (targets: Vec<(String, u32)>)
        requires
            self.wf(),
        ensures
            targets@.len() == self@.running.dom().len(),
            forall|i: int|
                0 <= i < targets@.len() ==> self@.running.contains_key(#[trigger] targets@[i].0@)
                    && self@.running[targets@[i].0@].pid == targets@[i].1,
            forall|i: int, j: int|
                0 <= i < targets@.len() && 0 <= j < targets@.len() && i != j
                    ==> #[trigger] targets@[i].0@ != #[trigger] targets@[j].0@,
            forall|id: Seq<char>|
                self@.running.contains_key(id) ==> exists|i: int|
                    0 <= i < targets@.len() && #[trigger] targets@[i].0@ == id,
    {
        let mut targets: Vec<(String, u32)> = Vec::new();
        let mut i: usize = 0;
        while i < self.running.len()
            invariant
                i <= self.running@.len(),
                targets@.len() == i,
                forall|k: int|
                    0 <= k < i ==> #[trigger] targets@[k].0@ == self.running@[k].service_id@
                        && targets@[k].1 == self.running@[k].pid,
            decreases self.running@.len() - i,
        {
            targets.push((self.running[i].service_id.clone(), self.running[i].pid));
            i += 1;
        }
        proof {
            let names = Seq::new(targets@.len(), |k: int| targets@[k].0);
            lemma_ids_of_entries(self.running@, names);
            assert forall|k: int| 0 <= k < targets@.len() implies self@.running.contains_key(
                #[trigger] targets@[k].0@,
            ) && self@.running[targets@[k].0@].pid == targets@[k].1 by {
                lemma_entries_remove(self.running@, k);
            }
            assert forall|id: Seq<char>| self@.running.contains_key(id) implies exists|k: int|
                0 <= k < targets@.len() && #[trigger] targets@[k].0@ == id by {
                let k = slot_of(self.running@, id);
                assert(targets@[k].0@ == id);
            }
            assert forall|a: int, b: int|
                0 <= a < targets@.len() && 0 <= b < targets@.len() && a != b
                    implies #[trigger] targets@[a].0@ != #[trigger] targets@[b].0@ by {
                assert(names[a]@ != names[b]@);
            }
        }
        targets
    }

    /// Takes every registered handle out of the table. Reservations are left
    /// alone.
    pub fn drain(&mut self) -> (handles: Vec<ProcessInfo<C>>)
        requires
            old(self).wf(),
        ensures
            final(self).wf(),
            final(self)@ == (TableView {
                running: Map::<Seq<char>, ProcessInfoView<C>>::empty(),
                reserved: old(self)@.reserved,
            }),
            distinct_ids(handles@),
            entries_map(handles@) == old(self)@.running,
    {
        let mut handles: Vec<ProcessInfo<C>> = Vec::new();
        core::mem::swap(&mut self.running, &mut handles);
        assert(self@.running =~= Map::empty());
        handles
    }

    /// Whether `id` is reserved.
    pub fn is_reserved(&self, id: &str) -> (reserved: bool)
        ensures
            reserved == self@.reserved.contains(id@),
    {
        let key = id.to_owned();
        self.find_reserved(&key).is_some()
    }

    /// Whether no handle is registered.
    pub fn is_empty(&self) -> (none: bool)
        ensures
            none == (self@.running =~= Map::empty()),
    {
        let none = self.running.len() == 0;
        proof {
            if !none {
                assert(has_entry(self.running@, self.running@[0].service_id@));
                assert(self@.running.contains_key(self.running@[0].service_id@));
            }
        }
        none
    }
}

} // verus!
