//! Lists of stored entities, found and merged by their ids.

use crate::models::{
    ExecutionRecord, GlobalScript, ImportResult, Project, Script, ScriptGroup, Service,
    VirtualFolder,
};
use vstd::prelude::*;

verus! {

/// An entity with an id.
pub trait Identified {
    /// The id of the entity, as text.
    spec fn id_text(&self) -> Seq<char>;

    /// The id of the entity.
    fn id(&self) -> (id: &String)
        ensures
            id@ == self.id_text(),
    ;
}

impl Identified for Project {
    open spec fn id_text(&self) -> Seq<char> {
        self.id@
    }

    fn id(&self) -> (id: &String) {
        &self.id
    }
}

impl Identified for Service {
    open spec fn id_text(&self) -> Seq<char> {
        self.id@
    }

    fn id(&self) -> (id: &String) {
        &self.id
    }
}

impl Identified for Script {
    open spec fn id_text(&self) -> Seq<char> {
        self.id@
    }

    fn id(&self) -> (id: &String) {
        &self.id
    }
}

impl Identified for GlobalScript {
    open spec fn id_text(&self) -> Seq<char> {
        self.id@
    }

    fn id(&self) -> (id: &String) {
        &self.id
    }
}

impl Identified for VirtualFolder {
    open spec fn id_text(&self) -> Seq<char> {
        self.id@
    }

    fn id(&self) -> (id: &String) {
        &self.id
    }
}

impl Identified for ScriptGroup {
    open spec fn id_text(&self) -> Seq<char> {
        self.id@
    }

    fn id(&self) -> (id: &String) {
        &self.id
    }
}

impl Identified for ExecutionRecord {
    open spec fn id_text(&self) -> Seq<char> {
        self.id@
    }

    fn id(&self) -> (id: &String) {
        &self.id
    }
}

/// Whether an entity of `list` has the id `id`.
pub open spec fn has_id<T: Identified>(list: Seq<T>, id: Seq<char>) -> bool {
    exists|i: int| 0 <= i < list.len() && (#[trigger] list[i]).id_text() == id
}

/// The position of the first entity with the id `id`.
pub fn find_by_id<T: Identified>(list: &Vec<T>, id: &str) -> (found: Option<usize>)
    ensures
        match found {
            Some(at) => at < list@.len() && list@[at as int].id_text() == id@ && forall|k: int|
                0 <= k < at ==> (#[trigger] list@[k]).id_text() != id@,
            None => !has_id(list@, id@),
        },
{
    let probe = id.to_owned();
    let mut i: usize = 0;
    while i < list.len()
        invariant
            i <= list@.len(),
            probe@ == id@,
            forall|k: int| 0 <= k < i ==> (#[trigger] list@[k]).id_text() != id@,
        decreases list@.len() - i,
    {
        if *list[i].id() == probe {
            return Some(i);
        }
        i += 1;
    }
    None
}

/// The entities of `list` whose id is not `id`, in order.
pub open spec fn without_id<T: Identified>(list: Seq<T>, id: Seq<char>) -> Seq<T> {
    list.filter(|e: T| e.id_text() != id)
}

/// Removes every entity with the id `id`. Returns whether there was one.
pub fn remove_by_id<T: Identified>(list: &mut Vec<T>, id: &str) -> (removed: bool)
    ensures
        final(list)@ == without_id(old(list)@, id@),
        removed == has_id(old(list)@, id@),
{
    let probe = id.to_owned();
    let ghost keep = |e: T| e.id_text() != id@;
    let mut kept: Vec<T> = Vec::new();
    let mut all: Vec<T> = Vec::new();
    core::mem::swap(list, &mut all);
    let ghost whole = all@;
    let mut removed = false;
    let mut done: Ghost<int> = Ghost(0);
    assert(whole.take(0) =~= Seq::<T>::empty());
    proof {
        reveal(Seq::filter);
    }
    assert(whole.take(0).filter(keep) =~= Seq::<T>::empty());
    while all.len() > 0
        invariant
            0 <= done@ <= whole.len(),
            probe@ == id@,
            keep == (|e: T| e.id_text() != id@),
            all@ == whole.skip(done@),
            kept@ == whole.take(done@).filter(keep),
            removed == has_id(whole.take(done@), id@),
        decreases all@.len(),
    {
        let entity = all.remove(0);
        proof {
            reveal(Seq::filter);
            assert(entity == whole[done@]);
            assert(whole.take(done@ + 1).drop_last() =~= whole.take(done@));
            assert(whole.take(done@ + 1).last() == entity);
            assert(all@ =~= whole.skip(done@ + 1));
            assert(has_id(whole.take(done@ + 1), id@) == (has_id(whole.take(done@), id@)
                || entity.id_text() == id@)) by {
                if has_id(whole.take(done@), id@) {
                    let k = choose|k: int|
                        0 <= k < whole.take(done@).len() && (#[trigger] whole.take(
                            done@,
                        )[k]).id_text() == id@;
                    assert(whole.take(done@ + 1)[k].id_text() == id@);
                }
                if entity.id_text() == id@ {
                    assert(whole.take(done@ + 1)[done@].id_text() == id@);
                }
                if has_id(whole.take(done@ + 1), id@) {
                    let k = choose|k: int|
                        0 <= k < whole.take(done@ + 1).len() && (#[trigger] whole.take(
                            done@ + 1,
                        )[k]).id_text() == id@;
                    if k < done@ {
                        assert(whole.take(done@)[k].id_text() == id@);
                    }
                }
            }
        }
        if *entity.id() == probe {
            removed = true;
        } else {
            kept.push(entity);
        }
        proof {
            done@ = done@ + 1;
        }
    }
    assert(whole.take(done@) =~= whole);
    *list = kept;
    removed
}

/// The entities of the first `upto` of `incoming` that are new to
/// `existing`: those whose id no entity of `existing` has.
pub open spec fn new_among<T: Identified>(existing: Seq<T>, incoming: Seq<T>, upto: int) -> Seq<T>
    decreases upto,
{
    if upto <= 0 {
        seq![]
    } else if has_id(existing, incoming[upto - 1].id_text()) {
        new_among(existing, incoming, upto - 1)
    } else {
        new_among(existing, incoming, upto - 1).push(incoming[upto - 1])
    }
}

/// Adds to `existing` the entities of `incoming` that are new to it, in
/// order, and skips the others. An entity is new when no entity that was in
/// `existing` before has its id. Returns how many were added and how many
/// skipped, each counted up to `u32::MAX`.
pub fn merge_new<T: Identified>(existing: &mut Vec<T>, incoming: Vec<T>) -> (counts: (u32, u32))
    ensures
        final(existing)@ == old(existing)@ + new_among(
            old(existing)@,
            incoming@,
            incoming@.len() as int,
        ),
        counts.0 == clipped(new_among(old(existing)@, incoming@, incoming@.len() as int).len()),
        counts.1 == clipped(
            (incoming@.len() - new_among(
                old(existing)@,
                incoming@,
                incoming@.len() as int,
            ).len()) as nat,
        ),
{
    let ghost before = existing@;
    let ghost whole = incoming@;
    let n = existing.len();
    let mut incoming = incoming;
    let mut added: u32 = 0;
    let mut skipped: u32 = 0;
    let mut done: Ghost<int> = Ghost(0);
    assert(existing@ =~= before + new_among(before, whole, 0));
    while incoming.len() > 0
        invariant
            0 <= done@ <= whole.len(),
            n == before.len(),
            incoming@ == whole.skip(done@),
            existing@ == before + new_among(before, whole, done@),
            new_among(before, whole, done@).len() <= done@,
            added == clipped(new_among(before, whole, done@).len()),
            skipped == clipped((done@ - new_among(before, whole, done@).len()) as nat),
        decreases incoming@.len(),
    {
        let entity = incoming.remove(0);
        assert(entity == whole[done@]);
        assert(incoming@ =~= whole.skip(done@ + 1));
        let known = known_before(existing, n, entity.id().as_str());
        proof {
            assert(existing@.take(n as int) =~= before);
        }
        if known {
            if skipped < u32::MAX {
                skipped += 1;
            }
        } else {
            existing.push(entity);
            if added < u32::MAX {
                added += 1;
            }
            assert(existing@ =~= before + new_among(before, whole, done@ + 1));
        }
        proof {
            done@ = done@ + 1;
        }
    }
    assert(whole.skip(done@).len() == 0);
    (added, skipped)
}

/// A count as it is reported: itself, or `u32::MAX` where it is larger.
pub open spec fn clipped(count: nat) -> u32 {
    if count > u32::MAX {
        u32::MAX
    } else {
        count as u32
    }
}

fn known_before<T: Identified>(list: &Vec<T>, upto: usize, id: &str) -> (known: bool)
    requires
        upto <= list@.len(),
    ensures
        known == has_id(list@.take(upto as int), id@),
{
    let probe = id.to_owned();
    let mut i: usize = 0;
    while i < upto
        invariant
            i <= upto <= list@.len(),
            probe@ == id@,
            forall|k: int| 0 <= k < i ==> (#[trigger] list@[k]).id_text() != id@,
        decreases upto - i,
    {
        if *list[i].id() == probe {
            assert(list@.take(upto as int)[i as int].id_text() == id@);
            return true;
        }
        i += 1;
    }
    proof {
        assert forall|k: int| 0 <= k < list@.take(upto as int).len() implies (
        #[trigger] list@.take(upto as int)[k]).id_text() != id@ by {
            assert(list@.take(upto as int)[k] == list@[k]);
        }
    }
    false
}

/// The sum of two counts, up to `u32::MAX`.
pub open spec fn capped_sum(a: u32, b: u32) -> u32 {
    if a + b > u32::MAX {
        u32::MAX
    } else {
        (a + b) as u32
    }
}

/// Merges an import of folders, scripts and groups into what is stored:
/// the folders first, since scripts refer to them. Entities whose id is
/// stored already are skipped.
pub fn import_scripts_config(
    folders: &mut Vec<VirtualFolder>,
    scripts: &mut Vec<GlobalScript>,
    groups: &mut Vec<ScriptGroup>,
    new_folders: Vec<VirtualFolder>,
    new_scripts: Vec<GlobalScript>,
    new_groups: Vec<ScriptGroup>,
) -> (result: ImportResult)
    ensures
        final(folders)@ == old(folders)@ + new_among(
            old(folders)@,
            new_folders@,
            new_folders@.len() as int,
        ),
        final(scripts)@ == old(scripts)@ + new_among(
            old(scripts)@,
            new_scripts@,
            new_scripts@.len() as int,
        ),
        final(groups)@ == old(groups)@ + new_among(
            old(groups)@,
            new_groups@,
            new_groups@.len() as int,
        ),
        result.folders_added == clipped((final(folders)@.len() - old(folders)@.len()) as nat),
        result.scripts_added == clipped((final(scripts)@.len() - old(scripts)@.len()) as nat),
        result.groups_added == clipped((final(groups)@.len() - old(groups)@.len()) as nat),
        result.skipped == capped_sum(
            capped_sum(
                clipped(
                    (new_folders@.len() - (final(folders)@.len() - old(folders)@.len())) as nat,
                ),
                clipped(
                    (new_scripts@.len() - (final(scripts)@.len() - old(scripts)@.len())) as nat,
                ),
            ),
            clipped((new_groups@.len() - (final(groups)@.len() - old(groups)@.len())) as nat),
        ),
{
    let (folders_added, folders_skipped) = merge_new(folders, new_folders);
    let (scripts_added, scripts_skipped) = merge_new(scripts, new_scripts);
    let (groups_added, groups_skipped) = merge_new(groups, new_groups);
    let skipped = folders_skipped.saturating_add(scripts_skipped).saturating_add(groups_skipped);
    ImportResult { scripts_added, folders_added, groups_added, skipped }
}

} // verus!
