//! The order in which scripts are listed, and what a preset passes to a
//! script that is run from the command line.

use crate::models::{GlobalScript, ParameterPreset, ScriptParameter, VirtualFolder};
use crate::pairs::{position_of, value_of};
use crate::text::{chars_of, lowercase_text, to_lowercase};
use vstd::prelude::*;

verus! {

/// Whether `a` comes before `b` or is the same, character by character.
pub open spec fn text_le(a: Seq<char>, b: Seq<char>) -> bool
    decreases a.len(),
{
    if a.len() == 0 {
        true
    } else if b.len() == 0 {
        false
    } else {
        a[0] < b[0] || (a[0] == b[0] && text_le(a.drop_first(), b.drop_first()))
    }
}

/// By what a script is placed in the list.
pub struct SortKey {
    /// 0 for a script outside every folder, 1 for a script in one.
    pub in_folder: int,
    /// 0 where the folder has a place of its own, 1 where it has none.
    pub unplaced: int,
    /// The place of the folder.
    pub place: int,
    /// The folder's name, in lower case.
    pub folder_name: Seq<char>,
    /// The script's name, in lower case.
    pub name: Seq<char>,
}

/// Whether the key `a` comes before the key `b` or is the same: by the
/// parts of the key in turn.
pub open spec fn key_le(a: SortKey, b: SortKey) -> bool {
    if a.in_folder != b.in_folder {
        a.in_folder < b.in_folder
    } else if a.unplaced != b.unplaced {
        a.unplaced < b.unplaced
    } else if a.place != b.place {
        a.place < b.place
    } else if a.folder_name != b.folder_name {
        text_le(a.folder_name, b.folder_name)
    } else {
        text_le(a.name, b.name)
    }
}

/// The position of the first folder with the id `id`.
pub open spec fn folder_at(folders: Seq<VirtualFolder>, id: Seq<char>) -> Option<int> {
    if exists|i: int| 0 <= i < folders.len() && folders[i].id@ == id {
        Some(
            choose|i: int|
                0 <= i < folders.len() && folders[i].id@ == id && forall|k: int|
                    0 <= k < i ==> folders[k].id@ != id,
        )
    } else {
        None
    }
}

/// The folder that a script lies in, if it names one that exists.
pub open spec fn folder_of(script: GlobalScript, folders: Seq<VirtualFolder>) -> Option<int> {
    match script.folder_id {
        Some(id) => folder_at(folders, id@),
        None => None,
    }
}

/// The key of a script: scripts outside every folder come first; then the
/// folders with a place, by their place; then the folders without; folders
/// of the same place by their name, and scripts of one folder by their own
/// name, both without regard to case.
pub open spec fn sort_key(script: GlobalScript, folders: Seq<VirtualFolder>) -> SortKey {
    match folder_of(script, folders) {
        None => SortKey {
            in_folder: 0,
            unplaced: 0,
            place: 0,
            folder_name: seq![],
            name: lowercase_text(script.name@),
        },
        Some(at) => SortKey {
            in_folder: 1,
            unplaced: if folders[at].order is Some {
                0
            } else {
                1
            },
            place: match folders[at].order {
                Some(place) => place as int,
                None => 0,
            },
            folder_name: lowercase_text(folders[at].name@),
            name: lowercase_text(script.name@),
        },
    }
}

proof fn lemma_text_le_total(a: Seq<char>, b: Seq<char>)
    ensures
        text_le(a, b) || text_le(b, a),
        text_le(a, b) && text_le(b, a) ==> a == b,
    decreases a.len(),
{
    if a.len() > 0 && b.len() > 0 {
        lemma_text_le_total(a.drop_first(), b.drop_first());
        if a[0] == b[0] && text_le(a, b) && text_le(b, a) {
            assert(a =~= seq![a[0]] + a.drop_first());
            assert(b =~= seq![b[0]] + b.drop_first());
        }
    } else if a.len() == 0 && b.len() == 0 {
        assert(a =~= b);
    }
}

proof fn lemma_text_le_transitive(a: Seq<char>, b: Seq<char>, c: Seq<char>)
    requires
        text_le(a, b),
        text_le(b, c),
    ensures
        text_le(a, c),
    decreases a.len(),
{
    if a.len() > 0 && b.len() > 0 && c.len() > 0 {
        if a[0] == b[0] && b[0] == c[0] {
            lemma_text_le_transitive(a.drop_first(), b.drop_first(), c.drop_first());
        }
    }
}

proof fn lemma_key_le_total(a: SortKey, b: SortKey)
    ensures
        key_le(a, b) || key_le(b, a),
{
    lemma_text_le_total(a.folder_name, b.folder_name);
    lemma_text_le_total(a.name, b.name);
}

proof fn lemma_key_le_transitive(a: SortKey, b: SortKey, c: SortKey)
    requires
        key_le(a, b),
        key_le(b, c),
    ensures
        key_le(a, c),
{
    lemma_text_le_total(a.folder_name, b.folder_name);
    lemma_text_le_total(b.folder_name, c.folder_name);
    lemma_text_le_total(a.folder_name, c.folder_name);
    if a.in_folder == b.in_folder && b.in_folder == c.in_folder && a.unplaced == b.unplaced
        && b.unplaced == c.unplaced && a.place == b.place && b.place == c.place {
        if a.folder_name == b.folder_name {
            if b.folder_name == c.folder_name {
                lemma_text_le_transitive(a.name, b.name, c.name);
            }
        } else if b.folder_name == c.folder_name {
        } else {
            lemma_text_le_transitive(a.folder_name, b.folder_name, c.folder_name);
            if a.folder_name == c.folder_name {
                lemma_text_le_total(a.folder_name, b.folder_name);
            }
        }
    }
}

/// The parts of a key as they are held while sorting.
struct HeldKey {
    in_folder: u8,
    unplaced: u8,
    place: u32,
    folder_name: Vec<char>,
    name: Vec<char>,
}

impl View for HeldKey {
    type V = SortKey;

    closed spec fn view(&self) -> SortKey {
        SortKey {
            in_folder: self.in_folder as int,
            unplaced: self.unplaced as int,
            place: self.place as int,
            folder_name: self.folder_name@,
            name: self.name@,
        }
    }
}

/// Whether `a` comes before `b` or is the same, character by character.
pub fn chars_le(a: &Vec<char>, b: &Vec<char>) -> (le: bool)
    ensures
        le == text_le(a@, b@),
{
    let mut i: usize = 0;
    assert(a@.skip(0) =~= a@);
    assert(b@.skip(0) =~= b@);
    loop
        invariant
            i <= a@.len(),
            i <= b@.len(),
            text_le(a@.skip(i as int), b@.skip(i as int)) == text_le(a@, b@),
        decreases a@.len() - i,
    {
        if i >= a.len() {
            return true;
        }
        if i >= b.len() {
            return false;
        }
        let ghost ra = a@.skip(i as int);
        let ghost rb = b@.skip(i as int);
        assert(ra[0] == a@[i as int] && rb[0] == b@[i as int]);
        assert(ra.drop_first() =~= a@.skip(i + 1));
        assert(rb.drop_first() =~= b@.skip(i + 1));
        if a[i] < b[i] {
            return true;
        }
        if a[i] != b[i] {
            return false;
        }
        i += 1;
    }
}

fn same_chars(a: &Vec<char>, b: &Vec<char>) -> (same: bool)
    ensures
        same == (a@ == b@),
{
    if a.len() != b.len() {
        return false;
    }
    let mut i: usize = 0;
    while i < a.len()
        invariant
            i <= a@.len() == b@.len(),
            forall|k: int| 0 <= k < i ==> a@[k] == b@[k],
        decreases a@.len() - i,
    {
        if a[i] != b[i] {
            return false;
        }
        i += 1;
    }
    assert(a@ =~= b@);
    true
}

fn held_le(a: &HeldKey, b: &HeldKey) -> (le: bool)
    ensures
        le == key_le(a@, b@),
{
    if a.in_folder != b.in_folder {
        a.in_folder < b.in_folder
    } else if a.unplaced != b.unplaced {
        a.unplaced < b.unplaced
    } else if a.place != b.place {
        a.place < b.place
    } else if !same_chars(&a.folder_name, &b.folder_name) {
        chars_le(&a.folder_name, &b.folder_name)
    } else {
        chars_le(&a.name, &b.name)
    }
}

fn find_folder(folders: &Vec<VirtualFolder>, id: &str) -> (found: Option<usize>)
    ensures
        match found {
            Some(at) => folder_at(folders@, id@) == Some(at as int) && at < folders@.len(),
            None => folder_at(folders@, id@) is None,
        },
{
    let mut i: usize = 0;
    while i < folders.len()
        invariant
            i <= folders@.len(),
            forall|k: int| 0 <= k < i ==> folders@[k].id@ != id@,
        decreases folders@.len() - i,
    {
        if crate::text::same_text(folders[i].id.as_str(), id) {
            return Some(i);
        }
        i += 1;
    }
    None
}

fn key_of(script: &GlobalScript, folders: &Vec<VirtualFolder>) -> (key: HeldKey)
    ensures
        key@ == sort_key(*script, folders@),
{
    let name = chars_of(to_lowercase(script.name.as_str()).as_str());
    let folder = match &script.folder_id {
        Some(id) => find_folder(folders, id.as_str()),
        None => None,
    };
    match folder {
        None => HeldKey { in_folder: 0, unplaced: 0, place: 0, folder_name: Vec::new(), name },
        Some(at) => {
            let folder_name = chars_of(to_lowercase(folders[at].name.as_str()).as_str());
            match folders[at].order {
                Some(place) => HeldKey { in_folder: 1, unplaced: 0, place, folder_name, name },
                None => HeldKey { in_folder: 1, unplaced: 1, place: 0, folder_name, name },
            }
        },
    }
}

/// Whether `scripts` stand in the order of their keys.
pub open spec fn in_order(scripts: Seq<GlobalScript>, folders: Seq<VirtualFolder>) -> bool {
    forall|i: int, j: int|
        0 <= i <= j < scripts.len() ==> key_le(
            sort_key(#[trigger] scripts[i], folders),
            sort_key(#[trigger] scripts[j], folders),
        )
}

/// Sorts the scripts for the list: those outside every folder first, then
/// folder by folder, and by name within. The same scripts come out, each as
/// often as it went in.
pub fn sort_scripts_by_folder(scripts: Vec<GlobalScript>, folders: &Vec<VirtualFolder>) -> (sorted:
    Vec<GlobalScript>)
    ensures
        in_order(sorted@, folders@),
        sorted@.to_multiset() == scripts@.to_multiset(),
{
    let mut rest = scripts;
    let mut keys: Vec<HeldKey> = Vec::new();
    let mut i: usize = 0;
    while i < rest.len()
        invariant
            i <= rest@.len(),
            rest@ == scripts@,
            keys@.len() == i,
            forall|k: int| 0 <= k < i ==> (#[trigger] keys@[k])@ == sort_key(rest@[k], folders@),
        decreases rest@.len() - i,
    {
        keys.push(key_of(&rest[i], folders));
        i += 1;
    }
    let mut sorted: Vec<GlobalScript> = Vec::new();
    assert(sorted@.to_multiset().add(rest@.to_multiset()) =~= scripts@.to_multiset()) by {
        broadcast use vstd::multiset::group_multiset_axioms;

        sorted@.to_multiset_ensures();
        vstd::multiset::lemma_multiset_empty_len(sorted@.to_multiset());
        assert(sorted@.to_multiset() =~= vstd::multiset::Multiset::empty());
    }
    while rest.len() > 0
        invariant
            keys@.len() == rest@.len(),
            forall|k: int|
                0 <= k < rest@.len() ==> (#[trigger] keys@[k])@ == sort_key(rest@[k], folders@),
            in_order(sorted@, folders@),
            forall|a: int, b: int|
                0 <= a < sorted@.len() && 0 <= b < rest@.len() ==> key_le(
                    sort_key(#[trigger] sorted@[a], folders@),
                    sort_key(#[trigger] rest@[b], folders@),
                ),
            sorted@.to_multiset().add(rest@.to_multiset()) == scripts@.to_multiset(),
        decreases rest@.len(),
    {
        let mut best: usize = 0;
        let mut j: usize = 1;
        proof {
            lemma_key_le_total(keys@[0]@, keys@[0]@);
        }
        while j < rest.len()
            invariant
                1 <= j <= rest@.len(),
                best < j,
                keys@.len() == rest@.len(),
                forall|k: int| 0 <= k < j ==> key_le(keys@[best as int]@, (#[trigger] keys@[k])@),
            decreases rest@.len() - j,
        {
            if !held_le(&keys[best], &keys[j]) {
                proof {
                    lemma_key_le_total(keys@[best as int]@, keys@[j as int]@);
                    assert forall|k: int| 0 <= k < j + 1 implies key_le(
                        keys@[j as int]@,
                        (#[trigger] keys@[k])@,
                    ) by {
                        if k < j {
                            lemma_key_le_transitive(
                                keys@[j as int]@,
                                keys@[best as int]@,
                                keys@[k]@,
                            );
                        } else {
                            lemma_key_le_total(keys@[j as int]@, keys@[j as int]@);
                        }
                    }
                }
                best = j;
            }
            j += 1;
        }
        let ghost before_rest = rest@;
        let ghost before_sorted = sorted@;
        proof {
            assert forall|k: int| 0 <= k < before_rest.len() implies key_le(
                sort_key(before_rest[best as int], folders@),
                sort_key(#[trigger] before_rest[k], folders@),
            ) by {
                assert(key_le(keys@[best as int]@, keys@[k]@));
            }
        }
        keys.remove(best);
        let script = rest.remove(best);
        proof {
            broadcast use vstd::multiset::group_multiset_axioms;

            before_rest.to_multiset_ensures();
            before_sorted.to_multiset_ensures();
            assert(before_rest.to_multiset().count(script) > 0) by {
                assert(before_rest.contains(script));
            }
            assert(before_sorted.push(script).to_multiset().add(rest@.to_multiset())
                =~= before_sorted.to_multiset().add(before_rest.to_multiset()));
        }
        sorted.push(script);
        proof {
            assert forall|a: int, b: int| 0 <= a <= b < sorted@.len() implies key_le(
                sort_key(#[trigger] sorted@[a], folders@),
                sort_key(#[trigger] sorted@[b], folders@),
            ) by {
                if b < before_sorted.len() {
                    assert(sorted@[a] == before_sorted[a] && sorted@[b] == before_sorted[b]);
                } else if a < before_sorted.len() {
                    assert(sorted@[a] == before_sorted[a]);
                    assert(sorted@[b] == before_rest[best as int]);
                } else {
                    lemma_key_le_total(
                        sort_key(sorted@[a], folders@),
                        sort_key(sorted@[a], folders@),
                    );
                }
            }
            assert forall|a: int, b: int|
                0 <= a < sorted@.len() && 0 <= b < rest@.len() implies key_le(
                sort_key(#[trigger] sorted@[a], folders@),
                sort_key(#[trigger] rest@[b], folders@),
            ) by {
                let from = if b < best {
                    b
                } else {
                    b + 1
                };
                assert(rest@[b] == before_rest[from]);
                if a < before_sorted.len() {
                    assert(sorted@[a] == before_sorted[a]);
                } else {
                    assert(sorted@[a] == before_rest[best as int]);
                }
            }
        }
    }
    proof {
        broadcast use vstd::multiset::group_multiset_axioms;

        assert(rest@.to_multiset() =~= vstd::multiset::Multiset::empty()) by {
            rest@.to_multiset_ensures();
            vstd::multiset::lemma_multiset_empty_len(rest@.to_multiset());
        }
        assert(sorted@.to_multiset().add(rest@.to_multiset()) =~= sorted@.to_multiset());
    }
    sorted
}

/// Whether a preset passes a parameter to the script: with flags, the
/// preset's flag for the parameter decides, and a required parameter is
/// passed anyway; without flags, every parameter with a value in the preset
/// is passed.
pub open spec fn preset_passes(preset: ParameterPreset, parameter: ScriptParameter) -> bool {
    if preset.enabled@.len() > 0 {
        parameter.required || value_of(preset.enabled@, parameter.name@) == Some(true)
    } else {
        value_of(preset.values@, parameter.name@) is Some
    }
}

/// The values that a preset passes to the first `upto` parameters, in the
/// order of the parameters.
pub open spec fn passed_values(
    preset: ParameterPreset,
    parameters: Seq<ScriptParameter>,
    upto: int,
) -> Seq<(Seq<char>, Seq<char>)>
    decreases upto,
{
    if upto <= 0 {
        seq![]
    } else {
        let before = passed_values(preset, parameters, upto - 1);
        let p = parameters[upto - 1];
        match value_of(preset.values@, p.name@) {
            Some(value) => if preset_passes(preset, p) {
                before.push((p.name@, value@))
            } else {
                before
            },
            None => before,
        }
    }
}

/// The values that `preset` passes to the parameters of a script.
pub fn preset_param_values(preset: &ParameterPreset, parameters: &Vec<ScriptParameter>) -> (values:
    Vec<(String, String)>)
    ensures
        crate::spawn::pair_texts(values@) == passed_values(
            *preset,
            parameters@,
            parameters@.len() as int,
        ),
{
    let mut values: Vec<(String, String)> = Vec::new();
    let mut i: usize = 0;
    assert(crate::spawn::pair_texts(values@) =~= passed_values(*preset, parameters@, 0));
    while i < parameters.len()
        invariant
            i <= parameters@.len(),
            crate::spawn::pair_texts(values@) == passed_values(*preset, parameters@, i as int),
        decreases parameters@.len() - i,
    {
        let p = &parameters[i];
        let ghost shown = crate::spawn::pair_texts(values@);
        let enabled = if preset.enabled.len() > 0 {
            p.required || match position_of(&preset.enabled, p.name.as_str()) {
                Some(at) => preset.enabled[at].1,
                None => false,
            }
        } else {
            position_of(&preset.values, p.name.as_str()).is_some()
        };
        match position_of(&preset.values, p.name.as_str()) {
            Some(at) => {
                if enabled {
                    values.push((p.name.clone(), preset.values[at].1.clone()));
                    assert(crate::spawn::pair_texts(values@) =~= shown.push(
                        (p.name@, preset.values@[at as int].1@),
                    ));
                }
            },
            None => {},
        }
        i += 1;
    }
    values
}

} // verus!
