//! Creating and changing the configured entities from what the user
//! entered.

use crate::catalog::{find_by_id, Identified};
use crate::models::{
    CreateProjectInput, CreateScriptInput, CreateServiceInput, Project, Script, Service,
    UpdateProjectInput, UpdateScriptInput, UpdateServiceInput,
};
use vstd::prelude::*;

verus! {

/// `new` where there is one, else `old`.
pub open spec fn replaced<T>(old: T, new: Option<T>) -> T {
    match new {
        Some(value) => value,
        None => old,
    }
}

/// `new` where it holds something, else `old`.
pub open spec fn kept_or<T>(old: Option<T>, new: Option<T>) -> Option<T> {
    if new is Some {
        new
    } else {
        old
    }
}

/// A place in a list as it is recorded: the index, wrapping around where
/// it does not fit.
pub open spec fn place_of(index: int) -> u32 {
    (index % 0x1_0000_0000) as u32
}

fn place(index: usize) -> (order: u32)
    ensures
        order == place_of(index as int),
{
    ((index as u64) % 0x1_0000_0000) as u32
}

/// A new project from what the user entered.
pub fn project_from_input(input: CreateProjectInput) -> (project: Project)
    ensures
        project.id@.len() == 36,
        project.name == input.name,
        project.root_path == input.root_path,
        project.description == input.description,
        project.image_path == input.image_path,
        project.created_at == project.updated_at,
        project.last_opened_at is None,
        project.services@.len() == 0,
        project.scripts@.len() == 0,
        project.env_files@.len() == 0,
        !project.env_files_discovered,
        project.folder_id is None,
{
    let mut project = Project::new(input.name, input.root_path);
    project.description = input.description;
    project.image_path = input.image_path;
    project
}

/// Changes a project: every field that the user entered replaces the old
/// one.
pub fn apply_project_update(project: &mut Project, input: UpdateProjectInput)
    ensures
        *final(project) == (Project {
            name: replaced(old(project).name, input.name),
            root_path: replaced(old(project).root_path, input.root_path),
            description: kept_or(old(project).description, input.description),
            image_path: kept_or(old(project).image_path, input.image_path),
            ..*old(project)
        }),
{
    match input.name {
        Some(name) => {
            project.name = name;
        },
        None => {},
    }
    match input.root_path {
        Some(root_path) => {
            project.root_path = root_path;
        },
        None => {},
    }
    if input.description.is_some() {
        project.description = input.description;
    }
    if input.image_path.is_some() {
        project.image_path = input.image_path;
    }
}

/// A new service from what the user entered, to stand at `position` among
/// the services of its project.
pub fn service_from_input(input: CreateServiceInput, position: usize) -> (service: Service)
    ensures
        service.id@.len() == 36,
        service.name == input.name,
        service.working_dir == input.working_dir,
        service.command == input.command,
        service.modes == input.modes,
        service.default_mode == input.default_mode,
        service.extra_args == input.extra_args,
        service.arg_presets == input.arg_presets,
        service.default_arg_preset == input.default_arg_preset,
        service.color == input.color,
        service.port == input.port,
        service.env_vars == input.env_vars,
        service.order == place_of(position as int),
{
    let mut service = Service::new(input.name, input.working_dir, input.command);
    service.modes = input.modes;
    service.default_mode = input.default_mode;
    service.extra_args = input.extra_args;
    service.arg_presets = input.arg_presets;
    service.default_arg_preset = input.default_arg_preset;
    service.color = input.color;
    service.port = input.port;
    service.env_vars = input.env_vars;
    service.order = place(position);
    service
}

/// Changes a service. The name, the directory and the command are replaced
/// where the user entered one. The modes, the default mode, the extra
/// arguments, the presets and the default preset are always taken as
/// entered, so that they can be cleared. The colour, the port and the
/// environment are replaced where the user entered one.
pub fn apply_service_update(service: &mut Service, input: UpdateServiceInput)
    ensures
        *final(service) == (Service {
            name: replaced(old(service).name, input.name),
            working_dir: replaced(old(service).working_dir, input.working_dir),
            command: replaced(old(service).command, input.command),
            modes: input.modes,
            default_mode: input.default_mode,
            extra_args: input.extra_args,
            arg_presets: input.arg_presets,
            default_arg_preset: input.default_arg_preset,
            color: kept_or(old(service).color, input.color),
            port: kept_or(old(service).port, input.port),
            env_vars: kept_or(old(service).env_vars, input.env_vars),
            ..*old(service)
        }),
{
    match input.name {
        Some(name) => {
            service.name = name;
        },
        None => {},
    }
    match input.working_dir {
        Some(working_dir) => {
            service.working_dir = working_dir;
        },
        None => {},
    }
    match input.command {
        Some(command) => {
            service.command = command;
        },
        None => {},
    }
    service.modes = input.modes;
    service.default_mode = input.default_mode;
    service.extra_args = input.extra_args;
    service.arg_presets = input.arg_presets;
    service.default_arg_preset = input.default_arg_preset;
    if input.color.is_some() {
        service.color = input.color;
    }
    if input.port.is_some() {
        service.port = input.port;
    }
    if input.env_vars.is_some() {
        service.env_vars = input.env_vars;
    }
}

/// A new script from what the user entered, to stand at `position` among
/// the scripts of its project.
pub fn script_from_input(input: CreateScriptInput, position: usize) -> (script: Script)
    ensures
        script.id@.len() == 36,
        script.name == input.name,
        script.working_dir == input.working_dir,
        script.command == input.command,
        script.description == input.description,
        script.script_path == input.script_path,
        script.color == input.color,
        match input.linked_service_ids {
            Some(ids) => script.linked_service_ids == ids,
            None => script.linked_service_ids@.len() == 0,
        },
        script.order == place_of(position as int),
{
    let mut script = Script::new(input.name, input.working_dir, input.command);
    script.description = input.description;
    script.script_path = input.script_path;
    script.color = input.color;
    match input.linked_service_ids {
        Some(ids) => {
            script.linked_service_ids = ids;
        },
        None => {},
    }
    script.order = place(position);
    script
}

/// Changes a script: every field that the user entered replaces the old
/// one.
pub fn apply_script_update(script: &mut Script, input: UpdateScriptInput)
    ensures
        *final(script) == (Script {
            name: replaced(old(script).name, input.name),
            description: kept_or(old(script).description, input.description),
            command: replaced(old(script).command, input.command),
            script_path: kept_or(old(script).script_path, input.script_path),
            working_dir: replaced(old(script).working_dir, input.working_dir),
            color: kept_or(old(script).color, input.color),
            linked_service_ids: replaced(old(script).linked_service_ids, input.linked_service_ids),
            ..*old(script)
        }),
{
    match input.name {
        Some(name) => {
            script.name = name;
        },
        None => {},
    }
    if input.description.is_some() {
        script.description = input.description;
    }
    match input.command {
        Some(command) => {
            script.command = command;
        },
        None => {},
    }
    if input.script_path.is_some() {
        script.script_path = input.script_path;
    }
    match input.working_dir {
        Some(working_dir) => {
            script.working_dir = working_dir;
        },
        None => {},
    }
    if input.color.is_some() {
        script.color = input.color;
    }
    match input.linked_service_ids {
        Some(ids) => {
            script.linked_service_ids = ids;
        },
        None => {},
    }
}

/// An entity with a place in the list of its project.
pub trait Placed: Identified + Sized {
    /// The place of the entity.
    spec fn place(&self) -> u32;

    /// This entity at the place `order`.
    spec fn placed_at(self, order: u32) -> Self;

    /// The place of the entity.
    fn order(&self) -> (order: u32)
        ensures
            order == self.place(),
    ;

    /// Moves the entity to the place `order`.
    fn set_order(&mut self, order: u32)
        ensures
            *final(self) == old(self).placed_at(order),
            final(self).place() == order,
            final(self).id_text() == old(self).id_text(),
    ;
}

impl Placed for Service {
    open spec fn place(&self) -> u32 {
        self.order
    }

    open spec fn placed_at(self, order: u32) -> Self {
        Service { order, ..self }
    }

    fn order(&self) -> (order: u32) {
        self.order
    }

    fn set_order(&mut self, order: u32) {
        self.order = order;
    }
}

impl Placed for Script {
    open spec fn place(&self) -> u32 {
        self.order
    }

    open spec fn placed_at(self, order: u32) -> Self {
        Script { order, ..self }
    }

    fn order(&self) -> (order: u32) {
        self.order
    }

    fn set_order(&mut self, order: u32) {
        self.order = order;
    }
}

/// The position of the first entity of `list` with the id `id`.
pub open spec fn first_with_id<T: Identified>(list: Seq<T>, id: Seq<char>) -> Option<int> {
    if exists|i: int| 0 <= i < list.len() && (#[trigger] list[i]).id_text() == id {
        Some(
            choose|i: int|
                0 <= i < list.len() && (#[trigger] list[i]).id_text() == id && forall|k: int|
                    0 <= k < i ==> (#[trigger] list[k]).id_text() != id,
        )
    } else {
        None
    }
}

/// `list` after the first `upto` of `ids` have given their position to the
/// entity they name: for each id in turn, the first entity with that id
/// moves to the place of the id in `ids`.
pub open spec fn with_places<T: Placed>(list: Seq<T>, ids: Seq<String>, upto: int) -> Seq<T>
    decreases upto,
{
    if upto <= 0 {
        list
    } else {
        let before = with_places(list, ids, upto - 1);
        match first_with_id(before, ids[upto - 1]@) {
            Some(at) => before.update(at, before[at].placed_at(place_of(upto - 1))),
            None => before,
        }
    }
}

/// Gives each entity that `ids` names the place of its id in `ids`.
pub fn assign_places<T: Placed>(list: &mut Vec<T>, ids: &Vec<String>)
    ensures
        final(list)@ == with_places(old(list)@, ids@, ids@.len() as int),
{
    let mut i: usize = 0;
    while i < ids.len()
        invariant
            i <= ids@.len(),
            list@ == with_places(old(list)@, ids@, i as int),
        decreases ids@.len() - i,
    {
        match find_by_id(list, ids[i].as_str()) {
            Some(at) => {
                let ghost before = list@;
                let mut entity = list.remove(at);
                entity.set_order(place(i));
                list.insert(at, entity);
                assert(list@ =~= before.update(at as int, before[at as int].placed_at(place_of(i as int))));
            },
            None => {},
        }
        i += 1;
    }
}

/// Whether `list` stands in the order of its places.
pub open spec fn by_place<T: Placed>(list: Seq<T>) -> bool {
    forall|i: int, j: int|
        0 <= i <= j < list.len() ==> (#[trigger] list[i]).place() <= (#[trigger] list[j]).place()
}

/// Sorts the entities by their places. The same entities come out, each as
/// often as it went in.
pub fn sort_by_place<T: Placed>(list: Vec<T>) -> (sorted: Vec<T>)
    ensures
        by_place(sorted@),
        sorted@.to_multiset() == list@.to_multiset(),
{
    let mut rest = list;
    let mut sorted: Vec<T> = Vec::new();
    proof {
        broadcast use vstd::multiset::group_multiset_axioms;

        sorted@.to_multiset_ensures();
        vstd::multiset::lemma_multiset_empty_len(sorted@.to_multiset());
        assert(sorted@.to_multiset().add(rest@.to_multiset()) =~= list@.to_multiset());
    }
    while rest.len() > 0
        invariant
            by_place(sorted@),
            forall|a: int, b: int|
                0 <= a < sorted@.len() && 0 <= b < rest@.len() ==> (#[trigger] sorted@[a]).place()
                    <= (#[trigger] rest@[b]).place(),
            sorted@.to_multiset().add(rest@.to_multiset()) == list@.to_multiset(),
        decreases rest@.len(),
    {
        let mut best: usize = 0;
        let mut j: usize = 1;
        while j < rest.len()
            invariant
                1 <= j <= rest@.len(),
                best < j,
                forall|k: int| 0 <= k < j ==> rest@[best as int].place() <= (#[trigger] rest@[k]).place(),
            decreases rest@.len() - j,
        {
            if rest[j].order() < rest[best].order() {
                best = j;
            }
            j += 1;
        }
        let ghost before_rest = rest@;
        let ghost before_sorted = sorted@;
        let entity = rest.remove(best);
        proof {
            broadcast use vstd::multiset::group_multiset_axioms;

            before_rest.to_multiset_ensures();
            before_sorted.to_multiset_ensures();
            assert(before_rest.to_multiset().count(entity) > 0) by {
                assert(before_rest.contains(entity));
            }
            assert(before_sorted.push(entity).to_multiset().add(rest@.to_multiset())
                =~= before_sorted.to_multiset().add(before_rest.to_multiset()));
        }
        sorted.push(entity);
        proof {
            assert forall|a: int, b: int| 0 <= a <= b < sorted@.len() implies (
            #[trigger] sorted@[a]).place() <= (#[trigger] sorted@[b]).place() by {
                if b < before_sorted.len() {
                    assert(sorted@[a] == before_sorted[a] && sorted@[b] == before_sorted[b]);
                } else if a < before_sorted.len() {
                    assert(sorted@[a] == before_sorted[a]);
                    assert(sorted@[b] == before_rest[best as int]);
                }
            }
            assert forall|a: int, b: int|
                0 <= a < sorted@.len() && 0 <= b < rest@.len() implies (
            #[trigger] sorted@[a]).place() <= (#[trigger] rest@[b]).place() by {
                let from = if b < best {
                    b
                } else {
                    b + 1
                };
                assert(rest@[b] == before_rest[from]);
                if a < before_sorted.len() {
                    assert(sorted@[a] == before_sorted[a]);
                } else {
                    assert(sorted@[a] == before_rest[best as int]);
                }
            }
        }
    }
    proof {
        broadcast use vstd::multiset::group_multiset_axioms;

        rest@.to_multiset_ensures();
        vstd::multiset::lemma_multiset_empty_len(rest@.to_multiset());
        assert(sorted@.to_multiset().add(rest@.to_multiset()) =~= sorted@.to_multiset());
    }
    sorted
}

/// Puts the entities into the order that `ids` gives: each named entity
/// takes the place of its id, then all are sorted by their places.
pub fn reorder<T: Placed>(list: Vec<T>, ids: &Vec<String>) -> (sorted: Vec<T>)
    ensures
        by_place(sorted@),
        sorted@.to_multiset() == with_places(list@, ids@, ids@.len() as int).to_multiset(),
{
    let mut list = list;
    assign_places(&mut list, ids);
    sort_by_place(list)
}

} // verus!
