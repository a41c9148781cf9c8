use cortx_core::models::{
    CreateProjectInput, CreateScriptInput, CreateServiceInput, Project, Script, Service,
    UpdateProjectInput, UpdateScriptInput, UpdateServiceInput,
};
use cortx_core::updates::{
    apply_project_update, apply_script_update, apply_service_update, assign_places,
    project_from_input, reorder, script_from_input, service_from_input, sort_by_place,
};

fn service(id: &str, order: u32) -> Service {
    let mut s = Service::new(id.to_string(), "dir".into(), "cmd".into());
    s.id = id.to_string();
    s.order = order;
    s
}

#[test]
fn entities_are_created_from_what_was_entered() {
    let project = project_from_input(CreateProjectInput {
        name: "p".into(),
        root_path: "/p".into(),
        description: Some("d".into()),
        image_path: None,
    });
    assert_eq!((project.name.as_str(), project.root_path.as_str()), ("p", "/p"));
    assert_eq!(project.description.as_deref(), Some("d"));
    assert!(project.image_path.is_none() && project.services.is_empty());
    assert_eq!(project.id.len(), 36);

    let service = service_from_input(
        CreateServiceInput {
            name: "api".into(),
            working_dir: "srv".into(),
            command: "run".into(),
            modes: Some(vec![("dev".into(), "run dev".into())]),
            default_mode: Some("dev".into()),
            extra_args: None,
            arg_presets: None,
            default_arg_preset: None,
            color: Some("#fff".into()),
            port: Some(8080),
            env_vars: None,
        },
        3,
    );
    assert_eq!((service.name.as_str(), service.order, service.port), ("api", 3, Some(8080)));
    assert_eq!(service.modes, Some(vec![("dev".to_string(), "run dev".to_string())]));
    assert_eq!(service.default_mode.as_deref(), Some("dev"));

    let script = script_from_input(
        CreateScriptInput {
            name: "s".into(),
            description: None,
            command: "make".into(),
            script_path: Some("Makefile".into()),
            working_dir: ".".into(),
            color: None,
            linked_service_ids: None,
        },
        0,
    );
    assert_eq!((script.order, script.script_path.as_deref()), (0, Some("Makefile")));
    assert!(script.linked_service_ids.is_empty());
    let linked = script_from_input(
        CreateScriptInput {
            name: "s".into(),
            description: None,
            command: "make".into(),
            script_path: None,
            working_dir: ".".into(),
            color: None,
            linked_service_ids: Some(vec!["a".into()]),
        },
        7,
    );
    assert_eq!((linked.order, linked.linked_service_ids), (7, vec!["a".to_string()]));
}

#[test]
fn updates_replace_what_was_entered() {
    let mut project = Project::new("old".into(), "/old".into());
    project.description = Some("keep".into());
    let before = (project.id.clone(), project.created_at);
    apply_project_update(
        &mut project,
        UpdateProjectInput { name: Some("new".into()), root_path: None, description: None, image_path: Some("i.png".into()) },
    );
    assert_eq!((project.name.as_str(), project.root_path.as_str()), ("new", "/old"));
    assert_eq!(project.description.as_deref(), Some("keep"));
    assert_eq!(project.image_path.as_deref(), Some("i.png"));
    assert_eq!((project.id.clone(), project.created_at), before);

    let mut s = service("a", 2);
    s.modes = Some(vec![("dev".into(), "x".into())]);
    s.color = Some("red".into());
    s.port = Some(1);
    apply_service_update(
        &mut s,
        UpdateServiceInput {
            name: None,
            working_dir: Some("w".into()),
            command: None,
            modes: None,
            default_mode: None,
            extra_args: Some("-v".into()),
            arg_presets: None,
            default_arg_preset: None,
            color: None,
            port: Some(2),
            env_vars: None,
        },
    );
    assert_eq!((s.name.as_str(), s.working_dir.as_str(), s.command.as_str()), ("a", "w", "cmd"));
    assert!(s.modes.is_none());
    assert_eq!(s.extra_args.as_deref(), Some("-v"));
    assert_eq!((s.color.as_deref(), s.port, s.order), (Some("red"), Some(2), 2));

    let mut script = Script::new("n".into(), "w".into(), "c".into());
    script.linked_service_ids = vec!["x".into()];
    script.description = Some("d".into());
    apply_script_update(
        &mut script,
        UpdateScriptInput {
            name: Some("m".into()),
            description: None,
            command: Some("c2".into()),
            script_path: Some("p".into()),
            working_dir: None,
            color: None,
            linked_service_ids: Some(vec![]),
        },
    );
    assert_eq!((script.name.as_str(), script.command.as_str(), script.working_dir.as_str()), ("m", "c2", "w"));
    assert_eq!(script.description.as_deref(), Some("d"));
    assert_eq!(script.script_path.as_deref(), Some("p"));
    assert!(script.linked_service_ids.is_empty());
}

#[test]
fn reordering_gives_places_and_sorts() {
    let ids = |list: &[Service]| list.iter().map(|s| (s.id.clone(), s.order)).collect::<Vec<_>>();
    let list = vec![service("a", 0), service("b", 1), service("c", 2), service("d", 3)];
    let order = vec!["c".to_string(), "a".to_string(), "zzz".to_string(), "b".to_string()];
    let sorted = reorder(list, &order);
    assert_eq!(
        ids(&sorted),
        vec![("c".to_string(), 0), ("a".to_string(), 1), ("b".to_string(), 3), ("d".to_string(), 3)]
    );

    let mut list = vec![service("x", 9), service("x", 9), service("y", 9)];
    assign_places(&mut list, &vec!["y".to_string(), "x".to_string(), "x".to_string()]);
    assert_eq!(ids(&list), vec![("x".to_string(), 2), ("x".to_string(), 9), ("y".to_string(), 0)]);

    let sorted = sort_by_place(vec![service("a", 5), service("b", 1), service("c", 5), service("d", 0)]);
    assert_eq!(sorted.iter().map(|s| s.id.as_str()).collect::<Vec<_>>(), vec!["d", "b", "a", "c"]);
    assert!(sort_by_place(Vec::<Script>::new()).is_empty());
}
