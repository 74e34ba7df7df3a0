use enum_editor::{
    resolve_path, route, EditorStorage, EnumEditorPlugin, EnumEditorWrapper, PluginError,
    ENUM_COLOR,
};

type Plugin = EnumEditorPlugin<String, u32>;

fn open_ok(plugin: &mut Plugin, path: &str, is_dir: bool) -> (String, EnumEditorWrapper<u32>) {
    plugin
        .create_editor("enum-editor", path, is_dir, |p: String| Ok((format!("panel:{}", p), 7u32)))
        .expect("opening an enum editor succeeds")
}

#[test]
fn allocated_ids_are_contiguous_from_zero() {
    let mut plugin = Plugin::default();
    let ids: Vec<u64> = (0..100).map(|_| plugin.allocate_id()).collect();
    let expected: Vec<u64> = (0..100).collect();
    assert_eq!(ids, expected);
}

#[test]
fn ids_are_not_reused_after_unload() {
    let mut plugin = Plugin::new();
    assert_eq!(plugin.allocate_id(), 0);
    assert_eq!(plugin.allocate_id(), 1);
    plugin.on_unload();
    assert_eq!(plugin.allocate_id(), 2);
}

#[test]
fn allocation_under_a_lock_from_many_callers_is_distinct() {
    let plugin = std::sync::Mutex::new(Plugin::new());
    let mut seen: Vec<u64> = Vec::new();
    for _caller in 0..4 {
        for _ in 0..25 {
            seen.push(plugin.lock().unwrap().allocate_id());
        }
    }
    seen.sort();
    seen.dedup();
    assert_eq!(seen, (0..100).collect::<Vec<u64>>());
}

#[test]
fn folder_document_resolves_to_marker_file() {
    let mut plugin = Plugin::new();
    let (panel, wrapper) = open_ok(&mut plugin, "Colors.enum", true);
    assert_eq!(wrapper.file_path(), "Colors.enum/enum.json");
    assert_eq!(panel, "panel:Colors.enum/enum.json");
    assert_eq!(*wrapper.entity(), 7);
    assert_eq!(plugin.len(), 1);
    assert!(plugin.contains(0));
}

#[test]
fn single_file_document_keeps_its_path() {
    let mut plugin = Plugin::new();
    let (_, wrapper) = open_ok(&mut plugin, "defs/Colors.json", false);
    assert_eq!(wrapper.file_path(), "defs/Colors.json");
    assert_eq!(plugin.len(), 1);
}

#[test]
fn construction_receives_the_resolved_path() {
    let mut plugin = Plugin::new();
    let mut seen = String::new();
    let r = plugin.create_editor("enum-editor", "a/b.enum/", true, |p: String| {
        seen = p.clone();
        Ok((p, 1u32))
    });
    assert!(r.is_ok());
    assert_eq!(seen, "a/b.enum/enum.json");
}

#[test]
fn unknown_kind_is_a_routing_error() {
    let mut plugin = Plugin::new();
    let r = plugin.create_editor("bogus-editor", "Colors.enum", true, |p: String| Ok((p, 1u32)));
    assert_eq!(
        r.err(),
        Some(PluginError::EditorNotFound { editor_id: "bogus-editor".to_string() })
    );
    assert_eq!(plugin.len(), 0);
}

#[test]
fn unknown_kind_leaves_a_filled_registry_alone() {
    let mut plugin = Plugin::new();
    open_ok(&mut plugin, "A.enum", true);
    open_ok(&mut plugin, "B.enum", true);
    let mut called = false;
    let r = plugin.create_editor("Enum-Editor", "C.enum", true, |p: String| {
        called = true;
        Ok((p, 1u32))
    });
    assert!(matches!(r, Err(PluginError::EditorNotFound { .. })));
    assert!(!called);
    assert_eq!(plugin.len(), 2);
    assert_eq!(plugin.allocate_id(), 2);
}

#[test]
fn construction_failure_registers_nothing() {
    let mut plugin = Plugin::new();
    let r = plugin.create_editor("enum-editor", "Broken.enum", true, |_p: String| {
        Err("malformed enum.json".to_string())
    });
    assert_eq!(
        r.err(),
        Some(PluginError::ConstructionFailed { details: "malformed enum.json".to_string() })
    );
    assert_eq!(plugin.len(), 0);
    assert_eq!(plugin.allocate_id(), 0);
}

#[test]
fn each_open_gets_a_fresh_id() {
    let mut plugin = Plugin::new();
    open_ok(&mut plugin, "A.enum", true);
    open_ok(&mut plugin, "A.enum", true);
    assert_eq!(plugin.len(), 2);
    assert!(plugin.contains(0));
    assert!(plugin.contains(1));
    assert!(!plugin.contains(2));
}

#[test]
fn clear_reports_the_size_before() {
    let mut plugin = Plugin::new();
    for name in ["A.enum", "B.enum", "C.enum"] {
        open_ok(&mut plugin, name, true);
    }
    assert_eq!(plugin.clear(), 3);
    assert_eq!(plugin.len(), 0);
}

#[test]
fn clear_on_empty_registry_reports_zero() {
    let mut plugin = Plugin::new();
    assert_eq!(plugin.clear(), 0);
    assert_eq!(plugin.len(), 0);
}

#[test]
fn unload_twice_reports_count_then_zero() {
    let mut plugin = Plugin::new();
    open_ok(&mut plugin, "A.enum", true);
    open_ok(&mut plugin, "B.enum", false);
    assert_eq!(plugin.on_unload(), 2);
    assert_eq!(plugin.on_unload(), 0);
    assert_eq!(plugin.len(), 0);
}

#[test]
fn register_stores_a_record_under_its_id() {
    let mut plugin = Plugin::new();
    let id = plugin.allocate_id();
    let record = EditorStorage {
        panel: "p".to_string(),
        wrapper: EnumEditorWrapper::new(3u32, "x.json".to_string()),
    };
    plugin.register(id, record);
    assert!(plugin.contains(id));
    assert_eq!(plugin.len(), 1);
}

#[test]
fn id_space_reports_room() {
    let plugin = Plugin::new();
    assert!(plugin.has_free_id());
}

#[test]
fn resolve_path_cases() {
    assert_eq!(resolve_path("Colors.enum", true, "enum.json"), "Colors.enum/enum.json");
    assert_eq!(resolve_path("Colors.enum/", true, "enum.json"), "Colors.enum/enum.json");
    assert_eq!(resolve_path("", true, "enum.json"), "enum.json");
    assert_eq!(resolve_path("Colors.enum", false, "enum.json"), "Colors.enum");
    assert_eq!(resolve_path("/", true, "m"), "/m");
}

#[test]
fn error_messages() {
    let e = PluginError::EditorNotFound { editor_id: "x".to_string() };
    assert_eq!(e.message(), "editor not found: x");
    let e = PluginError::ConstructionFailed { details: "bad".to_string() };
    assert_eq!(e.message(), "could not open editor: bad");
}

#[test]
fn plugin_descriptors() {
    let plugin = Plugin::new();
    let m = plugin.metadata();
    assert_eq!(m.id, "com.pulsar.enum-editor");
    assert_eq!(m.name, "Enum Editor");
    assert_eq!(m.version, "0.1.0");
    assert_eq!(m.author, "Pulsar Team");

    let types = plugin.file_types();
    assert_eq!(types.len(), 1);
    let t = &types[0];
    assert_eq!(t.id, "enum");
    assert_eq!(t.extension, "enum");
    assert_eq!(t.display_name, "Enum Definition");
    assert_eq!(t.color, 0x673AB7);
    assert_eq!(ENUM_COLOR, 0x673AB7);
    assert_eq!(t.marker_file, "enum.json");
    assert_eq!(t.default_name, "NewEnum");
    assert!(t.default_variants.is_empty());
    assert_eq!(t.categories, vec!["Types".to_string()]);

    let editors = plugin.editors();
    assert_eq!(editors.len(), 1);
    assert_eq!(editors[0].id, "enum-editor");
    assert_eq!(editors[0].display_name, "Enum Editor");
    assert_eq!(editors[0].supported_file_types, vec!["enum".to_string()]);
}

#[test]
fn route_accepts_only_the_enum_editor() {
    assert_eq!(route("enum-editor", "Colors.enum", true), Ok("Colors.enum/enum.json".to_string()));
    assert_eq!(route("enum-editor", "Colors.json", false), Ok("Colors.json".to_string()));
    assert_eq!(
        route("bogus-editor", "Colors.enum", true),
        Err(PluginError::EditorNotFound { editor_id: "bogus-editor".to_string() })
    );
    assert!(route("", "Colors.enum", true).is_err());
}

#[test]
fn register_editor_returns_the_handles_and_keeps_a_record() {
    let mut plugin = Plugin::new();
    let (panel, wrapper) = plugin.register_editor("p".to_string(), 9u32, "X.enum/enum.json".to_string());
    assert_eq!(panel, "p");
    assert_eq!(*wrapper.entity(), 9);
    assert_eq!(wrapper.file_path(), "X.enum/enum.json");
    assert!(plugin.contains(0));
    assert_eq!(plugin.len(), 1);
}
