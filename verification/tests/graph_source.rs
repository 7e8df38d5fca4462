use force_smith::graph_source::{
    up_down_arrow_buttons_usize, DirEntryInfo, GraphFromFile, GraphSourceEvent, GraphSourceRequest,
    GraphSourceSelection, GraphSourceUIContext,
};

fn entry(name: &str, is_file: bool) -> DirEntryInfo {
    let extension = name.rsplit_once('.').map(|(_, e)| e.to_string());
    DirEntryInfo { file_name: Some(name.to_string()), is_file, extension }
}

#[test]
fn up_down_buttons_stay_within_usize() {
    let mut v = 3;
    up_down_arrow_buttons_usize(&mut v, 1, true, false);
    assert_eq!(v, 2);
    up_down_arrow_buttons_usize(&mut v, 1, false, true);
    assert_eq!(v, 3);
    up_down_arrow_buttons_usize(&mut v, 5, true, false);
    assert_eq!(v, 3);
    let mut top = usize::MAX;
    up_down_arrow_buttons_usize(&mut top, 1, false, true);
    assert_eq!(top, usize::MAX);
    up_down_arrow_buttons_usize(&mut top, 1, true, true);
    assert_eq!(top, usize::MAX);
    let mut zero = 0;
    up_down_arrow_buttons_usize(&mut zero, 1, true, true);
    assert_eq!(zero, 1);
}

#[test]
fn file_list_keeps_json_files_in_order() {
    let mut g = GraphFromFile::default();
    assert_eq!(g.source_dir_path, "./graphs");
    g.selected_file = Some("b.json".to_string());
    g.update_file_list(Some(vec![
        entry("a.json", true),
        entry("notes.txt", true),
        entry("dir.json", false),
        entry("b.json", true),
        DirEntryInfo { file_name: None, is_file: true, extension: Some("json".to_string()) },
        entry("noext", true),
    ]));
    assert_eq!(g.files, vec!["a.json".to_string(), "b.json".to_string()]);
    assert_eq!(g.selected_file, Some("b.json".to_string()));
}

#[test]
fn file_list_drops_a_vanished_choice() {
    let mut g = GraphFromFile::default();
    g.selected_file = Some("gone.json".to_string());
    g.update_file_list(Some(vec![entry("a.json", true)]));
    assert_eq!(g.files, vec!["a.json".to_string()]);
    assert_eq!(g.selected_file, None);
}

#[test]
fn unreadable_directory_empties_the_list_and_keeps_the_choice() {
    let mut g = GraphFromFile::default();
    g.files = vec!["a.json".to_string()];
    g.selected_file = Some("a.json".to_string());
    g.update_file_list(None);
    assert!(g.files.is_empty());
    assert_eq!(g.selected_file, Some("a.json".to_string()));
}

#[test]
fn applying_a_chosen_file_asks_to_load_it() {
    let mut ctx = GraphSourceUIContext::default();
    assert!(ctx.selection == GraphSourceSelection::FromFile);
    assert!(ctx.graph_source_ui(GraphSourceEvent::ApplyFile).is_none());
    ctx.graph_from_file.update_file_list(Some(vec![entry("a.json", true), entry("b.json", true)]));
    assert!(ctx.graph_source_ui(GraphSourceEvent::ChooseFile(5)).is_none());
    assert_eq!(ctx.graph_from_file.selected_file, None);
    ctx.graph_source_ui(GraphSourceEvent::ChooseFile(1));
    assert_eq!(ctx.graph_from_file.selected_file, Some("b.json".to_string()));
    match ctx.graph_source_ui(GraphSourceEvent::ApplyFile) {
        Some(GraphSourceRequest::LoadGraphFromFile { path }) => assert_eq!(path, "./graphs/b.json"),
        _ => panic!("expected a load request"),
    }
    ctx.graph_source_ui(GraphSourceEvent::EditSourceDir("/tmp/g".to_string()));
    match ctx.graph_source_ui(GraphSourceEvent::ApplyFile) {
        Some(GraphSourceRequest::LoadGraphFromFile { path }) => assert_eq!(path, "/tmp/g/b.json"),
        _ => panic!("expected a load request"),
    }
    assert!(ctx.graph_source_ui(GraphSourceEvent::ApplyConfig).is_none());
}

#[test]
fn generator_settings_follow_their_controls() {
    let mut ctx = GraphSourceUIContext::default();
    assert_eq!((ctx.graph_from_config.vertices, ctx.graph_from_config.edges), (2, 1));
    assert!(ctx.graph_from_config.connected);
    // hidden controls do nothing
    ctx.graph_source_ui(GraphSourceEvent::VertexButtons { minus: false, plus: true });
    assert_eq!(ctx.graph_from_config.vertices, 2);
    ctx.graph_source_ui(GraphSourceEvent::SelectFromConfig);
    ctx.graph_source_ui(GraphSourceEvent::VertexButtons { minus: false, plus: true });
    ctx.graph_source_ui(GraphSourceEvent::VertexButtons { minus: false, plus: true });
    ctx.graph_source_ui(GraphSourceEvent::EdgeButtons { minus: true, plus: false });
    ctx.graph_source_ui(GraphSourceEvent::EdgeButtons { minus: true, plus: false });
    ctx.graph_source_ui(GraphSourceEvent::SetConnected(false));
    assert!(ctx.graph_source_ui(GraphSourceEvent::ApplyFile).is_none());
    match ctx.graph_source_ui(GraphSourceEvent::ApplyConfig) {
        Some(GraphSourceRequest::GenerateGraph { vertices, edges, connected }) => {
            assert_eq!((vertices, edges, connected), (4, 0, false))
        }
        _ => panic!("expected a generate request"),
    }
    ctx.graph_source_ui(GraphSourceEvent::SelectFromFile);
    assert!(ctx.selection == GraphSourceSelection::FromFile);
}
