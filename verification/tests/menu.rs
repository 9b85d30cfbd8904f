use qwen_studio::menu::{
    about_script, create_menu, handle_menu_event, setup_tray, titlebar_about_script,
    titlebar_menu, tray_menu_event, MenuAction, MenuEntry, TitlebarAction, TrayAction,
    TITLEBAR_RELOAD_SCRIPT,
};

#[test]
fn menu_bar_layout() {
    let m = create_menu();
    let ids: Vec<&str> = m.iter().map(|s| s.id).collect();
    assert_eq!(ids, vec!["file", "edit", "view", "window", "help"]);
    let labels: Vec<&str> = m.iter().map(|s| s.label).collect();
    assert_eq!(labels, vec!["File", "Edit", "View", "Window", "Help"]);
    assert_eq!(m[1].entries.len(), 7);
    match &m[0].entries[1] {
        MenuEntry::Item { id, label, accelerator } => {
            assert_eq!((*id, *label, *accelerator), ("maximize", "Maximize", Some("Ctrl+Shift+M")));
        }
        _ => panic!("expected an item"),
    }
}

#[test]
fn every_menu_item_is_handled() {
    for sub in create_menu() {
        for e in sub.entries {
            if let MenuEntry::Item { id, .. } = e {
                assert_ne!(handle_menu_event(id), MenuAction::Ignore, "{}", id);
            }
        }
    }
}

#[test]
fn menu_dispatch() {
    assert_eq!(handle_menu_event("minimize"), MenuAction::MinimizeMain);
    assert_eq!(handle_menu_event("maximize"), MenuAction::ToggleMaximizeMain);
    assert_eq!(handle_menu_event("quit"), MenuAction::Quit);
    assert_eq!(handle_menu_event("toggle_devtools"), MenuAction::ToggleDevtools);
    assert_eq!(handle_menu_event("reload"), MenuAction::ReloadMain);
    assert_eq!(handle_menu_event("toggle_fullscreen"), MenuAction::ToggleFullscreen);
    assert_eq!(handle_menu_event("open_docs"), MenuAction::OpenDocs);
    assert_eq!(handle_menu_event("open_github"), MenuAction::OpenGithub);
    assert_eq!(handle_menu_event("about"), MenuAction::ShowAbout);
    assert_eq!(handle_menu_event("cut"), MenuAction::Ignore);
    assert_eq!(handle_menu_event(""), MenuAction::Ignore);
}

#[test]
fn about_boxes() {
    assert_eq!(
        about_script("2.2.3"),
        "alert(\"Qwen Studio v2.2.3\\n\\nOpen-source Qwen AI desktop client with MCP support.\\nMIT License\");"
    );
    assert_eq!(titlebar_about_script("2.2.3"), "alert(\"Qwen Studio v2.2.3\");");
}

#[test]
fn tray_items_and_dispatch() {
    let items = setup_tray();
    assert_eq!(items, vec![("new_window", "New Window"), ("show", "Show"), ("quit", "Quit")]);
    for (id, _) in items {
        assert_ne!(tray_menu_event(id), TrayAction::Ignore);
    }
    assert_eq!(tray_menu_event("new_window"), TrayAction::OpenNewWindow);
    assert_eq!(tray_menu_event("show"), TrayAction::ShowMain);
    assert_eq!(tray_menu_event("quit"), TrayAction::Quit);
    assert_eq!(tray_menu_event("hide"), TrayAction::Ignore);
}

#[test]
fn titlebar_menu_layout_and_actions() {
    let m = titlebar_menu();
    let titles: Vec<&str> = m.iter().map(|(t, _)| *t).collect();
    assert_eq!(titles, vec!["File", "Edit", "View", "Window", "Help"]);
    assert_eq!(
        m[0].1,
        vec![
            ("Minimize", TitlebarAction::MinimizeMain),
            ("Maximize", TitlebarAction::ToggleMaximizeMain),
            ("Quit", TitlebarAction::Quit)
        ]
    );
    assert_eq!(m[1].1.len(), 6);
    assert!(m[1].1.iter().all(|(_, a)| *a == TitlebarAction::Nothing));
    assert_eq!(m[1].1[5].0, "Select All");
    assert_eq!(
        m[2].1,
        vec![("Toggle DevTools", TitlebarAction::ToggleDevtools), ("Reload", TitlebarAction::ReloadMain)]
    );
    assert_eq!(m[3].1, vec![("Toggle Fullscreen", TitlebarAction::ToggleFullscreen)]);
    assert_eq!(
        m[4].1,
        vec![
            ("Documentation", TitlebarAction::OpenDocs),
            ("GitHub", TitlebarAction::OpenGithub),
            ("Check for Updates", TitlebarAction::CheckForUpdates),
            ("About", TitlebarAction::ShowAbout)
        ]
    );
    assert_eq!(TITLEBAR_RELOAD_SCRIPT, "location.reload();");
}
