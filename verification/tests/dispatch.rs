use pywry::console::ConsolePrinter;
use pywry::events::{
    handle_events, headless_window_built, send_message, window_built, DispatcherState, Effect,
    LoopEvent, UserEvent,
};
use pywry::handlers::ipc_events;
use pywry::request::{FileProbe, Showable, ShowableHeadless};
use pywry::window::{create_new_window, window_inner_size};

fn interactive_state() -> DispatcherState {
    DispatcherState::new(ConsolePrinter::new(false), false)
}

#[test]
fn ingress_line_is_forwarded_whole() {
    match send_message(r#"{"title":"T"}"#.to_string()) {
        UserEvent::NewMessageReceived(m) => assert_eq!(m, r#"{"title":"T"}"#),
        _ => panic!("expected a message event"),
    }
}

#[test]
fn malformed_ingress_line_becomes_error_descriptor() {
    match send_message("not json".to_string()) {
        UserEvent::NewMessageReceived(m) => assert_eq!(m, r#"{"error":"Invalid JSON"}"#),
        _ => panic!("expected a message event"),
    }
}

#[test]
fn sized_request_creates_one_surface_with_chrome_margin() {
    // Ingress line with an explicit size; the surface is built 80 wider and
    // 80 taller, raised above others, and lowered on the next turn.
    let mut state = interactive_state();
    let line = r#"{"html_str":"<h1>hi</h1>","title":"T","width":300,"height":200}"#.to_string();
    let ev = send_message(line.clone());
    let effects = handle_events(&mut state, LoopEvent::User(ev));
    assert_eq!(effects.len(), 1);
    let msg = match &effects[0] {
        Effect::CreateWindow(m) => m.clone(),
        _ => panic!("expected a create-window effect"),
    };
    let to_show = Showable::new(&msg, &FileProbe::NotFile);
    assert_eq!(to_show.title, "T");
    assert_eq!(window_inner_size(to_show.width, to_show.height), Some((380, 280)));

    let plan = create_new_window(&to_show, ConsolePrinter::new(false), 1920, 1080);
    assert_eq!(plan.title, "T");
    assert_eq!(plan.inner_size, Some((380, 280)));
    assert!(!plan.minimized);
    assert!(plan.announce_created);

    // first dispatch turn: the surface registers, pinned
    assert!(window_built(&mut state, 1, &to_show));
    assert!(state.registry.get(1).unwrap().pinned);
    // second dispatch turn: creation is announced and the pin is cleared
    let effects = handle_events(&mut state, LoopEvent::User(UserEvent::NewWindowCreated(1)));
    assert_eq!(effects.len(), 1);
    assert!(matches!(effects[0], Effect::Unpin(1)));
    assert!(!state.registry.get(1).unwrap().pinned);
}

#[test]
fn headless_render_and_result_keep_surface_open() {
    // The shared hidden surface receives the render call; the result is
    // emitted and the surface is reused, not destroyed.
    let console = ConsolePrinter::new(false);
    let mut state = DispatcherState::new(console, true);
    let boot = ShowableHeadless::new("").unwrap_or_default();
    assert!(headless_window_built(&mut state, 9, &boot));
    assert_eq!(state.primary, Some(9));

    let line =
        r#"{"export_image":"/tmp/out.png","json_data":{"layout":{"width":640,"height":480}}}"#;
    let ev = send_message(line.to_string());
    let effects = handle_events(&mut state, LoopEvent::User(ev));
    assert_eq!(effects.len(), 1);
    let forwarded = match &effects[0] {
        Effect::Forward(UserEvent::NewPlot(m, id)) => {
            assert_eq!(*id, 9);
            UserEvent::NewPlot(m.clone(), *id)
        },
        _ => panic!("expected the render call to be forwarded"),
    };
    let effects = handle_events(&mut state, LoopEvent::User(forwarded));
    assert_eq!(effects.len(), 1);
    match &effects[0] {
        Effect::EvalScript(id, script) => {
            assert_eq!(*id, 9);
            assert_eq!(
                script,
                r#"plotly_render({"figure":{"layout":{"height":480,"width":640}},"format":"png","height":480,"scale":2,"width":640});"#
            );
        },
        _ => panic!("expected a render call"),
    }

    // the bridge reports the result; headless surfaces are not closed
    let events = ipc_events("#PYWRY_RESULT:payload", 9, true, console);
    assert_eq!(events.len(), 1);
    let effects = handle_events(&mut state, LoopEvent::User(events.into_iter().next().unwrap()));
    assert_eq!(effects.len(), 1);
    match &effects[0] {
        Effect::EmitLine(l) => assert_eq!(l, r#"{"result":"payload"}"#),
        _ => panic!("expected an egress line"),
    }
    assert!(state.registry.contains(9));
}

#[test]
fn burst_of_two_requests_loses_neither() {
    // Two ingress lines arrive before either is drained: both surfaces
    // exist afterwards, under distinct ids.
    let mut state = interactive_state();
    let e1 = send_message(r#"{"title":"A"}"#.to_string());
    let e2 = send_message(r#"{"title":"B"}"#.to_string());
    let f1 = handle_events(&mut state, LoopEvent::User(e1));
    let f2 = handle_events(&mut state, LoopEvent::User(e2));
    let m1 = match &f1[0] {
        Effect::CreateWindow(m) => m.clone(),
        _ => panic!("expected a create-window effect"),
    };
    let m2 = match &f2[0] {
        Effect::CreateWindow(m) => m.clone(),
        _ => panic!("expected a create-window effect"),
    };
    let s1 = Showable::new(&m1, &FileProbe::NotFile);
    let s2 = Showable::new(&m2, &FileProbe::NotFile);
    assert!(window_built(&mut state, 1, &s1));
    assert!(window_built(&mut state, 2, &s2));
    assert!(state.registry.contains(1));
    assert!(state.registry.contains(2));
    assert_eq!(state.registry.len(), 2);
    assert_eq!(state.registry.get(1).unwrap().id, 1);
    assert_eq!(state.registry.get(2).unwrap().id, 2);
}

#[test]
fn closed_id_never_returns() {
    let mut state = interactive_state();
    let s = Showable::new(r#"{"title":"A"}"#, &FileProbe::NotFile);
    assert!(window_built(&mut state, 5, &s));
    let effects = handle_events(&mut state, LoopEvent::User(UserEvent::CloseWindow(5)));
    assert_eq!(effects.len(), 1);
    assert!(matches!(effects[0], Effect::DropWindow(5)));
    assert!(!state.registry.contains(5));
    // the id is spent: a new surface under it is refused
    assert!(!window_built(&mut state, 5, &s));
    assert!(!state.registry.contains(5));
}

#[test]
fn native_close_request_drops_surface() {
    let mut state = interactive_state();
    let s = Showable::new(r#"{"title":"A"}"#, &FileProbe::NotFile);
    assert!(window_built(&mut state, 3, &s));
    let effects = handle_events(&mut state, LoopEvent::CloseRequested(3));
    assert_eq!(effects.len(), 1);
    assert!(matches!(effects[0], Effect::DropWindow(3)));
    // closing an unknown surface is a no-op
    let effects = handle_events(&mut state, LoopEvent::CloseRequested(3));
    assert!(effects.is_empty());
}

#[test]
fn export_path_wins_and_closes_surface() {
    // With both destinations set, completion resolves to the export path
    // and asks for the surface to close.
    let mut state = interactive_state();
    let ev = UserEvent::DownloadComplete(
        Some("/tmp/dl/chart.png".to_string()),
        true,
        "/home/u/downloads".to_string(),
        "/home/u/out.png".to_string(),
        4,
    );
    let effects = handle_events(&mut state, LoopEvent::User(ev));
    assert_eq!(effects.len(), 1);
    match &effects[0] {
        Effect::FileCopy(plan) => {
            assert_eq!(plan.from, "/tmp/dl/chart.png");
            assert_eq!(plan.to, "/home/u/out.png");
            assert_eq!(plan.make_dir, "/home/u");
            assert!(plan.remove_original);
            assert_eq!(plan.close_surface, Some(4));
        },
        _ => panic!("expected a file-copy plan"),
    }
}

#[test]
fn download_dir_keeps_file_name_and_removes_original() {
    // With only a download directory set, the file ends up there under its
    // original name and the temporary is removed.
    let mut state = interactive_state();
    let ev = UserEvent::DownloadComplete(
        Some("/tmp/dl/chart.png".to_string()),
        true,
        "/home/u/downloads".to_string(),
        String::new(),
        4,
    );
    let effects = handle_events(&mut state, LoopEvent::User(ev));
    match &effects[0] {
        Effect::FileCopy(plan) => {
            assert_eq!(plan.to, "/home/u/downloads/chart.png");
            assert!(plan.remove_original);
            assert_eq!(plan.close_surface, None);
        },
        _ => panic!("expected a file-copy plan"),
    }
}

#[test]
fn download_without_destination_stays_in_place() {
    let mut state = interactive_state();
    let ev = UserEvent::DownloadComplete(
        Some("/tmp/dl/chart.png".to_string()),
        true,
        String::new(),
        String::new(),
        4,
    );
    let effects = handle_events(&mut state, LoopEvent::User(ev));
    match &effects[0] {
        Effect::FileCopy(plan) => {
            assert_eq!(plan.to, "/tmp/dl/chart.png");
            assert_eq!(plan.close_surface, None);
        },
        _ => panic!("expected a file-copy plan"),
    }
}

#[test]
fn download_complete_without_path_is_ignored() {
    let mut state = interactive_state();
    let ev = UserEvent::DownloadComplete(None, true, String::new(), String::new(), 4);
    let effects = handle_events(&mut state, LoopEvent::User(ev));
    assert!(effects.is_empty());
}

#[test]
fn blob_transfer_through_dispatcher() {
    // A blob uri fixes the destination from the surface's request; the
    // fragments reassemble and decode on the sentinel.
    let mut state = interactive_state();
    let s = Showable::new(
        r#"{"title":"A","export_image":"/tmp/out.bin"}"#,
        &FileProbe::NotFile,
    );
    assert!(window_built(&mut state, 6, &s));
    let effects = handle_events(
        &mut state,
        LoopEvent::User(UserEvent::BlobReceived("blob:abc".to_string(), 6)),
    );
    assert!(effects.is_empty());
    handle_events(
        &mut state,
        LoopEvent::User(UserEvent::BlobChunk(Some(
            "data:application/octet-stream;base64,SGVs".to_string(),
        ))),
    );
    handle_events(
        &mut state,
        LoopEvent::User(UserEvent::BlobChunk(Some("bG8=".to_string()))),
    );
    let effects = handle_events(&mut state, LoopEvent::User(UserEvent::BlobChunk(None)));
    assert_eq!(effects.len(), 1);
    match &effects[0] {
        Effect::WriteBlob(path, bytes) => {
            assert_eq!(path, "/tmp/out.bin");
            assert_eq!(bytes, b"Hello");
        },
        _ => panic!("expected the finished bytes"),
    }
}

#[test]
fn blob_sentinel_first_produces_no_file() {
    let mut state = interactive_state();
    let s = Showable::new(
        r#"{"title":"A","export_image":"/tmp/out.bin"}"#,
        &FileProbe::NotFile,
    );
    assert!(window_built(&mut state, 6, &s));
    handle_events(
        &mut state,
        LoopEvent::User(UserEvent::BlobReceived("blob:abc".to_string(), 6)),
    );
    let effects = handle_events(&mut state, LoopEvent::User(UserEvent::BlobChunk(None)));
    assert!(effects.is_empty());
}

#[test]
fn stdout_event_emits_decoded_result_line() {
    let mut state = interactive_state();
    let effects = handle_events(
        &mut state,
        LoopEvent::User(UserEvent::STDout("hello%20world".to_string())),
    );
    match &effects[0] {
        Effect::EmitLine(l) => assert_eq!(l, r#"{"result":"hello world"}"#),
        _ => panic!("expected an egress line"),
    }
}

#[test]
fn devtools_only_for_live_surfaces() {
    let mut state = interactive_state();
    let effects = handle_events(&mut state, LoopEvent::User(UserEvent::DevTools(1)));
    assert!(effects.is_empty());
    let s = Showable::new(r#"{"title":"A"}"#, &FileProbe::NotFile);
    assert!(window_built(&mut state, 1, &s));
    let effects = handle_events(&mut state, LoopEvent::User(UserEvent::DevTools(1)));
    assert!(matches!(effects[0], Effect::OpenDevTools(1)));
}

#[test]
fn open_file_decodes_path() {
    let mut state = interactive_state();
    let effects = handle_events(
        &mut state,
        LoopEvent::User(UserEvent::OpenFile(Some("/tmp/my%20file.csv".to_string()))),
    );
    match &effects[0] {
        Effect::OpenPath(p) => assert_eq!(p, "/tmp/my file.csv"),
        _ => panic!("expected an open-path effect"),
    }
    let effects = handle_events(&mut state, LoopEvent::User(UserEvent::OpenFile(None)));
    assert!(effects.is_empty());
}

#[test]
fn popup_policy() {
    let mut state = interactive_state();
    let effects = handle_events(
        &mut state,
        LoopEvent::User(UserEvent::NewWindow("https://example.org".to_string())),
    );
    assert!(matches!(&effects[0], Effect::OpenPopup(u) if u == "https://example.org"));
    let effects = handle_events(
        &mut state,
        LoopEvent::User(UserEvent::NewWindow("https://ogs.google.com/x".to_string())),
    );
    assert!(effects.is_empty());
    let effects = handle_events(
        &mut state,
        LoopEvent::User(UserEvent::NewWindow("ftp://example.org".to_string())),
    );
    assert!(effects.is_empty());
}

#[test]
fn native_events_are_ignored() {
    let mut state = interactive_state();
    let effects = handle_events(&mut state, LoopEvent::Native);
    assert!(effects.is_empty());
    let effects = handle_events(
        &mut state,
        LoopEvent::User(UserEvent::DownloadStarted("https://x".to_string(), "/tmp/a".to_string())),
    );
    assert!(effects.is_empty());
}
