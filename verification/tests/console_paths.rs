use pywry::console::ConsolePrinter;
use pywry::get_available_port;
use pywry::handlers::{
    add_handlers, ipc_events, on_download_completed, on_download_started, rewrite_download_path,
};
use pywry::events::UserEvent;
use pywry::utils::decode_path;

#[test]
fn log_lines_round_trip() {
    let c = ConsolePrinter::new(true);
    assert_eq!(c.get_json("hello", "debug"), r#"{"debug":"hello"}"#);
    assert_eq!(c.info("ready"), r#"{"info":"ready"}"#);
    assert_eq!(c.error("boom"), r#"{"error":"boom"}"#);
}

#[test]
fn log_line_degrades_on_unquotable_message() {
    let c = ConsolePrinter::new(true);
    // an embedded quote breaks the candidate line, which degrades to {}
    assert_eq!(c.get_json("a\"b", "info"), "{}");
}

#[test]
fn debug_lines_only_when_active() {
    assert_eq!(
        ConsolePrinter::new(true).debug("x"),
        Some(r#"{"debug":"x"}"#.to_string())
    );
    assert_eq!(ConsolePrinter::new(false).debug("x"), None);
}

#[test]
fn decode_path_plain() {
    assert_eq!(decode_path("/tmp/a.txt").as_deref(), Some("/tmp/a.txt"));
}

#[test]
fn decode_path_keeps_escapes_without_scheme() {
    // a bare path is kept verbatim: a file saved under a literal %20 in
    // its name must be found under that name
    assert_eq!(
        decode_path("/tmp/my%20file.txt").as_deref(),
        Some("/tmp/my%20file.txt")
    );
}

#[test]
fn decode_path_decodes_escapes_under_scheme() {
    assert_eq!(
        decode_path("file:///tmp/my%20file.txt").as_deref(),
        Some("//tmp/my file.txt")
    );
}

#[test]
fn decode_path_file_scheme() {
    assert_eq!(
        decode_path("file:///home/u/f.txt").as_deref(),
        Some("//home/u/f.txt")
    );
}

#[test]
fn decode_path_drive_letter() {
    assert_eq!(
        decode_path("file:///C:/Users/u/f.txt").as_deref(),
        Some("C:/Users/u/f.txt")
    );
}

#[test]
fn decode_path_invalid_utf8() {
    assert!(decode_path("%FF").is_none());
}

#[test]
fn port_scan_takes_first_free() {
    assert_eq!(get_available_port(&vec![]), Some(14733));
    assert_eq!(get_available_port(&vec![14733, 14734]), Some(14735));
    let all: Vec<u16> = (14733..16789).collect();
    assert_eq!(get_available_port(&all), None);
}

#[test]
fn result_closes_plain_interactive_surface() {
    let quiet = ConsolePrinter::new(false);
    let events = ipc_events("#PYWRY_RESULT:x", 2, false, quiet);
    assert_eq!(events.len(), 2);
    assert!(matches!(&events[0], UserEvent::STDout(p) if p == "x"));
    assert!(matches!(events[1], UserEvent::CloseWindow(2)));
    // with a console attached the surface stays open
    let events = ipc_events("#PYWRY_RESULT:x", 2, false, ConsolePrinter::new(true));
    assert_eq!(events.len(), 1);
}

#[test]
fn bridge_strings_map_to_events() {
    let quiet = ConsolePrinter::new(false);
    let events = ipc_events("data:x;base64,QUJD", 2, false, quiet);
    assert!(matches!(&events[0], UserEvent::BlobChunk(Some(s)) if s == "data:x;base64,QUJD"));
    let events = ipc_events("#EOF", 2, false, quiet);
    assert!(matches!(events[0], UserEvent::BlobChunk(None)));
    let events = ipc_events("#OPEN_FILE:/tmp/x", 2, false, quiet);
    assert!(matches!(&events[0], UserEvent::OpenFile(Some(p)) if p == "/tmp/x"));
    let events = ipc_events("#DEVTOOLS", 2, false, quiet);
    assert!(matches!(events[0], UserEvent::DevTools(2)));
    assert!(ipc_events("anything else", 2, false, quiet).is_empty());
}

#[test]
fn blob_uris_are_intercepted() {
    match on_download_started("blob:xyz".to_string(), "/tmp/d.png".to_string(), 3) {
        UserEvent::BlobReceived(u, id) => {
            assert_eq!(u, "blob:xyz");
            assert_eq!(id, 3);
        },
        _ => panic!("expected interception"),
    }
    match on_download_started("https://x/f.png".to_string(), "/tmp/d.png".to_string(), 3) {
        UserEvent::DownloadStarted(u, p) => {
            assert_eq!(u, "https://x/f.png");
            assert_eq!(p, "/tmp/d.png");
        },
        _ => panic!("expected a plain download"),
    }
}

#[test]
fn download_completed_event_defaults_missing_path() {
    match on_download_completed(None, false, "d".to_string(), "e".to_string(), 9) {
        UserEvent::DownloadComplete(fp, success, dp, ei, id) => {
            assert_eq!(fp.as_deref(), Some(""));
            assert!(!success);
            assert_eq!(dp, "d");
            assert_eq!(ei, "e");
            assert_eq!(id, 9);
        },
        _ => panic!("expected a completion event"),
    }
}

#[test]
fn rewrite_prefers_export_then_download() {
    assert_eq!(
        rewrite_download_path("/tmp/sugg.png", "/dl", "/out.png", false, false),
        "/out.png"
    );
    assert_eq!(
        rewrite_download_path("/tmp/sugg.png", "/dl", "/out", true, false),
        "/out/sugg.png"
    );
    assert_eq!(
        rewrite_download_path("/tmp/sugg.png", "/dl", "", false, true),
        "/dl/sugg.png"
    );
    assert_eq!(
        rewrite_download_path("/tmp/sugg.png", "/dl/", "", false, true),
        "/dl/sugg.png"
    );
    assert_eq!(
        rewrite_download_path("/tmp/sugg.png", "", "", false, false),
        "/tmp/sugg.png"
    );
}

#[test]
fn surface_handlers_close_over_their_context() {
    let h = add_handlers(
        7,
        "/dl".to_string(),
        "/out.png".to_string(),
        None,
        ConsolePrinter::new(false),
    );
    assert!(!h.is_headless);
    let events = h.on_ipc("#PYWRY_RESULT:x");
    assert_eq!(events.len(), 2);
    assert!(matches!(events[1], UserEvent::CloseWindow(7)));
    match h.on_start("blob:xyz".to_string(), "/tmp/s.png".to_string()) {
        UserEvent::BlobReceived(_, id) => assert_eq!(id, 7),
        _ => panic!("expected interception"),
    }
    match h.on_complete(Some("/tmp/f.png".to_string()), true) {
        UserEvent::DownloadComplete(fp, success, dp, ei, id) => {
            assert_eq!(fp.as_deref(), Some("/tmp/f.png"));
            assert!(success);
            assert_eq!(dp, "/dl");
            assert_eq!(ei, "/out.png");
            assert_eq!(id, 7);
        },
        _ => panic!("expected a completion event"),
    }
}
