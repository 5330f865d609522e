use pywry::request::{FileProbe, PlotData, Showable, ShowableHeadless, Theme, WebViewOptions};

#[test]
fn malformed_line_yields_placeholder() {
    let s = Showable::new("this is not json", &FileProbe::NotFile);
    assert_eq!(s.title, "Error Creating Showable Object");
    assert!(s.content.contains("No html content to show"));
    assert_eq!(s.width, None);
    assert_eq!(s.height, None);
    assert!(s.data.is_none());
    assert_eq!(s.export_image, "");
    assert_eq!(s.download_path, "");
    assert_eq!(s.theme, Theme::Light);
}

#[test]
fn empty_line_yields_placeholder() {
    let s = Showable::new("", &FileProbe::NotFile);
    assert_eq!(s.title, "Error Creating Showable Object");
}

#[test]
fn from_json_rejects_malformed() {
    assert!(Showable::from_json("{not json", &FileProbe::NotFile).is_none());
}

#[test]
fn from_json_rejects_unreadable_file() {
    let line = r#"{"html":"/some/file.html","title":"T"}"#;
    assert!(Showable::from_json(line, &FileProbe::Unreadable).is_none());
    // and new() falls back to the placeholder
    let s = Showable::new(line, &FileProbe::Unreadable);
    assert_eq!(s.title, "Error Creating Showable Object");
}

#[test]
fn inline_html_and_dimensions() {
    let line = r#"{"html":"<h1>hi</h1>","title":"T","width":300,"height":200}"#;
    let s = Showable::from_json(line, &FileProbe::NotFile).unwrap();
    assert_eq!(s.content, "<h1>hi</h1>");
    assert_eq!(s.title, "T");
    assert_eq!(s.width, Some(300));
    assert_eq!(s.height, Some(200));
    assert_eq!(s.theme, Theme::Light);
    assert_eq!(s.options.url, "wry://localhost");
    assert!(s.options.init_script.is_none());
}

#[test]
fn file_contents_win_over_inline() {
    let line = r#"{"html":"/tmp/page.html"}"#;
    let s = Showable::from_json(line, &FileProbe::Contents("<p>file</p>".to_string())).unwrap();
    assert_eq!(s.content, "<p>file</p>");
}

#[test]
fn content_query_reports_html_field() {
    assert_eq!(
        Showable::content_query(r#"{"html":"/tmp/a.html"}"#),
        Some("/tmp/a.html".to_string())
    );
    assert_eq!(Showable::content_query(r#"{"title":"T"}"#), Some(String::new()));
    assert_eq!(Showable::content_query("nope"), None);
}

#[test]
fn layout_overrides_dimensions() {
    let line = r#"{"width":100,"height":100,"json_data":{"layout":{"width":640,"height":480}}}"#;
    let s = Showable::from_json(line, &FileProbe::NotFile).unwrap();
    assert_eq!(s.width, Some(640));
    assert_eq!(s.height, Some(480));
}

#[test]
fn layout_defaults_when_members_missing() {
    let line = r#"{"json_data":{"layout":{}}}"#;
    let s = Showable::from_json(line, &FileProbe::NotFile).unwrap();
    assert_eq!(s.width, Some(800));
    assert_eq!(s.height, Some(600));
}

#[test]
fn dark_theme_from_payload() {
    let line = r#"{"json_data":{"theme":"dark"}}"#;
    let s = Showable::from_json(line, &FileProbe::NotFile).unwrap();
    assert_eq!(s.theme, Theme::Dark);
    let line2 = r#"{"json_data":{"theme":"light"}}"#;
    let s2 = Showable::from_json(line2, &FileProbe::NotFile).unwrap();
    assert_eq!(s2.theme, Theme::Light);
    let line3 = r#"{"json_data":{"theme":"blue"}}"#;
    let s3 = Showable::from_json(line3, &FileProbe::NotFile).unwrap();
    assert_eq!(s3.theme, Theme::Light);
}

#[test]
fn url_and_init_script_overrides() {
    let line = r#"{"json_data":{"url":"https://example.org","init_script":"init();"}}"#;
    let s = Showable::from_json(line, &FileProbe::NotFile).unwrap();
    assert_eq!(s.options.url, "https://example.org");
    assert_eq!(s.options.init_script.as_deref(), Some("init();"));
}

#[test]
fn download_and_export_fields() {
    let line = r#"{"download_path":"/tmp/dl","export_image":"/tmp/out.png"}"#;
    let s = Showable::from_json(line, &FileProbe::NotFile).unwrap();
    assert_eq!(s.download_path, "/tmp/dl");
    assert_eq!(s.export_image, "/tmp/out.png");
}

#[test]
fn oversized_dimension_is_dropped() {
    let line = r#"{"width":5000000000,"height":200}"#;
    let s = Showable::from_json(line, &FileProbe::NotFile).unwrap();
    assert_eq!(s.width, None);
    assert_eq!(s.height, Some(200));
}

#[test]
fn headless_extraction() {
    let line = r#"{"export_image":"/tmp/out.png","json_data":{"layout":{"width":640,"height":480}}}"#;
    let h = ShowableHeadless::new(line).unwrap();
    assert_eq!(h.export_image, "/tmp/out.png");
    assert_eq!(h.scale, Some(2));
    assert!(h.data.is_some());
}

#[test]
fn headless_without_layout_drops_payload() {
    let line = r#"{"export_image":"x.png","json_data":{"theme":"dark"}}"#;
    let h = ShowableHeadless::new(line).unwrap();
    assert!(h.data.is_none());
    assert_eq!(h.scale, None);
}

#[test]
fn headless_scale_member() {
    let line = r#"{"json_data":{"layout":{},"scale":3}}"#;
    let h = ShowableHeadless::new(line).unwrap();
    assert_eq!(h.scale, Some(3));
}

#[test]
fn plot_data_extraction() {
    let line = r#"{"json_data":{"layout":{"width":640,"height":480},"format":"svg"}}"#;
    let h = ShowableHeadless::new(line).unwrap();
    let p = PlotData::new(&h);
    assert_eq!(p.format, "svg");
    assert_eq!(p.width, Some(640));
    assert_eq!(p.height, Some(480));
    assert_eq!(p.scale, Some(2));
    assert!(p.figure.is_some());
}

#[test]
fn plot_document_exact_text() {
    let line = r#"{"export_image":"/tmp/out.png","json_data":{"layout":{"width":640,"height":480}}}"#;
    let v = PlotData::to_json(line);
    assert_eq!(
        v.to_string(),
        r#"{"figure":{"layout":{"height":480,"width":640}},"format":"png","height":480,"scale":2,"width":640}"#
    );
}

#[test]
fn plot_document_for_malformed_line() {
    let v = PlotData::to_json("not json");
    assert_eq!(
        v.to_string(),
        r#"{"figure":null,"format":"png","height":null,"scale":null,"width":null}"#
    );
}

#[test]
fn builder_options() {
    let o = WebViewOptions::new();
    assert_eq!(o.url, "wry://localhost");
    let o = o.with_url("https://example.org".to_string());
    assert_eq!(o.url, "https://example.org");
    let o = o.with_init_script("boot();".to_string());
    assert_eq!(o.init_script.as_deref(), Some("boot();"));
}
