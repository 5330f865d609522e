//! The request parser: one ingress line becomes a validated render request,
//! or the canonical placeholder request — never an error that stops the
//! pipeline.
//!
//! Reading a content file is an edge the caller performs: the caller asks
//! `Showable::content_query` which path would be read, probes it, and hands
//! the outcome back as a `FileProbe`.

use vstd::prelude::*;
use crate::strutil::str_eq;
use crate::json::{
    Json, json_model, json_src, spec_index, spec_as_str, spec_as_u64, spec_is_null,
    spec_is_object, spec_is_string, parse_json, index_str, as_str_opt, as_u64_opt,
    is_null_value, is_object_value, is_string_value, clone_value, empty_object,
    object_insert, string_value, u64_value, null_value, spec_u64_digits,
};

verus! {

broadcast use vstd::string::group_string_axioms;

#[derive(Clone, Copy, PartialEq, Eq, Structural, Debug)]
pub enum Theme {
    Light,
    Dark,
}

/// Options handed to the surface builder.
pub struct WebViewOptions {
    /// URL to be loaded when the surface is ready.
    pub url: String,
    /// Script to be injected when the surface is ready.
    pub init_script: Option<String>,
}

pub struct OptionsModel {
    pub url: Seq<char>,
    pub init_script: Option<Seq<char>>,
}

impl View for WebViewOptions {
    type V = OptionsModel;

    open spec fn view(&self) -> OptionsModel {
        OptionsModel { url: self.url@, init_script: match self.init_script {
            Some(s) => Some(s@),
            None => None,
        } }
    }
}

pub open spec fn default_options_model() -> OptionsModel {
    OptionsModel { url: "wry://localhost"@, init_script: None }
}

impl Default for WebViewOptions {
    fn default() -> (r: Self)
        ensures
            r@ == default_options_model(),
    {
        WebViewOptions { url: String::from_str("wry://localhost"), init_script: None }
    }
}

impl WebViewOptions {
    pub fn new() -> (r: Self)
        ensures
            r@ == default_options_model(),
    {
        Self::default()
    }

    /// Sets the URL to be loaded when the surface is ready.
    pub fn with_url(self, url: String) -> (r: Self)
        ensures
            r@ == (OptionsModel { url: url@, ..self@ }),
    {
        WebViewOptions { url, init_script: self.init_script }
    }

    /// Sets the script to be injected when the surface is ready.
    pub fn with_init_script(self, init_script: String) -> (r: Self)
        ensures
            r@ == (OptionsModel { init_script: Some(init_script@), ..self@ }),
    {
        WebViewOptions { url: self.url, init_script: Some(init_script) }
    }
}

/// One display job, extracted from an ingress line.
pub struct Showable {
    pub content: String,
    pub title: String,
    pub height: Option<u32>,
    pub width: Option<u32>,
    pub icon: String,
    pub data: Option<serde_json::Value>,
    pub download_path: String,
    pub export_image: String,
    pub theme: Theme,
    pub options: WebViewOptions,
}

pub struct ShowableModel {
    pub content: Seq<char>,
    pub title: Seq<char>,
    pub height: Option<u32>,
    pub width: Option<u32>,
    pub icon: Seq<char>,
    pub data: Option<Json>,
    pub download_path: Seq<char>,
    pub export_image: Seq<char>,
    pub theme: Theme,
    pub options: OptionsModel,
}

impl View for Showable {
    type V = ShowableModel;

    open spec fn view(&self) -> ShowableModel {
        ShowableModel {
            content: self.content@,
            title: self.title@,
            height: self.height,
            width: self.width,
            icon: self.icon@,
            data: match self.data {
                Some(v) => Some(json_model(v)),
                None => None,
            },
            download_path: self.download_path@,
            export_image: self.export_image@,
            theme: self.theme,
            options: self.options@,
        }
    }
}

/// Outcome of probing the `html` field of a request as a file path.
pub enum FileProbe {
    /// The field does not resolve to an existing file.
    NotFile,
    /// It resolves to a file, but the file cannot be read.
    Unreadable,
    /// The file's text.
    Contents(String),
}

pub open spec fn str_or_empty(j: Json) -> Seq<char> {
    match spec_as_str(j) {
        Some(s) => s,
        None => Seq::<char>::empty(),
    }
}

/// A dimension member: the number if it fits in a `u32`, else the default.
pub open spec fn dim_or(j: Json, d: u32) -> u32 {
    match spec_as_u64(j) {
        Some(n) => if n <= u32::MAX as u64 {
            n as u32
        } else {
            d
        },
        None => d,
    }
}

/// A dimension member read without a default: present only when the number
/// fits in a `u32`.
pub open spec fn dim_opt(j: Json) -> Option<u32> {
    match spec_as_u64(j) {
        Some(n) => if n <= u32::MAX as u64 {
            Some(n as u32)
        } else {
            None
        },
        None => None,
    }
}

pub open spec fn placeholder_content() -> Seq<char> {
    "\n\t\t\t<h1 style='color:red'>No html content to show,\n\t\t\tplease provide a valid html string or path to html file.</h1>\n\t\t\t"@
}

pub open spec fn placeholder_model() -> ShowableModel {
    ShowableModel {
        content: placeholder_content(),
        title: "Error Creating Showable Object"@,
        height: None,
        width: None,
        icon: Seq::<char>::empty(),
        data: None,
        download_path: Seq::<char>::empty(),
        export_image: Seq::<char>::empty(),
        theme: Theme::Light,
        options: default_options_model(),
    }
}

/// The `html` member as text: what the caller probes as a path.
pub open spec fn html_field(j: Json) -> Seq<char> {
    str_or_empty(spec_index(j, "html"@))
}

/// The content used when the `html` member is not a readable file: the
/// member itself if it is a string, else the placeholder banner.
pub open spec fn inline_content(j: Json) -> Seq<char> {
    match spec_as_str(spec_index(j, "html"@)) {
        Some(s) => s,
        None => placeholder_content(),
    }
}

/// Full extraction of a render request from a parsed line `j`, with the
/// resolved `content` already chosen.
pub open spec fn showable_of(j: Json, content: Seq<char>) -> ShowableModel {
    let data = spec_index(j, "json_data"@);
    let layout = spec_index(data, "layout"@);
    let has_layout = !spec_is_null(data) && spec_is_object(layout);
    ShowableModel {
        content: content,
        title: str_or_empty(spec_index(j, "title"@)),
        height: if has_layout {
            Some(dim_or(spec_index(layout, "height"@), 600))
        } else {
            dim_opt(spec_index(j, "height"@))
        },
        width: if has_layout {
            Some(dim_or(spec_index(layout, "width"@), 800))
        } else {
            dim_opt(spec_index(j, "width"@))
        },
        icon: str_or_empty(spec_index(j, "icon"@)),
        data: Some(data),
        download_path: str_or_empty(spec_index(j, "download_path"@)),
        export_image: str_or_empty(spec_index(j, "export_image"@)),
        theme: if !spec_is_null(data) && str_or_empty(spec_index(data, "theme"@)) == "dark"@ {
            Theme::Dark
        } else {
            Theme::Light
        },
        options: OptionsModel {
            url: if !spec_is_null(data) && spec_is_string(spec_index(data, "url"@)) {
                str_or_empty(spec_index(data, "url"@))
            } else {
                "wry://localhost"@
            },
            init_script: if !spec_is_null(data) && spec_is_string(spec_index(data, "init_script"@)) {
                Some(str_or_empty(spec_index(data, "init_script"@)))
            } else {
                None
            },
        },
    }
}

fn get_string_or_empty(v: &serde_json::Value, key: &str) -> (r: String)
    ensures
        r@ == str_or_empty(spec_index(json_model(*v), key@)),
{
    match as_str_opt(index_str(v, key)) {
        Some(s) => String::from_str(s),
        None => String::new(),
    }
}

fn get_dim_opt(v: &serde_json::Value, key: &str) -> (r: Option<u32>)
    ensures
        r == dim_opt(spec_index(json_model(*v), key@)),
{
    match as_u64_opt(index_str(v, key)) {
        Some(n) => if n <= u32::MAX as u64 {
            Some(n as u32)
        } else {
            None
        },
        None => None,
    }
}

fn get_dim_or(v: &serde_json::Value, key: &str, d: u32) -> (r: u32)
    ensures
        r == dim_or(spec_index(json_model(*v), key@), d),
{
    match as_u64_opt(index_str(v, key)) {
        Some(n) => if n <= u32::MAX as u64 {
            n as u32
        } else {
            d
        },
        None => d,
    }
}

pub fn placeholder_content_text() -> (r: &'static str)
    ensures
        r@ == placeholder_content(),
{
    "\n\t\t\t<h1 style='color:red'>No html content to show,\n\t\t\tplease provide a valid html string or path to html file.</h1>\n\t\t\t"
}

impl Showable {
    /// The canonical placeholder request: a visible error banner.
    pub fn placeholder() -> (r: Self)
        ensures
            r@ == placeholder_model(),
    {
        Showable {
            content: String::from_str(placeholder_content_text()),
            title: String::from_str("Error Creating Showable Object"),
            height: None,
            width: None,
            icon: String::new(),
            data: None,
            download_path: String::new(),
            export_image: String::new(),
            theme: Theme::Light,
            options: WebViewOptions::default(),
        }
    }

    /// The text of the `html` member, if the line parses: the path the
    /// caller should probe before calling `from_json` or `new`.
    pub fn content_query(raw_json: &str) -> (r: Option<String>)
        ensures
            match json_src(raw_json@) {
                Some(j) => r matches Some(s) && s@ == html_field(j),
                None => r is None,
            },
    {
        match parse_json(raw_json) {
            Some(v) => Some(get_string_or_empty(&v, "html")),
            None => None,
        }
    }

    /// Extracts a request from one line. `None` on a malformed line, and on
    /// a content file that resolved but could not be read.
    pub fn from_json(raw_json: &str, probe: &FileProbe) -> (r: Option<Self>)
        ensures
            match json_src(raw_json@) {
                None => r is None,
                Some(j) => match probe {
                    FileProbe::Unreadable => r is None,
                    FileProbe::Contents(text) => r matches Some(s) && s@ == showable_of(
                        j,
                        text@,
                    ),
                    FileProbe::NotFile => r matches Some(s) && s@ == showable_of(
                        j,
                        inline_content(j),
                    ),
                },
            },
    {
        let json = match parse_json(raw_json) {
            None => {
                return None;
            },
            Some(v) => v,
        };
        let content: String = match probe {
            FileProbe::Unreadable => {
                return None;
            },
            FileProbe::Contents(text) => text.clone(),
            FileProbe::NotFile => {
                match as_str_opt(index_str(&json, "html")) {
                    Some(s) => String::from_str(s),
                    None => String::from_str(placeholder_content_text()),
                }
            },
        };

        let data = index_str(&json, "json_data");
        let icon = get_string_or_empty(&json, "icon");
        let title = get_string_or_empty(&json, "title");
        let mut height: Option<u32> = get_dim_opt(&json, "height");
        let mut width: Option<u32> = get_dim_opt(&json, "width");
        let mut theme = Theme::Light;
        let mut options = WebViewOptions::new();

        proof {
            reveal_strlit("dark");
            assert("dark"@.len() == 4);
            assert(Seq::<char>::empty() != "dark"@);
        }
        if !is_null_value(data) {
            match as_str_opt(index_str(data, "theme")) {
                Some(t) => {
                    if str_eq(t, "dark") {
                        theme = Theme::Dark;
                    }
                },
                None => {},
            }
            let layout = index_str(data, "layout");
            if is_object_value(layout) {
                width = Some(get_dim_or(layout, "width", 800));
                height = Some(get_dim_or(layout, "height", 600));
            }
            if is_string_value(index_str(data, "url")) {
                options = options.with_url(get_string_or_empty(data, "url"));
            }
            if is_string_value(index_str(data, "init_script")) {
                options = options.with_init_script(get_string_or_empty(data, "init_script"));
            }
        }

        let export_image = get_string_or_empty(&json, "export_image");
        let download_path = get_string_or_empty(&json, "download_path");
        let data_owned = clone_value(data);

        Some(
            Showable {
                content,
                title,
                height,
                width,
                icon,
                data: Some(data_owned),
                download_path,
                export_image,
                theme,
                options,
            },
        )
    }

    /// One request per line, always: a line that cannot be extracted yields
    /// the placeholder request instead.
    pub fn new(raw_json: &str, probe: &FileProbe) -> (r: Self)
        ensures
            r@ == match json_src(raw_json@) {
                None => placeholder_model(),
                Some(j) => match probe {
                    FileProbe::Unreadable => placeholder_model(),
                    FileProbe::Contents(text) => showable_of(j, text@),
                    FileProbe::NotFile => showable_of(j, inline_content(j)),
                },
            },
    {
        match Self::from_json(raw_json, probe) {
            Some(item) => item,
            None => Self::placeholder(),
        }
    }
}

impl Default for Showable {
    fn default() -> (r: Self)
        ensures
            r@ == placeholder_model(),
    {
        Self::placeholder()
    }
}

/// A headless render job: only the payload and the export destination.
pub struct ShowableHeadless {
    pub data: Option<serde_json::Value>,
    pub export_image: String,
    pub scale: Option<u32>,
}

pub struct HeadlessModel {
    pub data: Option<Json>,
    pub export_image: Seq<char>,
    pub scale: Option<u32>,
}

impl View for ShowableHeadless {
    type V = HeadlessModel;

    open spec fn view(&self) -> HeadlessModel {
        HeadlessModel {
            data: match self.data {
                Some(v) => Some(json_model(v)),
                None => None,
            },
            export_image: self.export_image@,
            scale: self.scale,
        }
    }
}

/// The scale member of a headless line: defaults to 2, and falls back to 2
/// when the number does not fit in a `u32`.
pub open spec fn scale_of(j: Json) -> u32 {
    dim_or(spec_index(spec_index(j, "json_data"@), "scale"@), 2)
}

/// Extraction of a headless job from a parsed line: the payload is kept
/// only when it carries a `layout` object.
pub open spec fn headless_of(j: Json) -> HeadlessModel {
    let data = spec_index(j, "json_data"@);
    let has_layout = !spec_is_null(data) && spec_is_object(spec_index(data, "layout"@));
    HeadlessModel {
        data: if has_layout {
            Some(data)
        } else {
            None
        },
        export_image: str_or_empty(spec_index(j, "export_image"@)),
        scale: if has_layout {
            Some(scale_of(j))
        } else {
            None
        },
    }
}

pub open spec fn headless_default_model() -> HeadlessModel {
    HeadlessModel { data: None, export_image: Seq::<char>::empty(), scale: None }
}

impl ShowableHeadless {
    /// Extracts a headless job from one line; `None` on a malformed line.
    pub fn new(raw_json: &str) -> (r: Option<Self>)
        ensures
            match json_src(raw_json@) {
                None => r is None,
                Some(j) => r matches Some(s) && s@ == headless_of(j),
            },
    {
        let json = match parse_json(raw_json) {
            None => {
                return None;
            },
            Some(v) => v,
        };
        let json_data = index_str(&json, "json_data");
        let export_image = get_string_or_empty(&json, "export_image");
        let mut data: Option<serde_json::Value> = None;
        let mut scale: Option<u32> = None;

        if !is_null_value(json_data) {
            if is_object_value(index_str(json_data, "layout")) {
                data = Some(clone_value(json_data));
                scale = Some(get_dim_or(json_data, "scale", 2));
            }
        }

        Some(ShowableHeadless { data, export_image, scale })
    }
}

impl Default for ShowableHeadless {
    fn default() -> (r: Self)
        ensures
            r@ == headless_default_model(),
    {
        ShowableHeadless { data: None, export_image: String::new(), scale: None }
    }
}

/// What the headless surface is asked to draw.
pub struct PlotData {
    pub figure: Option<serde_json::Value>,
    pub format: String,
    pub width: Option<u32>,
    pub height: Option<u32>,
    pub scale: Option<u32>,
}

pub struct PlotDataModel {
    pub figure: Option<Json>,
    pub format: Seq<char>,
    pub width: Option<u32>,
    pub height: Option<u32>,
    pub scale: Option<u32>,
}

impl View for PlotData {
    type V = PlotDataModel;

    open spec fn view(&self) -> PlotDataModel {
        PlotDataModel {
            figure: match self.figure {
                Some(v) => Some(json_model(v)),
                None => None,
            },
            format: self.format@,
            width: self.width,
            height: self.height,
            scale: self.scale,
        }
    }
}

/// Extraction of the plot parameters from a headless job.
pub open spec fn plot_data_of(h: HeadlessModel) -> PlotDataModel {
    match h.data {
        None => PlotDataModel {
            figure: None,
            format: "png"@,
            width: None,
            height: None,
            scale: h.scale,
        },
        Some(fig) => {
            let layout = spec_index(fig, "layout"@);
            PlotDataModel {
                figure: Some(fig),
                format: match spec_as_str(spec_index(fig, "format"@)) {
                    Some(f) => f,
                    None => "png"@,
                },
                width: Some(dim_or(spec_index(layout, "width"@), 800)),
                height: Some(dim_or(spec_index(layout, "height"@), 600)),
                scale: h.scale,
            }
        },
    }
}

impl PlotData {
    pub fn new(showable: &ShowableHeadless) -> (r: Self)
        ensures
            r@ == plot_data_of(showable@),
    {
        let scale = showable.scale;
        match &showable.data {
            None => PlotData {
                figure: None,
                format: String::from_str("png"),
                width: None,
                height: None,
                scale,
            },
            Some(fig) => {
                let layout = index_str(fig, "layout");
                let width = Some(get_dim_or(layout, "width", 800));
                let height = Some(get_dim_or(layout, "height", 600));
                let format = match as_str_opt(index_str(fig, "format")) {
                    Some(f) => String::from_str(f),
                    None => String::from_str("png"),
                };
                PlotData { figure: Some(clone_value(fig)), format, width, height, scale }
            },
        }
    }
}

/// A `u32` option as a JSON member: the number, or `null`.
pub open spec fn opt_num(o: Option<u32>) -> Json {
    match o {
        Some(n) => Json::Num { text: spec_u64_digits(n as u64), uint: Some(n as u64) },
        None => Json::Null,
    }
}

/// The document sent to the headless surface for one plot.
pub open spec fn plot_json_of(p: PlotDataModel) -> Json {
    Json::Obj(
        Map::<Seq<char>, Json>::empty().insert(
            "figure"@,
            match p.figure {
                Some(f) => f,
                None => Json::Null,
            },
        ).insert("format"@, Json::Str(p.format)).insert("width"@, opt_num(p.width)).insert(
            "height"@,
            opt_num(p.height),
        ).insert("scale"@, opt_num(p.scale)),
    )
}

fn opt_num_value(o: Option<u32>) -> (r: serde_json::Value)
    ensures
        json_model(r) == opt_num(o),
{
    match o {
        Some(n) => u64_value(n as u64),
        None => null_value(),
    }
}

impl PlotData {
    /// The plot document for one ingress line: a malformed line yields the
    /// document of the default (empty) headless job.
    pub fn to_json(raw_json: &str) -> (r: serde_json::Value)
        ensures
            json_model(r) == plot_json_of(
                plot_data_of(
                    match json_src(raw_json@) {
                        Some(j) => headless_of(j),
                        None => headless_default_model(),
                    },
                ),
            ),
    {
        let show = match ShowableHeadless::new(raw_json) {
            Some(showable) => showable,
            None => ShowableHeadless::default(),
        };

        let plot_data = Self::new(&show);
        let mut out = empty_object();
        let figure = match &plot_data.figure {
            Some(f) => clone_value(f),
            None => null_value(),
        };
        object_insert(&mut out, "figure", figure);
        object_insert(&mut out, "format", string_value(plot_data.format.as_str()));
        object_insert(&mut out, "width", opt_num_value(plot_data.width));
        object_insert(&mut out, "height", opt_num_value(plot_data.height));
        object_insert(&mut out, "scale", opt_num_value(plot_data.scale));
        out
    }
}

} // verus!
