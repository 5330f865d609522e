//! Everything the dispatcher decides when a surface is built: sizing with
//! the fixed chrome margin, centered placement with a small random jitter,
//! visibility, background, and the initialization script handed to the
//! surface. Building the native window itself is the GUI collaborator's
//! work and happens outside, driven by the plan computed here.

use vstd::prelude::*;
use crate::console::ConsolePrinter;
use crate::json::{Json, json_model, json_text, dump_value, string_value};
use crate::request::{Showable, ShowableHeadless, Theme};
use crate::strutil::tail_from;
use crate::utils::{spec_decode_path, decode_path};

verus! {

/// Relies on rand::random: an arbitrary value; nothing is promised of it.
pub assume_specification<T>[ rand::random::<T> ]() -> (r: T)
    where
        rand::distributions::Standard: rand::distributions::Distribution<T>,
;

/// A placement jitter, so that stacked windows do not cover one another.
pub fn position_jitter() -> (r: u32)
    ensures
        r < 100,
{
    let x: u32 = rand::random::<u32>();
    x % 100
}

/// An optional dimension with its default.
pub open spec fn spec_dim(o: Option<u32>, d: u32) -> u32 {
    match o {
        Some(v) => v,
        None => d,
    }
}

/// A dimension plus the fixed chrome margin, saturating at the type limit.
pub open spec fn spec_padded(d: u32) -> u32 {
    if d + 80 <= u32::MAX {
        (d + 80) as u32
    } else {
        u32::MAX
    }
}

/// The inner size a surface is built with: the requested size plus the
/// chrome margin, and only when both dimensions were requested.
pub fn window_inner_size(width: Option<u32>, height: Option<u32>) -> (r: Option<(u32, u32)>)
    ensures
        r == match (width, height) {
            (Some(w), Some(h)) => Some((spec_padded(w), spec_padded(h))),
            _ => None::<(u32, u32)>,
        },
{
    match (width, height) {
        (Some(w), Some(h)) => {
            let pw = if w <= u32::MAX - 80 {
                w + 80
            } else {
                u32::MAX
            };
            let ph = if h <= u32::MAX - 80 {
                h + 80
            } else {
                u32::MAX
            };
            Some((pw, ph))
        },
        _ => None,
    }
}

/// One centered coordinate with a jitter, saturating at both ends.
pub open spec fn spec_centered(screen: u32, win: u32, jitter: u32) -> u32 {
    let base = if screen / 2 >= win / 2 {
        (screen / 2 - win / 2) as u32
    } else {
        0u32
    };
    if base + jitter <= u32::MAX {
        (base + jitter) as u32
    } else {
        u32::MAX
    }
}

fn centered(screen: u32, win: u32, jitter: u32) -> (r: u32)
    ensures
        r == spec_centered(screen, win, jitter),
{
    let half_screen = screen / 2;
    let half_win = win / 2;
    let base = if half_screen >= half_win {
        half_screen - half_win
    } else {
        0
    };
    if base <= u32::MAX - jitter {
        base + jitter
    } else {
        u32::MAX
    }
}

/// Where a new surface is placed: centered on the screen, pushed by a
/// fresh jitter in each coordinate.
pub fn window_position(screen_w: u32, screen_h: u32, win_w: u32, win_h: u32) -> (r: (u32, u32))
    ensures
        exists|jx: u32, jy: u32|
            jx < 100 && jy < 100 && r == (spec_centered(screen_w, win_w, jx), spec_centered(
                screen_h,
                win_h,
                jy,
            )),
{
    let jx = position_jitter();
    let jy = position_jitter();
    let x = centered(screen_w, win_w, jx);
    let y = centered(screen_h, win_h, jy);
    proof {
        assert(x == spec_centered(screen_w, win_w, jx) && y == spec_centered(screen_h, win_h, jy));
    }
    (x, y)
}

/// A surface is kept hidden iff the job is export-only and no console is
/// attached.
pub fn is_minimized(export_image: &str, console_active: bool) -> (r: bool)
    ensures
        r == (export_image@.len() > 0 && !console_active),
{
    !export_image.is_empty() && !console_active
}

/// The background behind the content, by theme.
pub fn background_color(theme: Theme) -> (r: (u8, u8, u8, u8))
    ensures
        theme == Theme::Light ==> r == (255u8, 255u8, 255u8, 255u8),
        theme == Theme::Dark ==> r == (0u8, 0u8, 0u8, 255u8),
{
    match theme {
        Theme::Light => (255, 255, 255, 255),
        Theme::Dark => (0, 0, 0, 255),
    }
}

/// The export form of the payload script: the destination is embedded as
/// a JSON string literal. The headless surface always receives this form.
pub open spec fn spec_export_init_script(data: Json, export: Seq<char>) -> Seq<char> {
    "window.json_data = "@ + json_text(data) + "; window.export_image = "@ + json_text(
        Json::Str(export),
    ) + ";"@
}

/// The script that hands the payload to an interactive surface. An export
/// job learns its destination; any other job learns the download
/// directory. Either path is embedded as a JSON string literal.
pub open spec fn spec_init_script(data: Json, export: Seq<char>, download: Seq<char>) -> Seq<
    char,
> {
    if export.len() > 0 {
        spec_export_init_script(data, export)
    } else {
        "window.json_data = "@ + json_text(data) + "; window.download_path = "@ + json_text(
            Json::Str(download),
        ) + ";"@
    }
}

pub fn build_export_init_script(data: &serde_json::Value, export_image: &str) -> (r: String)
    ensures
        r@ == spec_export_init_script(json_model(*data), export_image@),
{
    let value_text = dump_value(data);
    let mut script = String::from_str("window.json_data = ");
    script.append(value_text.as_str());
    let quoted = dump_value(&string_value(export_image));
    script.append("; window.export_image = ");
    script.append(quoted.as_str());
    script.append(";");
    script
}

pub fn build_init_script(data: &serde_json::Value, export_image: &str, download_path: &str) -> (r:
    String)
    ensures
        r@ == spec_init_script(json_model(*data), export_image@, download_path@),
{
    if !export_image.is_empty() {
        build_export_init_script(data, export_image)
    } else {
        let value_text = dump_value(data);
        let mut script = String::from_str("window.json_data = ");
        script.append(value_text.as_str());
        let quoted = dump_value(&string_value(download_path));
        script.append("; window.download_path = ");
        script.append(quoted.as_str());
        script.append(";");
        script
    }
}

/// The page served for a surface: the console banner is prepended when a
/// console is attached.
pub fn page_content(dev_tools_prefix: &str, content: &str, console_active: bool) -> (r: String)
    ensures
        console_active ==> r@ == dev_tools_prefix@ + content@,
        !console_active ==> r@ == content@,
{
    if console_active {
        let mut page = String::from_str(dev_tools_prefix);
        page.append(content);
        page
    } else {
        String::from_str(content)
    }
}

/// Everything the GUI collaborator needs to build one interactive surface.
pub struct WindowPlan {
    pub title: String,
    /// Requested size plus chrome margin; the toolkit default otherwise.
    pub inner_size: Option<(u32, u32)>,
    pub min_inner_size: (u32, u32),
    pub position: (u32, u32),
    pub background: (u8, u8, u8, u8),
    /// Built hidden instead of raised.
    pub minimized: bool,
    /// The payload script, when the request carried a payload.
    pub init_script: Option<String>,
    /// The caller's own extra script, if any.
    pub user_init_script: Option<String>,
    pub url: String,
    pub devtools: bool,
    /// Whether creation is announced back to the dispatcher (to unpin).
    pub announce_created: bool,
}

/// The decisions behind creating one interactive surface.
pub fn create_new_window(to_show: &Showable, console: ConsolePrinter, screen_w: u32, screen_h: u32)
    -> (r: WindowPlan)
    ensures
        r.title@ == to_show@.title,
        r.inner_size == match (to_show.width, to_show.height) {
            (Some(w), Some(h)) => Some((spec_padded(w), spec_padded(h))),
            _ => None::<(u32, u32)>,
        },
        r.min_inner_size == (800u32, 450u32),
        exists|jx: u32, jy: u32|
            jx < 100 && jy < 100 && r.position == (
                spec_centered(screen_w, spec_dim(to_show.width, 800), jx),
                spec_centered(screen_h, spec_dim(to_show.height, 600), jy),
            ),
        to_show.theme == Theme::Light ==> r.background == (255u8, 255u8, 255u8, 255u8),
        to_show.theme == Theme::Dark ==> r.background == (0u8, 0u8, 0u8, 255u8),
        r.minimized == (to_show@.export_image.len() > 0 && !console.active),
        match to_show.data {
            Some(v) => r.init_script matches Some(s) && s@ == spec_init_script(
                json_model(v),
                to_show@.export_image,
                to_show@.download_path,
            ),
            None => r.init_script is None,
        },
        match to_show.options.init_script {
            Some(ref s) => r.user_init_script matches Some(u) && u@ == s@,
            None => r.user_init_script is None,
        },
        r.url@ == to_show@.options.url,
        r.devtools == console.active,
        r.announce_created == !r.minimized,
{
    let inner_size = window_inner_size(to_show.width, to_show.height);
    let win_w = match to_show.width {
        Some(w) => w,
        None => 800,
    };
    let win_h = match to_show.height {
        Some(h) => h,
        None => 600,
    };
    let position = window_position(screen_w, screen_h, win_w, win_h);
    proof {
        let (jx, jy) = choose|jx: u32, jy: u32|
            jx < 100 && jy < 100 && position == (
                spec_centered(screen_w, win_w, jx),
                spec_centered(screen_h, win_h, jy),
            );
        assert(jx < 100 && jy < 100 && position == (
            spec_centered(screen_w, spec_dim(to_show.width, 800), jx),
            spec_centered(screen_h, spec_dim(to_show.height, 600), jy),
        ));
    }
    let minimized = is_minimized(to_show.export_image.as_str(), console.active);
    let init_script = match &to_show.data {
        Some(v) => Some(
            build_init_script(v, to_show.export_image.as_str(), to_show.download_path.as_str()),
        ),
        None => None,
    };
    let user_init_script = match &to_show.options.init_script {
        Some(s) => Some(s.clone()),
        None => None,
    };
    WindowPlan {
        title: to_show.title.clone(),
        inner_size,
        min_inner_size: (800, 450),
        position,
        background: background_color(to_show.theme),
        minimized,
        init_script,
        user_init_script,
        url: to_show.options.url.clone(),
        devtools: console.active,
        announce_created: !minimized,
    }
}

/// Everything the GUI collaborator needs to build the one reusable
/// headless surface.
pub struct HeadlessWindowPlan {
    /// Shown only when a console is attached.
    pub visible: bool,
    pub inner_size: (u32, u32),
    pub min_inner_size: (u32, u32),
    pub init_script: Option<String>,
    pub url: String,
    pub devtools: bool,
}

/// The decisions behind creating the headless surface.
pub fn create_new_window_headless(to_show: &ShowableHeadless, console: ConsolePrinter) -> (r:
    HeadlessWindowPlan)
    ensures
        r.visible == console.active,
        r.inner_size == (800u32, 600u32),
        r.min_inner_size == (800u32, 450u32),
        match to_show.data {
            Some(v) => r.init_script matches Some(s) && s@ == spec_export_init_script(
                json_model(v),
                to_show@.export_image,
            ),
            None => r.init_script is None,
        },
        r.url@ == "wry://localhost"@,
        r.devtools == console.active,
{
    let init_script = match &to_show.data {
        Some(v) => Some(build_export_init_script(v, to_show.export_image.as_str())),
        None => None,
    };
    HeadlessWindowPlan {
        visible: console.active,
        inner_size: (800, 600),
        min_inner_size: (800, 450),
        init_script,
        url: String::from_str("wry://localhost"),
        devtools: console.active,
    }
}

/// What mime_guess answers for a path, by its extension alone; `None` when
/// no known type matches.
pub uninterp spec fn mime_of(path: Seq<char>) -> Option<Seq<char>>;

/// Relies on mime_guess::from_path and MimeGuess::first: a static lookup
/// by the path's extension, so the result depends on the path alone.
#[verifier::external_body]
fn guess_mime(path: &str) -> (r: Option<String>)
    ensures
        match r {
            Some(m) => mime_of(path@) == Some(m@),
            None => mime_of(path@) is None,
        },
{
    mime_guess::from_path(path).first().map(|m| m.to_string())
}

/// The guessed type, or `text/plain` when nothing matches.
pub open spec fn spec_mime_or_plain(path: Seq<char>) -> Seq<char> {
    match mime_of(path) {
        Some(m) => m,
        None => "text/plain"@,
    }
}

fn mime_or_plain(path: &str) -> (r: String)
    ensures
        r@ == spec_mime_or_plain(path@),
{
    match guess_mime(path) {
        Some(m) => m,
        None => String::from_str("text/plain"),
    }
}

/// One response of the surface's custom content protocol.
pub struct ProtocolResponse {
    pub body: Vec<u8>,
    pub content_type: String,
}

/// The request path without its leading slash, decoded: the file the
/// caller should try to read for a non-root request.
pub fn protocol_file_query(path: &str) -> (r: Option<String>)
    ensures
        match spec_protocol_file(path@) {
            Some(d) => r matches Some(s) && s@ == d,
            None => r is None,
        },
{
    let len = path.unicode_len();
    if len <= 1 {
        return None;
    }
    let rest = tail_from(path, 1);
    decode_path(rest.as_str())
}

/// The decoded target of a non-root request; `None` for the root or an
/// undecodable path.
pub open spec fn spec_protocol_file(path: Seq<char>) -> Option<Seq<char>> {
    if path.len() <= 1 {
        None
    } else {
        spec_decode_path(path.subrange(1, path.len() as int))
    }
}

/// The content type served for a request: the root and anything that does
/// not name a file get the page's own type; a file path gets its guessed
/// type, whether or not the read then succeeds.
pub open spec fn spec_protocol_mime(path: Seq<char>) -> Seq<char> {
    match spec_protocol_file(path) {
        Some(d) => spec_mime_or_plain(d),
        None => spec_mime_or_plain("index.html"@),
    }
}

/// The response served on the surface's content protocol: the root serves
/// the page itself; any other path serves the named file when the caller
/// could read it, and falls back to the page.
pub fn protocol_response(path: &str, inline: Vec<u8>, file: Option<Vec<u8>>) -> (r:
    ProtocolResponse)
    ensures
        r.content_type@ == spec_protocol_mime(path@),
        r.body@ == (match spec_protocol_file(path@) {
            Some(d) => match file {
                Some(bytes) => bytes@,
                None => inline@,
            },
            None => inline@,
        }),
{
    match protocol_file_query(path) {
        Some(decoded) => {
            let content_type = mime_or_plain(decoded.as_str());
            let body = match file {
                Some(bytes) => bytes,
                None => inline,
            };
            ProtocolResponse { body, content_type }
        },
        None => ProtocolResponse { body: inline, content_type: mime_or_plain("index.html") },
    }
}

} // verus!
