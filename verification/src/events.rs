//! The event dispatcher: the single loop that owns the registry and the
//! blob buffer. Background activity speaks to it only through events; it
//! answers with effects that the surrounding loop performs (create or drop
//! a surface, run a script, emit a line, move a file). No other component
//! ever mutates the registry.

use vstd::prelude::*;
use crate::blob::{BlobTransfer, BlobTransferModel, finalize_spec, idle_transfer};
use crate::console::ConsolePrinter;
use crate::json::{
    Json, json_src, json_text, parse_json, empty_object, object_insert, string_value, dump_value,
};
use crate::registry::{
    Registry, RegistryModel, SurfaceKind, SurfaceRecord, spec_close, spec_unpin,
};
use crate::request::{
    PlotData, Showable, ShowableHeadless, headless_of, headless_default_model, plot_data_of,
    plot_json_of,
};
use crate::strutil::{
    spec_starts_with, spec_file_name, spec_parent, spec_join_path, starts_with_lit, file_name_of,
    parent_of, join_path,
};
use crate::utils::{url_decoded, url_decode, spec_decode_path, decode_path};

verus! {

/// The vocabulary understood by the dispatcher.
pub enum UserEvent {
    /// A native download began: its uri and the suggested path.
    DownloadStarted(String, String),
    /// A native download finished: the reported path, success, the
    /// request's download directory and export destination, and the
    /// surface.
    DownloadComplete(Option<String>, bool, String, String, u64),
    /// A blob uri was intercepted before the native download could run.
    BlobReceived(String, u64),
    /// One blob fragment, or the end-of-transfer sentinel.
    BlobChunk(Option<String>),
    CloseWindow(u64),
    DevTools(u64),
    NewWindowCreated(u64),
    /// A render call against the reusable headless surface.
    NewPlot(String, u64),
    OpenFile(Option<String>),
    /// A result payload to emit on the egress stream.
    STDout(String),
    /// A popup request carrying its uri.
    NewWindow(String),
    /// One ingress line.
    NewMessageReceived(String),
}

/// What the dispatcher is handed on one turn.
pub enum LoopEvent {
    User(UserEvent),
    /// The native close request of a surface.
    CloseRequested(u64),
    /// Any other native event: ignored.
    Native,
}

/// The filesystem work owed for one completed download, performed off the
/// dispatcher thread.
pub struct DownloadPlan {
    /// The decoded path the file was downloaded to.
    pub from: String,
    /// Where it belongs.
    pub to: String,
    /// The directory to create if absent (the parent of `to`).
    pub make_dir: String,
    /// The original file is deleted after a successful copy.
    pub remove_original: bool,
    /// Close this surface after a successful copy (export jobs).
    pub close_surface: Option<u64>,
}

/// What the dispatcher asks the surrounding loop to do.
pub enum Effect {
    /// Write one line on the egress stream.
    EmitLine(String),
    /// Build a surface for this ingress line.
    CreateWindow(String),
    /// Run a script in a live surface.
    EvalScript(u64, String),
    /// Lower a surface from its raised-above-others state.
    Unpin(u64),
    /// Destroy the native surface of a closed id.
    DropWindow(u64),
    OpenDevTools(u64),
    /// Open a file with the native opener.
    OpenPath(String),
    /// Perform the filesystem work of a completed download.
    FileCopy(DownloadPlan),
    /// Open a popup window for an allowed uri.
    OpenPopup(String),
    /// Write finished blob bytes to their destination.
    WriteBlob(String, Vec<u8>),
    /// Feed an event back into the queue.
    Forward(UserEvent),
}

/// One egress result line: the payload is percent-decoded (an undecodable
/// payload becomes empty) and wrapped as `{"result": <text>}`.
pub open spec fn spec_result_line(result: Seq<char>) -> Seq<char> {
    json_text(
        Json::Obj(
            Map::<Seq<char>, Json>::empty().insert(
                "result"@,
                Json::Str(
                    match url_decoded(result) {
                        Some(d) => d,
                        None => Seq::<char>::empty(),
                    },
                ),
            ),
        ),
    )
}

pub fn result_line(result: &str) -> (r: String)
    ensures
        r@ == spec_result_line(result@),
{
    let decoded = match url_decode(result) {
        Some(d) => d,
        None => String::new(),
    };
    let mut v = empty_object();
    object_insert(&mut v, "result", string_value(decoded.as_str()));
    dump_value(&v)
}

/// Which uris may open a popup window: plain web uris, except the Google
/// sign-in host, which misbehaves inside an embedded surface.
pub open spec fn spec_allowed_popup(uri: Seq<char>) -> bool {
    (spec_starts_with(uri, "http://"@) || spec_starts_with(uri, "https://"@))
        && !spec_starts_with(uri, "https://ogs.google.com"@)
}

pub fn allowed_popup(uri: &str) -> (r: bool)
    ensures
        r == spec_allowed_popup(uri@),
{
    (starts_with_lit(uri, "http://") || starts_with_lit(uri, "https://")) && !starts_with_lit(
        uri,
        "https://ogs.google.com",
    )
}

/// Where a completed download belongs: the export destination wins over
/// the download directory, which wins over the reported location.
pub open spec fn spec_download_dest(
    decoded: Seq<char>,
    download: Seq<char>,
    export: Seq<char>,
) -> Seq<char> {
    if download.len() > 0 {
        if export.len() > 0 {
            export
        } else {
            spec_join_path(download, spec_file_name(decoded))
        }
    } else {
        decoded
    }
}

/// Law: when both an export destination and a download directory are set,
/// completion resolves to the export destination.
pub proof fn lemma_export_path_wins(decoded: Seq<char>, download: Seq<char>, export: Seq<char>)
    requires
        download.len() > 0,
        export.len() > 0,
    ensures
        spec_download_dest(decoded, download, export) == export,
{
}

/// Law: with only a download directory set, a completed download ends up
/// in that directory under the original file name.
pub proof fn lemma_download_dir_destination(decoded: Seq<char>, download: Seq<char>)
    requires
        download.len() > 0,
    ensures
        spec_download_dest(decoded, download, Seq::<char>::empty()) == spec_join_path(
            download,
            spec_file_name(decoded),
        ),
{
}

/// The filesystem plan for one completed download. The original file is
/// always removed after a successful copy; an export job additionally has
/// its surface closed.
pub fn make_download_plan(decoded: &str, download_path: &str, export_image: &str, window_id: u64)
    -> (r: DownloadPlan)
    ensures
        r.from@ == decoded@,
        r.to@ == spec_download_dest(decoded@, download_path@, export_image@),
        r.make_dir@ == spec_parent(r.to@),
        r.remove_original == true,
        r.close_surface == (if export_image@.len() > 0 {
            Some(window_id)
        } else {
            None::<u64>
        }),
{
    let to: String = if !download_path.is_empty() {
        if !export_image.is_empty() {
            String::from_str(export_image)
        } else {
            let name = file_name_of(decoded);
            join_path(download_path, name.as_str())
        }
    } else {
        String::from_str(decoded)
    };
    let make_dir = parent_of(to.as_str());
    let close_surface = if !export_image.is_empty() {
        Some(window_id)
    } else {
        None
    };
    DownloadPlan {
        from: String::from_str(decoded),
        to,
        make_dir,
        remove_original: true,
        close_surface,
    }
}

/// A render call against the headless surface, as script text.
pub open spec fn spec_plot_script(data: Seq<char>) -> Seq<char> {
    "plotly_render("@ + json_text(
        plot_json_of(
            plot_data_of(
                match json_src(data) {
                    Some(j) => headless_of(j),
                    None => headless_default_model(),
                },
            ),
        ),
    ) + ");"@
}

/// Where the bytes of a blob transfer started by this surface belong:
/// its export destination, else its download directory, else nowhere.
pub open spec fn spec_blob_dest(reg: RegistryModel, id: u64) -> Option<Seq<char>> {
    if reg.live.dom().contains(id) {
        let rec = reg.live[id];
        if rec.export_path@.len() > 0 {
            Some(rec.export_path@)
        } else if rec.download_path@.len() > 0 {
            Some(rec.download_path@)
        } else {
            None
        }
    } else {
        None
    }
}

/// The dispatcher's abstract state.
pub struct DispatcherModel {
    pub registry: RegistryModel,
    pub blob: BlobTransferModel,
    pub console_active: bool,
    pub headless: bool,
    pub primary: Option<u64>,
}

/// Everything the dispatch loop owns: the registry, the one blob buffer,
/// the console switch, the process mode, and (in headless mode) the id of
/// the reusable surface.
pub struct DispatcherState {
    pub registry: Registry,
    pub blob: BlobTransfer,
    pub console: ConsolePrinter,
    pub headless: bool,
    pub primary: Option<u64>,
}

impl View for DispatcherState {
    type V = DispatcherModel;

    open spec fn view(&self) -> DispatcherModel {
        DispatcherModel {
            registry: self.registry@,
            blob: self.blob@,
            console_active: self.console.active,
            headless: self.headless,
            primary: self.primary,
        }
    }
}

impl DispatcherState {
    pub fn new(console: ConsolePrinter, headless: bool) -> (r: Self)
        ensures
            r@.registry.wf(),
            r@.registry.live == Map::<u64, SurfaceRecord>::empty(),
            r@.registry.seen == Set::<u64>::empty(),
            r@.blob == idle_transfer(),
            r@.console_active == console.active,
            r@.headless == headless,
            r@.primary is None,
    {
        DispatcherState {
            registry: Registry::new(),
            blob: BlobTransfer::new(),
            console,
            headless,
            primary: None,
        }
    }
}

fn close_surface(state: &mut DispatcherState, id: u64) -> (effects: Vec<Effect>)
    requires
        old(state)@.registry.wf(),
    ensures
        final(state)@.registry.wf(),
        final(state)@.registry == spec_close(old(state)@.registry, id),
        final(state)@.blob == old(state)@.blob,
        final(state)@.console_active == old(state)@.console_active,
        final(state)@.headless == old(state)@.headless,
        final(state)@.primary == old(state)@.primary,
        if old(state)@.registry.live.dom().contains(id) {
            effects@.len() == 1 && effects@[0] == Effect::DropWindow(id)
        } else {
            effects@.len() == 0
        },
{
    let was_live = state.registry.close(id);
    if was_live {
        let mut v: Vec<Effect> = Vec::new();
        v.push(Effect::DropWindow(id));
        v
    } else {
        Vec::new()
    }
}

/// One turn of the dispatcher: applies the matching state transition and
/// yields the effects the loop must perform. Unmatched events are no-ops.
pub fn handle_events(state: &mut DispatcherState, event: LoopEvent) -> (effects: Vec<Effect>)
    requires
        old(state)@.registry.wf(),
    ensures
        final(state)@.registry.wf(),
        final(state)@.console_active == old(state)@.console_active,
        final(state)@.headless == old(state)@.headless,
        final(state)@.primary == old(state)@.primary,
        match event {
            LoopEvent::Native => final(state)@ == old(state)@ && effects@.len() == 0,
            LoopEvent::CloseRequested(id) => {
                &&& final(state)@.registry == spec_close(old(state)@.registry, id)
                &&& final(state)@.blob == old(state)@.blob
                &&& if old(state)@.registry.live.dom().contains(id) {
                    effects@.len() == 1 && effects@[0] == Effect::DropWindow(id)
                } else {
                    effects@.len() == 0
                }
            },
            LoopEvent::User(ev) => match ev {
                UserEvent::NewMessageReceived(msg) => {
                    &&& final(state)@ == old(state)@
                    &&& if old(state)@.headless {
                        match old(state)@.primary {
                            Some(pid) => effects@.len() == 1 && (effects@[0] matches
                            Effect::Forward(fe) && (fe matches UserEvent::NewPlot(m, pid2)
                                && m@ == msg@ && pid2 == pid)),
                            None => effects@.len() == 0,
                        }
                    } else {
                        effects@.len() == 1 && (effects@[0] matches Effect::CreateWindow(m)
                            && m@ == msg@)
                    }
                },
                UserEvent::STDout(result) => {
                    &&& final(state)@ == old(state)@
                    &&& effects@.len() == 1
                    &&& (effects@[0] matches Effect::EmitLine(l) && l@ == spec_result_line(
                        result@,
                    ))
                },
                UserEvent::NewPlot(data, id) => {
                    &&& final(state)@ == old(state)@
                    &&& if old(state)@.registry.live.dom().contains(id) {
                        effects@.len() == 1 && (effects@[0] matches Effect::EvalScript(
                            id2,
                            script,
                        ) && id2 == id && script@ == spec_plot_script(data@))
                    } else {
                        effects@.len() == 0
                    }
                },
                UserEvent::NewWindowCreated(id) => {
                    &&& final(state)@.registry == spec_unpin(old(state)@.registry, id)
                    &&& final(state)@.blob == old(state)@.blob
                    &&& if old(state)@.registry.live.dom().contains(id) {
                        effects@.len() == 1 && effects@[0] == Effect::Unpin(id)
                    } else {
                        effects@.len() == 0
                    }
                },
                UserEvent::DownloadStarted(uri, path) => final(state)@ == old(state)@
                    && effects@.len() == 0,
                UserEvent::DownloadComplete(fp, success, dp, ei, id) => {
                    &&& final(state)@ == old(state)@
                    &&& match fp {
                        None => effects@.len() == 0,
                        Some(p) => match spec_decode_path(p@) {
                            None => effects@.len() == 0,
                            Some(decoded) => effects@.len() == 1 && (effects@[0] matches
                            Effect::FileCopy(plan) && {
                                &&& plan.from@ == decoded
                                &&& plan.to@ == spec_download_dest(decoded, dp@, ei@)
                                &&& plan.make_dir@ == spec_parent(plan.to@)
                                &&& plan.remove_original == true
                                &&& plan.close_surface == (if ei@.len() > 0 {
                                    Some(id)
                                } else {
                                    None::<u64>
                                })
                            }),
                        },
                    }
                },
                UserEvent::CloseWindow(id) => {
                    &&& final(state)@.registry == spec_close(old(state)@.registry, id)
                    &&& final(state)@.blob == old(state)@.blob
                    &&& if old(state)@.registry.live.dom().contains(id) {
                        effects@.len() == 1 && effects@[0] == Effect::DropWindow(id)
                    } else {
                        effects@.len() == 0
                    }
                },
                UserEvent::BlobReceived(uri, id) => {
                    &&& final(state)@.registry == old(state)@.registry
                    &&& effects@.len() == 0
                    &&& if old(state)@.blob.active {
                        final(state)@.blob == old(state)@.blob
                    } else {
                        final(state)@.blob == (BlobTransferModel {
                            chunks: old(state)@.blob.chunks,
                            active: true,
                            dest: spec_blob_dest(old(state)@.registry, id),
                            owner: Some(id),
                        })
                    }
                },
                UserEvent::BlobChunk(chunk) => match chunk {
                    Some(s) => {
                        &&& final(state)@.registry == old(state)@.registry
                        &&& final(state)@.blob == (BlobTransferModel {
                            chunks: old(state)@.blob.chunks.push(s@),
                            active: true,
                            ..old(state)@.blob
                        })
                        &&& effects@.len() == 0
                    },
                    None => {
                        &&& final(state)@.registry == old(state)@.registry
                        &&& final(state)@.blob == idle_transfer()
                        &&& match (finalize_spec(old(state)@.blob.chunks), old(
                            state,
                        )@.blob.dest) {
                            (Some(bytes), Some(d)) => effects@.len() == 1 && (effects@[0] matches
                            Effect::WriteBlob(dd, bb) && dd@ == d && bb@ == bytes),
                            _ => effects@.len() == 0,
                        }
                    },
                },
                UserEvent::DevTools(id) => {
                    &&& final(state)@ == old(state)@
                    &&& if old(state)@.registry.live.dom().contains(id) {
                        effects@.len() == 1 && effects@[0] == Effect::OpenDevTools(id)
                    } else {
                        effects@.len() == 0
                    }
                },
                UserEvent::OpenFile(fp) => {
                    &&& final(state)@ == old(state)@
                    &&& match fp {
                        None => effects@.len() == 0,
                        Some(p) => match url_decoded(p@) {
                            Some(d) => effects@.len() == 1 && (effects@[0] matches
                            Effect::OpenPath(dd) && dd@ == d),
                            None => effects@.len() == 0,
                        },
                    }
                },
                UserEvent::NewWindow(uri) => {
                    &&& final(state)@ == old(state)@
                    &&& if spec_allowed_popup(uri@) {
                        effects@.len() == 1 && (effects@[0] matches Effect::OpenPopup(u)
                            && u@ == uri@)
                    } else {
                        effects@.len() == 0
                    }
                },
            },
        },
{
    match event {
        LoopEvent::Native => Vec::new(),
        LoopEvent::CloseRequested(id) => close_surface(state, id),
        LoopEvent::User(ev) => match ev {
            UserEvent::NewMessageReceived(msg) => {
                if state.headless {
                    match state.primary {
                        Some(pid) => {
                            let mut v: Vec<Effect> = Vec::new();
                            v.push(Effect::Forward(UserEvent::NewPlot(msg, pid)));
                            v
                        },
                        None => Vec::new(),
                    }
                } else {
                    let mut v: Vec<Effect> = Vec::new();
                    v.push(Effect::CreateWindow(msg));
                    v
                }
            },
            UserEvent::STDout(result) => {
                let line = result_line(result.as_str());
                let mut v: Vec<Effect> = Vec::new();
                v.push(Effect::EmitLine(line));
                v
            },
            UserEvent::NewPlot(data, id) => {
                if state.registry.contains(id) {
                    let plot = PlotData::to_json(data.as_str());
                    let dumped = dump_value(&plot);
                    let mut script = String::from_str("plotly_render(");
                    script.append(dumped.as_str());
                    script.append(");");
                    let mut v: Vec<Effect> = Vec::new();
                    v.push(Effect::EvalScript(id, script));
                    v
                } else {
                    Vec::new()
                }
            },
            UserEvent::NewWindowCreated(id) => {
                let was_live = state.registry.unpin(id);
                if was_live {
                    let mut v: Vec<Effect> = Vec::new();
                    v.push(Effect::Unpin(id));
                    v
                } else {
                    Vec::new()
                }
            },
            UserEvent::DownloadStarted(_uri, _path) => Vec::new(),
            UserEvent::DownloadComplete(fp, _success, dp, ei, id) => {
                match fp {
                    None => Vec::new(),
                    Some(p) => match decode_path(p.as_str()) {
                        None => Vec::new(),
                        Some(decoded) => {
                            let plan = make_download_plan(
                                decoded.as_str(),
                                dp.as_str(),
                                ei.as_str(),
                                id,
                            );
                            let mut v: Vec<Effect> = Vec::new();
                            v.push(Effect::FileCopy(plan));
                            v
                        },
                    },
                }
            },
            UserEvent::CloseWindow(id) => close_surface(state, id),
            UserEvent::BlobReceived(_uri, id) => {
                let dest: Option<String> = match state.registry.get(id) {
                    Some(rec) => {
                        if !rec.export_path.as_str().is_empty() {
                            Some(rec.export_path.clone())
                        } else if !rec.download_path.as_str().is_empty() {
                            Some(rec.download_path.clone())
                        } else {
                            None
                        }
                    },
                    None => None,
                };
                let _accepted = state.blob.begin(dest, id);
                Vec::new()
            },
            UserEvent::BlobChunk(chunk) => {
                match chunk {
                    Some(s) => {
                        state.blob.push_chunk(s);
                        Vec::new()
                    },
                    None => {
                        let (bytes, dest) = state.blob.finish();
                        match (bytes, dest) {
                            (Some(b), Some(d)) => {
                                let mut v: Vec<Effect> = Vec::new();
                                v.push(Effect::WriteBlob(d, b));
                                v
                            },
                            _ => Vec::new(),
                        }
                    },
                }
            },
            UserEvent::DevTools(id) => {
                if state.registry.contains(id) {
                    let mut v: Vec<Effect> = Vec::new();
                    v.push(Effect::OpenDevTools(id));
                    v
                } else {
                    Vec::new()
                }
            },
            UserEvent::OpenFile(fp) => {
                match fp {
                    None => Vec::new(),
                    Some(p) => match url_decode(p.as_str()) {
                        Some(d) => {
                            let mut v: Vec<Effect> = Vec::new();
                            v.push(Effect::OpenPath(d));
                            v
                        },
                        None => Vec::new(),
                    },
                }
            },
            UserEvent::NewWindow(uri) => {
                if allowed_popup(uri.as_str()) {
                    let mut v: Vec<Effect> = Vec::new();
                    v.push(Effect::OpenPopup(uri));
                    v
                } else {
                    Vec::new()
                }
            },
        },
    }
}

/// The egress line for a malformed ingress line.
pub open spec fn spec_invalid_json_line() -> Seq<char> {
    json_text(
        Json::Obj(Map::<Seq<char>, Json>::empty().insert("error"@, Json::Str("Invalid JSON"@))),
    )
}

/// Classifies one ingress line: a line that parses as JSON is forwarded
/// whole; any other line is replaced by an error descriptor, so the
/// pipeline always makes visible progress.
pub fn send_message(message: String) -> (e: UserEvent)
    ensures
        e matches UserEvent::NewMessageReceived(m) && m@ == (match json_src(message@) {
            Some(j) => message@,
            None => spec_invalid_json_line(),
        }),
{
    match parse_json(message.as_str()) {
        Some(_) => UserEvent::NewMessageReceived(message),
        None => {
            let mut v = empty_object();
            object_insert(&mut v, "error", string_value("Invalid JSON"));
            UserEvent::NewMessageReceived(dump_value(&v))
        },
    }
}

/// Registers a surface the GUI collaborator has just built for an
/// interactive request. Refused for a reused id.
pub fn window_built(state: &mut DispatcherState, id: u64, to_show: &Showable) -> (accepted: bool)
    requires
        old(state)@.registry.wf(),
    ensures
        final(state)@.registry.wf(),
        final(state)@.blob == old(state)@.blob,
        final(state)@.console_active == old(state)@.console_active,
        final(state)@.headless == old(state)@.headless,
        final(state)@.primary == old(state)@.primary,
        accepted == !old(state)@.registry.seen.contains(id),
        !accepted ==> final(state)@.registry == old(state)@.registry,
        accepted ==> {
            &&& final(state)@.registry.seen == old(state)@.registry.seen.insert(id)
            &&& final(state)@.registry.live.dom() == old(state)@.registry.live.dom().insert(id)
            &&& {
                let rec = final(state)@.registry.live[id];
                &&& rec.id == id
                &&& rec.kind == SurfaceKind::Normal
                &&& rec.minimized == (to_show@.export_image.len() > 0
                    && !old(state)@.console_active)
                &&& rec.pinned == !rec.minimized
                &&& rec.export_path@ == to_show@.export_image
                &&& rec.download_path@ == to_show@.download_path
            }
            &&& forall|k: u64|
                #[trigger] old(state)@.registry.live.dom().contains(k)
                    ==> final(state)@.registry.live[k] == old(state)@.registry.live[k]
        },
{
    let minimized = !to_show.export_image.as_str().is_empty() && !state.console.active;
    let rec = SurfaceRecord {
        id,
        kind: SurfaceKind::Normal,
        pinned: !minimized,
        minimized,
        export_path: to_show.export_image.clone(),
        download_path: to_show.download_path.clone(),
    };
    let accepted = state.registry.add(rec);
    proof {
        if accepted {
            assert(state@.registry.live.dom() =~= old(state)@.registry.live.dom().insert(id));
        }
    }
    accepted
}

/// Registers the one reusable headless surface, and remembers it as the
/// render target for every later plot.
pub fn headless_window_built(state: &mut DispatcherState, id: u64, to_show: &ShowableHeadless)
    -> (accepted: bool)
    requires
        old(state)@.registry.wf(),
    ensures
        final(state)@.registry.wf(),
        final(state)@.blob == old(state)@.blob,
        final(state)@.console_active == old(state)@.console_active,
        final(state)@.headless == old(state)@.headless,
        accepted == !old(state)@.registry.seen.contains(id),
        !accepted ==> final(state)@.registry == old(state)@.registry && final(state)@.primary
            == old(state)@.primary,
        accepted ==> {
            &&& final(state)@.registry.seen == old(state)@.registry.seen.insert(id)
            &&& final(state)@.registry.live.dom() == old(state)@.registry.live.dom().insert(id)
            &&& {
                let rec = final(state)@.registry.live[id];
                &&& rec.id == id
                &&& rec.kind == SurfaceKind::Headless
                &&& rec.minimized == !old(state)@.console_active
                &&& rec.pinned == false
                &&& rec.export_path@ == to_show@.export_image
                &&& rec.download_path@.len() == 0
            }
            &&& forall|k: u64|
                #[trigger] old(state)@.registry.live.dom().contains(k)
                    ==> final(state)@.registry.live[k] == old(state)@.registry.live[k]
            &&& final(state)@.primary == (match old(state)@.primary {
                Some(p) => Some(p),
                None => Some(id),
            })
        },
{
    let minimized = !state.console.active;
    let rec = SurfaceRecord {
        id,
        kind: SurfaceKind::Headless,
        pinned: false,
        minimized,
        export_path: to_show.export_image.clone(),
        download_path: String::new(),
    };
    let accepted = state.registry.add(rec);
    if accepted {
        proof {
            assert(state@.registry.live.dom() =~= old(state)@.registry.live.dom().insert(id));
        }
        if state.primary.is_none() {
            state.primary = Some(id);
        }
    }
    accepted
}

} // verus!
