//! What each surface handler decides. The GUI collaborator registers the
//! callbacks; each callback's whole decision is one of these functions,
//! and its outcome travels to the dispatcher as events.

use vstd::prelude::*;
use crate::bridge::{BridgeModel, parse_bridge_message, spec_bridge_command};
use crate::console::ConsolePrinter;
use crate::events::UserEvent;
use crate::strutil::{
    spec_starts_with, spec_file_name, spec_join_path, starts_with_lit, file_name_of, join_path,
};

verus! {

/// The events owed for one inbound bridge string: a result is emitted and
/// — for a plain interactive surface with no console — closes its surface;
/// blob fragments and the sentinel feed the transfer; the rest map one to
/// one. Unrecognized strings produce nothing.
pub fn ipc_events(message: &str, window_id: u64, is_headless: bool, console: ConsolePrinter) -> (r:
    Vec<UserEvent>)
    ensures
        match spec_bridge_command(message@) {
            BridgeModel::Result(payload) => {
                &&& (r@[0] matches UserEvent::STDout(p) && p@ == payload)
                &&& if !is_headless && !console.active {
                    r@.len() == 2 && r@[1] == UserEvent::CloseWindow(window_id)
                } else {
                    r@.len() == 1
                }
            },
            BridgeModel::Chunk(s) => r@.len() == 1 && (r@[0] matches UserEvent::BlobChunk(c)
                && c matches Some(cc) && cc@ == s),
            BridgeModel::Eof => r@.len() == 1 && (r@[0] matches UserEvent::BlobChunk(c)
                && c is None),
            BridgeModel::OpenFile(p) => r@.len() == 1 && (r@[0] matches UserEvent::OpenFile(fp)
                && fp matches Some(ff) && ff@ == p),
            BridgeModel::DevTools => r@.len() == 1 && r@[0] == UserEvent::DevTools(window_id),
            BridgeModel::Unrecognized => r@.len() == 0,
        },
{
    let mut out: Vec<UserEvent> = Vec::new();
    match parse_bridge_message(message) {
        crate::bridge::BridgeCommand::Result(payload) => {
            out.push(UserEvent::STDout(payload));
            if !is_headless && !console.active {
                out.push(UserEvent::CloseWindow(window_id));
            }
        },
        crate::bridge::BridgeCommand::Chunk(s) => {
            out.push(UserEvent::BlobChunk(Some(s)));
        },
        crate::bridge::BridgeCommand::Eof => {
            out.push(UserEvent::BlobChunk(None));
        },
        crate::bridge::BridgeCommand::OpenFile(p) => {
            out.push(UserEvent::OpenFile(Some(p)));
        },
        crate::bridge::BridgeCommand::DevTools => {
            out.push(UserEvent::DevTools(window_id));
        },
        crate::bridge::BridgeCommand::Unrecognized => {},
    }
    out
}

/// The event for a beginning native download: a blob uri is intercepted
/// (its bytes will arrive over the bridge instead), anything else is let
/// through and only recorded.
pub fn on_download_started(uri: String, default_path: String, window_id: u64) -> (e: UserEvent)
    ensures
        if spec_starts_with(uri@, "blob:"@) {
            e matches UserEvent::BlobReceived(u, id) && u@ == uri@ && id == window_id
        } else {
            e matches UserEvent::DownloadStarted(u, p) && u@ == uri@ && p@ == default_path@
        },
{
    if starts_with_lit(uri.as_str(), "blob:") {
        UserEvent::BlobReceived(uri, window_id)
    } else {
        UserEvent::DownloadStarted(uri, default_path)
    }
}

/// The event for a finished native download; a missing path degrades to an
/// empty one.
pub fn on_download_completed(
    filepath: Option<String>,
    success: bool,
    download_path: String,
    export_image: String,
    window_id: u64,
) -> (e: UserEvent)
    ensures
        e matches UserEvent::DownloadComplete(fp, s, dp, ei, id) && {
            &&& fp matches Some(f) && f@ == (match filepath {
                Some(p) => p@,
                None => Seq::<char>::empty(),
            })
            &&& s == success
            &&& dp@ == download_path@
            &&& ei@ == export_image@
            &&& id == window_id
        },
{
    let path = match filepath {
        Some(p) => p,
        None => String::new(),
    };
    UserEvent::DownloadComplete(Some(path), success, download_path, export_image, window_id)
}

/// Where a beginning download is redirected when the platform rewrites the
/// suggested path in place: the export destination wins over the download
/// directory; a destination that is a directory gains the suggested file
/// name.
pub open spec fn spec_rewritten_path(
    default_path: Seq<char>,
    download: Seq<char>,
    export: Seq<char>,
    export_is_dir: bool,
    download_is_dir: bool,
) -> Seq<char> {
    if export.len() > 0 {
        if export_is_dir {
            spec_join_path(export, spec_file_name(default_path))
        } else {
            export
        }
    } else if download.len() > 0 {
        if download_is_dir {
            spec_join_path(download, spec_file_name(default_path))
        } else {
            download
        }
    } else {
        default_path
    }
}

pub fn rewrite_download_path(
    default_path: &str,
    download_path: &str,
    export_image: &str,
    export_is_dir: bool,
    download_is_dir: bool,
) -> (r: String)
    ensures
        r@ == spec_rewritten_path(
            default_path@,
            download_path@,
            export_image@,
            export_is_dir,
            download_is_dir,
        ),
{
    if !export_image.is_empty() {
        if export_is_dir {
            let name = file_name_of(default_path);
            join_path(export_image, name.as_str())
        } else {
            String::from_str(export_image)
        }
    } else if !download_path.is_empty() {
        if download_is_dir {
            let name = file_name_of(default_path);
            join_path(download_path, name.as_str())
        } else {
            String::from_str(download_path)
        }
    } else {
        String::from_str(default_path)
    }
}

/// The context one surface's native callbacks close over, fixed when the
/// handlers are registered at creation time.
pub struct SurfaceHandlers {
    pub window_id: u64,
    pub download_path: String,
    pub export_image: String,
    pub is_headless: bool,
    pub console: ConsolePrinter,
}

/// Fixes the callback context of one surface; an unspecified mode means
/// interactive.
pub fn add_handlers(
    window_id: u64,
    download_path: String,
    export_image: String,
    is_headless: Option<bool>,
    console: ConsolePrinter,
) -> (r: SurfaceHandlers)
    ensures
        r.window_id == window_id,
        r.download_path@ == download_path@,
        r.export_image@ == export_image@,
        r.is_headless == (is_headless matches Some(true)),
        r.console == console,
{
    let headless = match is_headless {
        Some(b) => b,
        None => false,
    };
    SurfaceHandlers { window_id, download_path, export_image, is_headless: headless, console }
}

impl SurfaceHandlers {
    /// The inbound text channel callback.
    pub fn on_ipc(&self, message: &str) -> (r: Vec<UserEvent>)
        ensures
            match spec_bridge_command(message@) {
                BridgeModel::Result(payload) => {
                    &&& (r@[0] matches UserEvent::STDout(p) && p@ == payload)
                    &&& if !self.is_headless && !self.console.active {
                        r@.len() == 2 && r@[1] == UserEvent::CloseWindow(self.window_id)
                    } else {
                        r@.len() == 1
                    }
                },
                BridgeModel::Chunk(s) => r@.len() == 1 && (r@[0] matches UserEvent::BlobChunk(c)
                    && c matches Some(cc) && cc@ == s),
                BridgeModel::Eof => r@.len() == 1 && (r@[0] matches UserEvent::BlobChunk(c)
                    && c is None),
                BridgeModel::OpenFile(p) => r@.len() == 1 && (r@[0] matches UserEvent::OpenFile(
                    fp,
                ) && fp matches Some(ff) && ff@ == p),
                BridgeModel::DevTools => r@.len() == 1 && r@[0] == UserEvent::DevTools(
                    self.window_id,
                ),
                BridgeModel::Unrecognized => r@.len() == 0,
            },
    {
        ipc_events(message, self.window_id, self.is_headless, self.console)
    }

    /// The download-started callback.
    pub fn on_start(&self, uri: String, default_path: String) -> (e: UserEvent)
        ensures
            if spec_starts_with(uri@, "blob:"@) {
                e matches UserEvent::BlobReceived(u, id) && u@ == uri@ && id == self.window_id
            } else {
                e matches UserEvent::DownloadStarted(u, p) && u@ == uri@ && p@ == default_path@
            },
    {
        on_download_started(uri, default_path, self.window_id)
    }

    /// The download-completed callback: it carries the surface's own
    /// destinations into the event.
    pub fn on_complete(&self, filepath: Option<String>, success: bool) -> (e: UserEvent)
        ensures
            e matches UserEvent::DownloadComplete(fp, s, dp, ei, id) && {
                &&& fp matches Some(f) && f@ == (match filepath {
                    Some(p) => p@,
                    None => Seq::<char>::empty(),
                })
                &&& s == success
                &&& dp@ == self.download_path@
                &&& ei@ == self.export_image@
                &&& id == self.window_id
            },
    {
        on_download_completed(
            filepath,
            success,
            self.download_path.clone(),
            self.export_image.clone(),
            self.window_id,
        )
    }
}

} // verus!
