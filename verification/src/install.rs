//! What to download and where to put it, and the decisions of one file's
//! download: when to fetch, keep, reject, retry or give up.

use vstd::prelude::*;
use crate::arguments::{
    compatible_libraries, library_path, log_config_path, rules_admit, version_dir, version_jar_path,
};
use crate::digest::{sha1_hex, sha1_hex_of};
use crate::manifest::{AssetIndex, Assets, DownloadInfo, LibraryInfo, MinecraftManifest};
use crate::paths::{concatenated, join_path, joined_path, windows_host, is_windows};
use crate::rules::{context_for, context_on, no_features, HostInfo, LaunchFeatures};
use crate::text::str_eq;

verus! {

/// A file to install: where it goes and where it comes from.
pub struct FileDownload {
    pub path: String,
    pub info: DownloadInfo,
}

/// Where the manifest of version `id` is saved.
pub open spec fn version_json_file(base: Seq<char>, id: Seq<char>, windows: bool) -> Seq<char> {
    joined_path(version_dir(base, id, windows), id + ".json"@, windows)
}

/// Where an asset index is saved.
pub open spec fn asset_index_file(base: Seq<char>, index: AssetIndex, windows: bool) -> Seq<char> {
    joined_path(
        joined_path(joined_path(base, "assets"@, windows), "indexes"@, windows),
        index.id@ + ".json"@,
        windows,
    )
}

/// The directory of asset objects.
pub open spec fn asset_objects_dir(base: Seq<char>, windows: bool) -> Seq<char> {
    joined_path(joined_path(base, "assets"@, windows), "objects"@, windows)
}

/// Whether the first two bytes of the UTF-8 text `h` end on a character
/// boundary, so that `&h[..2]` exists.
pub open spec fn has_two_byte_prefix(h: Seq<char>) -> bool {
    ||| (h.len() >= 2 && (h[0] as u32) < 0x80 && (h[1] as u32) < 0x80)
    ||| (h.len() >= 1 && 0x80 <= (h[0] as u32) && (h[0] as u32) < 0x800)
}

/// The characters of the first two bytes of `h`.
pub open spec fn two_byte_prefix(h: Seq<char>) -> Seq<char> {
    if (h[0] as u32) < 0x80 {
        h.take(2)
    } else {
        h.take(1)
    }
}

/// Where an asset object goes and where it comes from: under a directory
/// named after the first two bytes of its hash, on the resource server.
pub open spec fn asset_download_ok(d: FileDownload, base: Seq<char>, obj_hash: Seq<char>, obj_size: u64, windows: bool) -> bool {
    let prefix = two_byte_prefix(obj_hash);
    &&& d.path@ == joined_path(joined_path(asset_objects_dir(base, windows), prefix, windows), obj_hash, windows)
    &&& d.info.sha1@ == obj_hash
    &&& d.info.size == obj_size
    &&& d.info.url@ == "https://resources.download.minecraft.net"@ + "/"@ + prefix + "/"@ + obj_hash
}

/// Where the manifest of version `id` is saved.
pub fn version_json_path(base_dir: &str, id: &str, windows: bool) -> (r: String)
    ensures
        r@ == version_json_file(base_dir@, id@, windows),
{
    let versions = join_path(base_dir, "versions", windows);
    let dir = join_path(versions.as_str(), id, windows);
    let name = concatenated(id, ".json");
    join_path(dir.as_str(), name.as_str(), windows)
}

/// Where the client jar of a version goes.
pub fn client_jar_path(minecraft_manifest: &MinecraftManifest, base_dir: &str, windows: bool) -> (r:
    String)
    ensures
        r@ == version_jar_path(base_dir@, minecraft_manifest.id@, windows),
{
    let versions = join_path(base_dir, "versions", windows);
    let dir = join_path(versions.as_str(), minecraft_manifest.id.as_str(), windows);
    let name = concatenated(minecraft_manifest.id.as_str(), ".jar");
    join_path(dir.as_str(), name.as_str(), windows)
}

/// Where an asset index is saved.
pub fn asset_index_path(asset_index: &AssetIndex, base_dir: &str, windows: bool) -> (r: String)
    ensures
        r@ == asset_index_file(base_dir@, *asset_index, windows),
{
    let assets = join_path(base_dir, "assets", windows);
    let indexes = join_path(assets.as_str(), "indexes", windows);
    let name = concatenated(asset_index.id.as_str(), ".json");
    join_path(indexes.as_str(), name.as_str(), windows)
}

/// The directory of asset objects.
pub fn asset_objects_path(base_dir: &str, windows: bool) -> (r: String)
    ensures
        r@ == asset_objects_dir(base_dir@, windows),
{
    let assets = join_path(base_dir, "assets", windows);
    join_path(assets.as_str(), "objects", windows)
}

/// The logging configuration of a version: where it goes and where it comes from.
pub fn log_config_download(minecraft_manifest: &MinecraftManifest, base_dir: &str, windows: bool) -> (r:
    FileDownload)
    ensures
        r.path@ == log_config_path(base_dir@, *minecraft_manifest, windows),
        r.info == minecraft_manifest.logging.client.file.info,
{
    let assets = join_path(base_dir, "assets", windows);
    let configs = join_path(assets.as_str(), "log-configs", windows);
    let path = join_path(configs.as_str(), minecraft_manifest.logging.client.file.id.as_str(), windows);
    FileDownload { path, info: minecraft_manifest.logging.client.file.info.duplicate() }
}

/// The client jar of a version: where it goes and where it comes from.
pub fn client_download(minecraft_manifest: &MinecraftManifest, base_dir: &str, windows: bool) -> (r:
    FileDownload)
    ensures
        r.path@ == version_jar_path(base_dir@, minecraft_manifest.id@, windows),
        r.info == minecraft_manifest.downloads.client,
{
    FileDownload {
        path: client_jar_path(minecraft_manifest, base_dir, windows),
        info: minecraft_manifest.downloads.client.duplicate(),
    }
}

/// The libraries of a version that the host needs (those whose rules admit
/// them with no launch feature on), in manifest order.
pub fn libraries_to_install(minecraft_manifest: &MinecraftManifest, base_dir: &str, host: &HostInfo) -> (r:
    Vec<FileDownload>)
    ensures
        ({
            let libs = compatible_libraries(
                minecraft_manifest.libraries@,
                context_on(*host, no_features()),
            );
            &&& r@.len() == libs.len()
            &&& forall|i: int|
                0 <= i < libs.len() ==> {
                    &&& (#[trigger] r@[i]).path@ == library_path(base_dir@, libs[i], is_windows(host.os@))
                    &&& r@[i].info == libs[i].downloads.artifact.info
                }
        }),
{
    let windows = windows_host(host.os.as_str());
    let features = LaunchFeatures::default();
    let context = context_for(host, features);
    assert(features == no_features());
    let ghost ctx = context@;
    let libs = &minecraft_manifest.libraries;
    let libraries_dir = join_path(base_dir, "libraries", windows);
    let mut out: Vec<FileDownload> = Vec::new();
    let n = libs.len();
    assert(libs@.take(0) =~= Seq::<LibraryInfo>::empty());
    for i in 0..n
        invariant
            n == libs@.len(),
            ctx == context@,
            windows == is_windows(host.os@),
            libraries_dir@ == joined_path(base_dir@, "libraries"@, windows),
            ({
                let sel = compatible_libraries(libs@.take(i as int), ctx);
                &&& out@.len() == sel.len()
                &&& forall|k: int|
                    0 <= k < sel.len() ==> {
                        &&& (#[trigger] out@[k]).path@ == library_path(base_dir@, sel[k], windows)
                        &&& out@[k].info == sel[k].downloads.artifact.info
                    }
            }),
    {
        assert(libs@.take(i + 1).drop_last() =~= libs@.take(i as int));
        assert(libs@.take(i + 1).last() == libs@[i as int]);
        let lib = &libs[i];
        if rules_admit(&lib.rules, &context) {
            let path = join_path(
                libraries_dir.as_str(),
                lib.downloads.artifact.path.as_str(),
                windows,
            );
            out.push(FileDownload { path, info: lib.downloads.artifact.info.duplicate() });
        }
    }
    assert(libs@.take(n as int) =~= libs@);
    out
}

fn two_byte_prefix_of(hash: &str) -> (r: String)
    requires
        has_two_byte_prefix(hash@),
    ensures
        r@ == two_byte_prefix(hash@),
{
    let cs = crate::text::chars_of(hash);
    let mut out: Vec<char> = Vec::new();
    out.push(cs[0]);
    if (cs[0] as u32) < 0x80 {
        out.push(cs[1]);
        assert(out@ =~= hash@.take(2));
    } else {
        assert(out@ =~= hash@.take(1));
    }
    crate::text::string_from_chars(&out)
}

/// The asset objects of an index: each goes under the objects directory in
/// a subdirectory named after the first two bytes of its hash, and comes
/// from the resource server at `<first two bytes>/<hash>`; its hash is its
/// expected SHA-1.  Every hash must have such a two-byte prefix.
pub fn assets_to_install(assets: &Assets, base_dir: &str, windows: bool) -> (r: Vec<FileDownload>)
    requires
        forall|i: int|
            0 <= i < assets.objects@.len() ==> has_two_byte_prefix(
                (#[trigger] assets.objects@[i]).hash@,
            ),
    ensures
        r@.len() == assets.objects@.len(),
        forall|i: int|
            0 <= i < r@.len() ==> asset_download_ok(
                #[trigger] r@[i],
                base_dir@,
                assets.objects@[i].hash@,
                assets.objects@[i].size,
                windows,
            ),
{
    let objects_dir = asset_objects_path(base_dir, windows);
    let mut out: Vec<FileDownload> = Vec::new();
    let n = assets.objects.len();
    for i in 0..n
        invariant
            n == assets.objects@.len(),
            objects_dir@ == asset_objects_dir(base_dir@, windows),
            forall|i: int|
                0 <= i < assets.objects@.len() ==> has_two_byte_prefix(
                    (#[trigger] assets.objects@[i]).hash@,
                ),
            out@.len() == i,
            forall|k: int|
                0 <= k < i ==> asset_download_ok(
                    #[trigger] out@[k],
                    base_dir@,
                    assets.objects@[k].hash@,
                    assets.objects@[k].size,
                    windows,
                ),
    {
        let obj = &assets.objects[i];
        let hash = obj.hash.as_str();
        let prefix = two_byte_prefix_of(hash);
        let dir = join_path(objects_dir.as_str(), prefix.as_str(), windows);
        let path = join_path(dir.as_str(), hash, windows);
        let u1 = concatenated("https://resources.download.minecraft.net", "/");
        let u2 = concatenated(u1.as_str(), prefix.as_str());
        let u3 = concatenated(u2.as_str(), "/");
        let url = concatenated(u3.as_str(), hash);
        let d = FileDownload { path, info: DownloadInfo { sha1: obj.hash.clone(), size: obj.size, url } };
        assert(asset_download_ok(d, base_dir@, obj.hash@, obj.size, windows));
        out.push(d);
    }
    out
}

/// Whether downloaded bytes are the expected file: same size, same SHA-1.
pub open spec fn content_verified(info: DownloadInfo, data: Seq<u8>) -> bool {
    data.len() == info.size && sha1_hex_of(data) == info.sha1@
}

/// Whether `data` has the size and SHA-1 that `info` expects.
pub fn content_matches(info: &DownloadInfo, data: &[u8]) -> (r: bool)
    ensures
        r == content_verified(*info, data@),
{
    let digest = sha1_hex(data);
    (data.len() as u64) == info.size && str_eq(digest.as_str(), info.sha1.as_str())
}

/// How a file's download ended.
pub enum DownloadOutcome {
    /// A verified copy was fetched and written.
    Installed,
    /// The file on disk already had the expected size and SHA-1.
    AlreadyInstalled,
    /// The last permitted fetch did not verify.
    NotInstalled,
    /// The permitted attempts were used up on copies found on disk.
    Failed,
}

/// What the driver must do next for a file.
pub enum DownloadAction {
    /// Tell whether the file exists.
    CheckExists,
    /// Fetch the URL, create the parent directory, and report the body.
    Fetch,
    /// Report the size of the file on disk.
    ReadSize,
    /// Report the contents of the file on disk.
    ReadFile,
    /// Write these bytes to the file and report it.
    Write(Vec<u8>),
    /// Remove the file (a failure is ignored) and report it.
    Remove,
    /// Stop with this outcome.
    Finish(DownloadOutcome),
}

/// What the driver reports back.
pub enum DownloadEvent {
    Exists(bool),
    Fetched(Vec<u8>),
    Size(u64),
    Contents(Vec<u8>),
    Written,
    Removed,
}

/// Which report the download waits for.
pub enum Awaiting {
    Existence,
    Download,
    Size,
    Contents,
    Write,
    Removal,
    Done,
}

/// The state of one file's download.
pub struct DownloadState {
    pub attempts_left: u8,
    pub awaiting: Awaiting,
}

/// The number of attempts a file gets.
pub open spec fn max_attempts() -> u8 {
    3
}

/// A state that the download can be in: attempts never exceed the maximum,
/// and one remains while the download is not done.
pub open spec fn download_state_ok(s: DownloadState) -> bool {
    &&& s.attempts_left <= max_attempts()
    &&& !(s.awaiting is Done) ==> s.attempts_left > 0
}

/// Whether `e` is the report that state `s` waits for.
pub open spec fn answers(s: DownloadState, e: DownloadEvent) -> bool {
    match (s.awaiting, e) {
        (Awaiting::Existence, DownloadEvent::Exists(_)) => true,
        (Awaiting::Download, DownloadEvent::Fetched(_)) => true,
        (Awaiting::Size, DownloadEvent::Size(_)) => true,
        (Awaiting::Contents, DownloadEvent::Contents(_)) => true,
        (Awaiting::Write, DownloadEvent::Written) => true,
        (Awaiting::Removal, DownloadEvent::Removed) => true,
        _ => false,
    }
}

/// The abstract action: bytes by their view.
pub enum ActionView {
    CheckExists,
    Fetch,
    ReadSize,
    ReadFile,
    Write(Seq<u8>),
    Remove,
    Finish(DownloadOutcome),
}

impl View for DownloadAction {
    type V = ActionView;

    open spec fn view(&self) -> ActionView {
        match self {
            DownloadAction::CheckExists => ActionView::CheckExists,
            DownloadAction::Fetch => ActionView::Fetch,
            DownloadAction::ReadSize => ActionView::ReadSize,
            DownloadAction::ReadFile => ActionView::ReadFile,
            DownloadAction::Write(b) => ActionView::Write(b@),
            DownloadAction::Remove => ActionView::Remove,
            DownloadAction::Finish(o) => ActionView::Finish(*o),
        }
    }
}

/// The next state and action after the report `e` in state `s`:
/// a missing file is fetched and a present one measured; a fetched copy that
/// verifies is written, one that does not costs an attempt (the last one
/// ends the download as not installed); a file on disk of the wrong size is
/// removed, one of the right size is hashed, and kept when its hash matches,
/// removed otherwise; each removal costs an attempt, and when none is left
/// the download has failed.
pub open spec fn download_next(s: DownloadState, info: DownloadInfo, e: DownloadEvent) -> (DownloadState, ActionView) {
    let a = s.attempts_left;
    match e {
        DownloadEvent::Exists(false) => (DownloadState { attempts_left: a, awaiting: Awaiting::Download }, ActionView::Fetch),
        DownloadEvent::Exists(true) => (DownloadState { attempts_left: a, awaiting: Awaiting::Size }, ActionView::ReadSize),
        DownloadEvent::Fetched(b) => if content_verified(info, b@) {
            (DownloadState { attempts_left: a, awaiting: Awaiting::Write }, ActionView::Write(b@))
        } else if a - 1 == 0 {
            (DownloadState { attempts_left: 0, awaiting: Awaiting::Done }, ActionView::Finish(DownloadOutcome::NotInstalled))
        } else {
            (DownloadState { attempts_left: (a - 1) as u8, awaiting: Awaiting::Existence }, ActionView::CheckExists)
        },
        DownloadEvent::Written => (DownloadState { attempts_left: a, awaiting: Awaiting::Done }, ActionView::Finish(DownloadOutcome::Installed)),
        DownloadEvent::Size(n) => if n == info.size {
            (DownloadState { attempts_left: a, awaiting: Awaiting::Contents }, ActionView::ReadFile)
        } else {
            (DownloadState { attempts_left: a, awaiting: Awaiting::Removal }, ActionView::Remove)
        },
        DownloadEvent::Contents(b) => if sha1_hex_of(b@) == info.sha1@ {
            (DownloadState { attempts_left: a, awaiting: Awaiting::Done }, ActionView::Finish(DownloadOutcome::AlreadyInstalled))
        } else {
            (DownloadState { attempts_left: a, awaiting: Awaiting::Removal }, ActionView::Remove)
        },
        DownloadEvent::Removed => if a - 1 > 0 {
            (DownloadState { attempts_left: (a - 1) as u8, awaiting: Awaiting::Existence }, ActionView::CheckExists)
        } else {
            (DownloadState { attempts_left: 0, awaiting: Awaiting::Done }, ActionView::Finish(DownloadOutcome::Failed))
        },
    }
}

/// The first state and action of a download: all attempts left, check
/// whether the file exists.
pub fn download_start() -> (r: (DownloadState, DownloadAction))
    ensures
        r.0 == (DownloadState { attempts_left: max_attempts(), awaiting: Awaiting::Existence }),
        r.1@ == ActionView::CheckExists,
        download_state_ok(r.0),
{
    (DownloadState { attempts_left: 3, awaiting: Awaiting::Existence }, DownloadAction::CheckExists)
}

/// The next state and action after the report `event` (see [`download_next`]).
pub fn download_step(state: &DownloadState, info: &DownloadInfo, event: DownloadEvent) -> (r: (
    DownloadState,
    DownloadAction,
))
    requires
        download_state_ok(*state),
        answers(*state, event),
    ensures
        r.0 == download_next(*state, *info, event).0,
        r.1@ == download_next(*state, *info, event).1,
        download_state_ok(r.0),
{
    let a = state.attempts_left;
    match event {
        DownloadEvent::Exists(false) => (DownloadState { attempts_left: a, awaiting: Awaiting::Download }, DownloadAction::Fetch),
        DownloadEvent::Exists(true) => (DownloadState { attempts_left: a, awaiting: Awaiting::Size }, DownloadAction::ReadSize),
        DownloadEvent::Fetched(b) => {
            if content_matches(info, b.as_slice()) {
                (DownloadState { attempts_left: a, awaiting: Awaiting::Write }, DownloadAction::Write(b))
            } else if a - 1 == 0 {
                (DownloadState { attempts_left: 0, awaiting: Awaiting::Done }, DownloadAction::Finish(DownloadOutcome::NotInstalled))
            } else {
                (DownloadState { attempts_left: a - 1, awaiting: Awaiting::Existence }, DownloadAction::CheckExists)
            }
        },
        DownloadEvent::Written => (DownloadState { attempts_left: a, awaiting: Awaiting::Done }, DownloadAction::Finish(DownloadOutcome::Installed)),
        DownloadEvent::Size(n) => {
            if n == info.size {
                (DownloadState { attempts_left: a, awaiting: Awaiting::Contents }, DownloadAction::ReadFile)
            } else {
                (DownloadState { attempts_left: a, awaiting: Awaiting::Removal }, DownloadAction::Remove)
            }
        },
        DownloadEvent::Contents(b) => {
            let h = sha1_hex(b.as_slice());
            if str_eq(h.as_str(), info.sha1.as_str()) {
                (DownloadState { attempts_left: a, awaiting: Awaiting::Done }, DownloadAction::Finish(DownloadOutcome::AlreadyInstalled))
            } else {
                (DownloadState { attempts_left: a, awaiting: Awaiting::Removal }, DownloadAction::Remove)
            }
        },
        DownloadEvent::Removed => {
            if a - 1 > 0 {
                (DownloadState { attempts_left: a - 1, awaiting: Awaiting::Existence }, DownloadAction::CheckExists)
            } else {
                (DownloadState { attempts_left: 0, awaiting: Awaiting::Done }, DownloadAction::Finish(DownloadOutcome::Failed))
            }
        },
    }
}

/// The rank of the report a state waits for, within one attempt.
pub open spec fn awaiting_rank(w: Awaiting) -> int {
    match w {
        Awaiting::Existence => 6,
        Awaiting::Download => 5,
        Awaiting::Size => 5,
        Awaiting::Contents => 4,
        Awaiting::Write => 2,
        Awaiting::Removal => 1,
        Awaiting::Done => 0,
    }
}

/// How far a download is from its end.
pub open spec fn download_measure(s: DownloadState) -> int {
    s.attempts_left * 8 + awaiting_rank(s.awaiting)
}

/// Every answered report brings the download closer to its end, so a
/// download that starts with three attempts ends after at most thirty
/// reports, and never regains an attempt.
pub proof fn lemma_download_progress(s: DownloadState, info: DownloadInfo, e: DownloadEvent)
    requires
        download_state_ok(s),
        answers(s, e),
    ensures
        download_measure(download_next(s, info, e).0) < download_measure(s),
        download_next(s, info, e).0.attempts_left <= s.attempts_left,
        0 <= download_measure(download_next(s, info, e).0),
{
}

/// Only a verified copy is ever written, and a file on disk is only kept when
/// its contents, read after its size matched, have the expected SHA-1.
pub proof fn lemma_download_keeps_only_verified(s: DownloadState, info: DownloadInfo, e: DownloadEvent)
    requires
        download_state_ok(s),
        answers(s, e),
    ensures
        download_next(s, info, e).1 matches ActionView::Write(b) ==> content_verified(info, b),
        download_next(s, info, e).1 == ActionView::Finish(DownloadOutcome::AlreadyInstalled) ==> {
            &&& s.awaiting is Contents
            &&& (e matches DownloadEvent::Contents(b) && sha1_hex_of(b@) == info.sha1@)
        },
{
}

} // verus!
