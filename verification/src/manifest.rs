//! The data of the version list (`version_manifest_v2.json`), of a version's
//! own manifest (`<version>.json`) and of an asset index, as the launcher
//! reads them.

use vstd::prelude::*;
use crate::rules::Rules;
use crate::text::str_eq;

verus! {

/// One entry of the version list.
pub struct Version {
    pub id: String,
    pub version_type: String,
    pub url: String,
}

/// The `latest` part of the version list.
pub struct ManifestLatest {
    pub release: String,
}

/// The version list.
pub struct VersionManifest {
    pub latest: ManifestLatest,
    pub versions: Vec<Version>,
}

/// A version chosen for installation: its id and the URL of its manifest.
pub struct VersionInfo {
    pub id: String,
    pub url: String,
}

/// Where to get a file, with its expected SHA-1 (lower-case hex) and size.
pub struct DownloadInfo {
    pub sha1: String,
    pub size: u64,
    pub url: String,
}

impl DownloadInfo {
    /// A copy of this download description.
    pub fn duplicate(&self) -> (r: Self)
        ensures
            r == *self,
    {
        DownloadInfo { sha1: self.sha1.clone(), size: self.size, url: self.url.clone() }
    }
}

/// The client and server downloads of a version.
pub struct VersionDownload {
    pub client: DownloadInfo,
    pub server: DownloadInfo,
}

/// A library file: its path under the libraries directory and its download.
pub struct DownloadLibraryInfo {
    pub path: String,
    pub info: DownloadInfo,
}

/// The logging configuration file: its name and its download.
pub struct DownloadLoggingInfo {
    pub id: String,
    pub info: DownloadInfo,
}

/// The artifact of a library.
pub struct LibraryArtifact {
    pub artifact: DownloadLibraryInfo,
}

/// A library of a version, with the rules that say where it is needed.
pub struct LibraryInfo {
    pub downloads: LibraryArtifact,
    pub name: String,
    pub rules: Option<Vec<Rules>>,
}

/// The asset index of a version.
pub struct AssetIndex {
    pub id: String,
    pub sha1: String,
    pub size: u64,
    pub total_size: u64,
    pub url: String,
}

/// One asset object: its SHA-1 (lower-case hex) and size.
pub struct AssetObject {
    pub hash: String,
    pub size: u64,
}

/// The objects of an asset index.
pub struct Assets {
    pub objects: Vec<AssetObject>,
}

/// The client logging configuration.
pub struct LoggingClient {
    pub argument: String,
    pub file: DownloadLoggingInfo,
    pub log_type: String,
}

/// The logging part of a version manifest.
pub struct LoggingInfo {
    pub client: LoggingClient,
}

/// The Java runtime that a version asks for.
pub struct JavaVersionInfo {
    pub component: String,
    pub major_version: u8,
}

/// The value of a conditional argument: one string or several.
pub enum ArgumentValue {
    Single(String),
    List(Vec<String>),
}

/// A command-line argument template: unconditional, or guarded by rules.
pub enum Argument {
    Plain(String),
    Conditional { rules: Option<Vec<Rules>>, value: ArgumentValue },
}

/// The argument templates of a version.
pub struct ArgumentsIndex {
    pub game: Vec<Argument>,
    pub jvm: Vec<Argument>,
    pub default_user_jvm: Vec<Argument>,
}

/// A version's own manifest.
pub struct MinecraftManifest {
    pub id: String,
    pub version_type: String,
    pub downloads: VersionDownload,
    pub libraries: Vec<LibraryInfo>,
    pub asset_index: AssetIndex,
    pub logging: LoggingInfo,
    pub main_class: String,
    pub java_version: JavaVersionInfo,
    pub arguments: ArgumentsIndex,
}

/// Whether entry `k` of `versions` is the first one whose id is `id`.
pub open spec fn is_first_with_id(versions: Seq<Version>, id: Seq<char>, k: int) -> bool {
    &&& 0 <= k < versions.len()
    &&& versions[k].id@ == id
    &&& forall|j: int| 0 <= j < k ==> (#[trigger] versions[j]).id@ != id
}

/// The latest release named by the version list, with the manifest URL of
/// the first entry that carries its id; `None` when no entry does.
pub fn find_latest_release(manifest: &VersionManifest) -> (r: Option<VersionInfo>)
    ensures
        match r {
            Some(info) => {
                &&& info.id@ == manifest.latest.release@
                &&& exists|k: int|
                    is_first_with_id(manifest.versions@, manifest.latest.release@, k)
                        && info.url@ == (#[trigger] manifest.versions@[k]).url@
            },
            None => forall|k: int|
                0 <= k < manifest.versions@.len() ==> (#[trigger] manifest.versions@[k]).id@
                    != manifest.latest.release@,
        },
{
    let latest = &manifest.latest.release;
    let n = manifest.versions.len();
    for i in 0..n
        invariant
            n == manifest.versions@.len(),
            latest == manifest.latest.release,
            forall|j: int| 0 <= j < i ==> (#[trigger] manifest.versions@[j]).id@ != latest@,
    {
        let v = &manifest.versions[i];
        if str_eq(v.id.as_str(), latest.as_str()) {
            assert(is_first_with_id(manifest.versions@, latest@, i as int));
            return Some(VersionInfo { id: latest.clone(), url: v.url.clone() });
        }
    }
    None
}

} // verus!
