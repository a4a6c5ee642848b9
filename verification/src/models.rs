//! The model manager's catalog and path logic.
//!
//! Four recognition models are compiled in. Everything that can be decided
//! from plain values is decided here: resolving ids against the catalog,
//! deriving the on-disk paths (models directory, settings file, final and
//! temporary download names), mapping filesystem presence to the status
//! list, and the bookkeeping of a streaming download. The host layer
//! performs the actual filesystem and network work.

use crate::errors::ModelError;
use crate::text::str_eq;
use vstd::prelude::*;
use vstd::string::StringExecFns;

verus! {

/// Number of catalog entries.
pub const MODEL_COUNT: usize = 4;

/// The id of catalog entry `i`.
pub open spec fn catalog_id(i: int) -> Seq<char> {
    if i == 0 {
        "tiny"@
    } else if i == 1 {
        "base"@
    } else if i == 2 {
        "small"@
    } else {
        "medium"@
    }
}

/// The on-disk file name of catalog entry `i`.
pub open spec fn catalog_filename(i: int) -> Seq<char> {
    if i == 0 {
        "ggml-tiny.bin"@
    } else if i == 1 {
        "ggml-base.bin"@
    } else if i == 2 {
        "ggml-small.bin"@
    } else {
        "ggml-medium.bin"@
    }
}

/// The download location of catalog entry `i`.
pub open spec fn catalog_url(i: int) -> Seq<char> {
    if i == 0 {
        "https://huggingface.co/ggerganov/whisper.cpp/resolve/main/ggml-tiny.bin"@
    } else if i == 1 {
        "https://huggingface.co/ggerganov/whisper.cpp/resolve/main/ggml-base.bin"@
    } else if i == 2 {
        "https://huggingface.co/ggerganov/whisper.cpp/resolve/main/ggml-small.bin"@
    } else {
        "https://huggingface.co/ggerganov/whisper.cpp/resolve/main/ggml-medium.bin"@
    }
}

/// The declared size in bytes of catalog entry `i`, used when a server
/// omits the content length.
pub open spec fn catalog_size(i: int) -> u64 {
    if i == 0 {
        75000000
    } else if i == 1 {
        142000000
    } else if i == 2 {
        466000000
    } else {
        1530000000
    }
}

/// The human description of catalog entry `i`.
pub open spec fn catalog_description(i: int) -> Seq<char> {
    if i == 0 {
        "Tiny (~75MB) - Fastest, lower accuracy"@
    } else if i == 1 {
        "Base (~142MB) - Good balance"@
    } else if i == 2 {
        "Small (~466MB) - Better accuracy"@
    } else {
        "Medium (~1.5GB) - Best accuracy, slower"@
    }
}

/// The catalog position of an id, or -1 when the id is unknown.
pub open spec fn catalog_index_of(id: Seq<char>) -> int {
    if id == catalog_id(0) {
        0
    } else if id == catalog_id(1) {
        1
    } else if id == catalog_id(2) {
        2
    } else if id == catalog_id(3) {
        3
    } else {
        -1
    }
}

/// A compiled-in catalog entry.
pub struct ModelInfo {
    /// Short identifier used by the command surface.
    pub id: String,
    /// File name the model is stored under once downloaded.
    pub filename: String,
    /// Where the model is fetched from.
    pub url: String,
    /// Declared download size in bytes.
    pub size_bytes: u64,
    /// Human-readable description shown in the interface.
    pub description: String,
}

/// A catalog entry together with its local availability, derived on demand
/// from filesystem presence and never persisted.
pub struct ModelStatus {
    /// The catalog entry.
    pub info: ModelInfo,
    /// Whether the model's file is present locally.
    pub downloaded: bool,
    /// The resolved local path, exactly when the model is downloaded.
    pub path: Option<String>,
}

/// The entry value equals catalog entry `i` field for field.
pub open spec fn info_matches(m: ModelInfo, i: int) -> bool {
    &&& m.id@ == catalog_id(i)
    &&& m.filename@ == catalog_filename(i)
    &&& m.url@ == catalog_url(i)
    &&& m.size_bytes == catalog_size(i)
    &&& m.description@ == catalog_description(i)
}

/// Builds catalog entry `i`.
pub fn catalog_entry(i: usize) -> (m: ModelInfo)
    requires
        i < 4,
    ensures
        info_matches(m, i as int),
{
    if i == 0 {
        ModelInfo {
            id: String::from_str("tiny"),
            filename: String::from_str("ggml-tiny.bin"),
            url: String::from_str(
                "https://huggingface.co/ggerganov/whisper.cpp/resolve/main/ggml-tiny.bin",
            ),
            size_bytes: 75000000,
            description: String::from_str("Tiny (~75MB) - Fastest, lower accuracy"),
        }
    } else if i == 1 {
        ModelInfo {
            id: String::from_str("base"),
            filename: String::from_str("ggml-base.bin"),
            url: String::from_str(
                "https://huggingface.co/ggerganov/whisper.cpp/resolve/main/ggml-base.bin",
            ),
            size_bytes: 142000000,
            description: String::from_str("Base (~142MB) - Good balance"),
        }
    } else if i == 2 {
        ModelInfo {
            id: String::from_str("small"),
            filename: String::from_str("ggml-small.bin"),
            url: String::from_str(
                "https://huggingface.co/ggerganov/whisper.cpp/resolve/main/ggml-small.bin",
            ),
            size_bytes: 466000000,
            description: String::from_str("Small (~466MB) - Better accuracy"),
        }
    } else {
        ModelInfo {
            id: String::from_str("medium"),
            filename: String::from_str("ggml-medium.bin"),
            url: String::from_str(
                "https://huggingface.co/ggerganov/whisper.cpp/resolve/main/ggml-medium.bin",
            ),
            size_bytes: 1530000000,
            description: String::from_str("Medium (~1.5GB) - Best accuracy, slower"),
        }
    }
}

/// Builds the whole compiled-in catalog, in order.
pub fn model_catalog() -> (r: Vec<ModelInfo>)
    ensures
        r@.len() == 4,
        forall|i: int| 0 <= i < 4 ==> info_matches(#[trigger] r@[i], i),
{
    let mut v: Vec<ModelInfo> = Vec::new();
    v.push(catalog_entry(0));
    v.push(catalog_entry(1));
    v.push(catalog_entry(2));
    v.push(catalog_entry(3));
    v
}

/// The directory models live in, under the application-data root.
pub open spec fn models_dir_spec(root: Seq<char>) -> Seq<char> {
    root + "/models"@
}

/// Derives the models directory from the application-data root.
pub fn models_dir(root: &str) -> (r: String)
    ensures
        r@ == models_dir_spec(root@),
{
    let mut s = String::from_str(root);
    s.append("/models");
    s
}

/// The settings file, under the application-data root.
pub open spec fn settings_path_spec(root: Seq<char>) -> Seq<char> {
    root + "/whisper-settings.json"@
}

/// Derives the settings file path from the application-data root.
pub fn settings_path(root: &str) -> (r: String)
    ensures
        r@ == settings_path_spec(root@),
{
    let mut s = String::from_str(root);
    s.append("/whisper-settings.json");
    s
}

/// The canonical on-disk path of catalog entry `i`.
pub open spec fn model_file_path(root: Seq<char>, i: int) -> Seq<char> {
    models_dir_spec(root) + "/"@ + catalog_filename(i)
}

/// The temporary name a download streams into before the atomic rename.
pub open spec fn tmp_file_path(root: Seq<char>, i: int) -> Seq<char> {
    model_file_path(root, i) + ".tmp"@
}

/// Resolves an id against the catalog.
pub fn catalog_lookup(id: &str) -> (r: Option<usize>)
    ensures
        catalog_index_of(id@) < 0 ==> r is None,
        catalog_index_of(id@) >= 0 ==> r == Some(catalog_index_of(id@) as usize),
{
    if str_eq(id, "tiny") {
        Some(0)
    } else if str_eq(id, "base") {
        Some(1)
    } else if str_eq(id, "small") {
        Some(2)
    } else if str_eq(id, "medium") {
        Some(3)
    } else {
        None
    }
}

/// Builds the file name of catalog entry `i`.
fn catalog_filename_exec(i: usize) -> (r: String)
    requires
        i < 4,
    ensures
        r@ == catalog_filename(i as int),
{
    if i == 0 {
        String::from_str("ggml-tiny.bin")
    } else if i == 1 {
        String::from_str("ggml-base.bin")
    } else if i == 2 {
        String::from_str("ggml-small.bin")
    } else {
        String::from_str("ggml-medium.bin")
    }
}

/// Builds the canonical path of catalog entry `i`.
fn model_file_path_exec(root: &str, i: usize) -> (r: String)
    requires
        i < 4,
    ensures
        r@ == model_file_path(root@, i as int),
{
    let mut s = models_dir(root);
    s.append("/");
    let name = catalog_filename_exec(i);
    s.append(name.as_str());
    s
}

/// The canonical on-disk path for an id: present exactly when the id is in
/// the catalog. Never touches the filesystem.
pub fn model_path(root: &str, id: &str) -> (r: Option<String>)
    ensures
        catalog_index_of(id@) < 0 ==> r is None,
        catalog_index_of(id@) >= 0 ==> (r matches Some(p) && p@ == model_file_path(
            root@,
            catalog_index_of(id@),
        )),
{
    match catalog_lookup(id) {
        None => None,
        Some(i) => Some(model_file_path_exec(root, i)),
    }
}

/// The status entry for catalog position `i`, given whether its file is
/// present.
pub open spec fn status_matches(st: ModelStatus, root: Seq<char>, present: bool, i: int) -> bool {
    &&& info_matches(st.info, i)
    &&& st.downloaded == present
    &&& match st.path {
        Option::Some(p) => present && p@ == model_file_path(root, i),
        Option::None => !present,
    }
}

/// Maps filesystem presence to the status list: one entry per catalog
/// model, in catalog order, `downloaded` reflecting presence exactly and
/// the resolved path attached exactly when present. The host layer supplies
/// one presence bit per catalog entry; this function never touches the
/// filesystem itself.
pub fn list_models(root: &str, present: &Vec<bool>) -> (r: Vec<ModelStatus>)
    requires
        present@.len() == 4,
    ensures
        r@.len() == 4,
        forall|i: int| 0 <= i < 4 ==> status_matches(#[trigger] r@[i], root@, present@[i], i),
{
    let mut out: Vec<ModelStatus> = Vec::new();
    let mut i: usize = 0;
    while i < 4
        invariant
            present@.len() == 4,
            i <= 4,
            out@.len() == i,
            forall|k: int| 0 <= k < i ==> status_matches(#[trigger] out@[k], root@, present@[k], k),
        decreases 4 - i,
    {
        let info = catalog_entry(i);
        let downloaded = present[i];
        let path: Option<String> = if downloaded {
            Some(model_file_path_exec(root, i))
        } else {
            None
        };
        out.push(ModelStatus { info, downloaded, path });
        i = i + 1;
    }
    out
}

/// Everything the host layer needs to perform one download: where to fetch
/// from, where to stream to, and where the finished file is renamed to.
pub struct DownloadPlan {
    /// The remote location.
    pub url: String,
    /// The canonical final path; nothing may be written here before the
    /// download has fully succeeded.
    pub final_path: String,
    /// The distinct temporary path the stream is written to.
    pub tmp_path: String,
    /// The catalog's declared size, the fallback when the server omits the
    /// content length.
    pub expected_size: u64,
}

/// Resolves a download request. An unknown id fails immediately — before
/// any directory or file is created — and a known id yields the full plan,
/// whose temporary path always differs from the final path.
pub fn plan_download(root: &str, id: &str) -> (r: Result<DownloadPlan, ModelError>)
    ensures
        catalog_index_of(id@) < 0 ==> (r matches Err(e) && e matches ModelError::UnknownModel {
            id: bad,
        } && bad@ == id@),
        catalog_index_of(id@) >= 0 ==> (r matches Ok(p) && {
            let i = catalog_index_of(id@);
            &&& p.url@ == catalog_url(i)
            &&& p.final_path@ == model_file_path(root@, i)
            &&& p.tmp_path@ == tmp_file_path(root@, i)
            &&& p.expected_size == catalog_size(i)
            &&& p.tmp_path@ != p.final_path@
        }),
{
    match catalog_lookup(id) {
        None => Err(ModelError::UnknownModel { id: String::from_str(id) }),
        Some(i) => {
            let info = catalog_entry(i);
            let final_path = model_file_path_exec(root, i);
            let mut tmp_path = final_path.clone();
            tmp_path.append(".tmp");
            proof {
                reveal_strlit(".tmp");
                assert(tmp_path@.len() == final_path@.len() + 4);
            }
            Ok(
                DownloadPlan {
                    url: info.url,
                    final_path,
                    tmp_path,
                    expected_size: info.size_bytes,
                },
            )
        },
    }
}

/// The total to report progress against: the server's content length when
/// it gives one, else the catalog's declared size.
pub fn progress_total(content_length: Option<u64>, declared_size: u64) -> (t: u64)
    ensures
        content_length matches Some(n) ==> t == n,
        content_length is None ==> t == declared_size,
{
    match content_length {
        Some(n) => n,
        None => declared_size,
    }
}

/// Advances the running byte count after one received chunk.
pub fn advance_progress(done: u64, chunk_len: u64) -> (r: u64)
    requires
        done + chunk_len <= u64::MAX,
    ensures
        r == done + chunk_len,
{
    done + chunk_len
}

/// Resolves a model-activation request: the id must be known and its file
/// already downloaded; the result is the path to load.
pub fn plan_activation(root: &str, id: &str, downloaded: bool) -> (r: Result<String, ModelError>)
    ensures
        catalog_index_of(id@) < 0 ==> (r matches Err(e) && e matches ModelError::UnknownModel {
            id: bad,
        } && bad@ == id@),
        catalog_index_of(id@) >= 0 && !downloaded ==> (r matches Err(e) && e matches
            ModelError::NotDownloaded { id: bad } && bad@ == id@),
        catalog_index_of(id@) >= 0 && downloaded ==> (r matches Ok(p) && p@ == model_file_path(
            root@,
            catalog_index_of(id@),
        )),
{
    match catalog_lookup(id) {
        None => Err(ModelError::UnknownModel { id: String::from_str(id) }),
        Some(i) => {
            if !downloaded {
                Err(ModelError::NotDownloaded { id: String::from_str(id) })
            } else {
                Ok(model_file_path_exec(root, i))
            }
        },
    }
}

} // verus!
