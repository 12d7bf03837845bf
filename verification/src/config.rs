use vstd::prelude::*;
use vstd::string::StringExecFns;

verus! {

/// Container format for recorded segment files. The default container is the
/// transport-stream one; `Mp4` is selected explicitly by configuration.
#[derive(Clone, Copy, Debug, PartialEq, Eq, Structural)]
pub enum ContainerFormat {
    Ts,
    Mp4,
}

impl ContainerFormat {
    /// The file extension (without the dot) used by segments in this format.
    pub open spec fn extension_spec(self) -> Seq<char> {
        match self {
            ContainerFormat::Ts => "ts"@,
            ContainerFormat::Mp4 => "mp4"@,
        }
    }

    pub fn extension(self) -> (r: &'static str)
        ensures
            r@ == self.extension_spec(),
    {
        match self {
            ContainerFormat::Ts => "ts",
            ContainerFormat::Mp4 => "mp4",
        }
    }
}

/// Transcoding parameters for one stream; absence means stream-copy mode.
#[derive(Clone, Debug)]
pub struct TranscodePolicy {
    pub v_bitrate: String,
    pub a_bitrate: Option<String>,
    pub codec: Option<String>,
}

/// Options for the external recorder binary itself. Only the unverified
/// shell reads these when it assembles the recorder's command line.
#[derive(Clone, Debug)]
pub struct FfmpegOptions {
    pub path: Option<String>,
    pub rtsp_transport: Option<String>,
    pub extra_input_args: Option<Vec<String>>,
    pub extra_output_args: Option<Vec<String>>,
}

/// One configured stream. `headers` is kept as a key-sorted list of pairs so
/// that header construction is deterministic.
#[derive(Clone, Debug)]
pub struct StreamSpec {
    pub name: String,
    pub url: String,
    pub headers: Vec<(String, String)>,
    pub bearer_token: Option<String>,
    pub transcode: Option<TranscodePolicy>,
}

/// Storage layout and retention policy, shared read-only by every stream
/// supervisor and by the disk janitor.
#[derive(Clone, Debug)]
pub struct StoragePolicy {
    pub root_dir: String,
    pub max_disk_bytes: u64,
    pub segment_time_sec: u64,
    pub segment_target_bytes: Option<u64>,
    /// Accepted configuration; quota enforcement does not consult it.
    pub keep_free_bytes: Option<u64>,
    pub format: ContainerFormat,
    pub log_dir: Option<String>,
}

/// The whole configuration: storage policy, recorder options, stream set.
/// Immutable after startup; the stream set is fixed for the process lifetime.
#[derive(Clone, Debug)]
pub struct Config {
    pub storage: StoragePolicy,
    pub ffmpeg: Option<FfmpegOptions>,
    pub streams: Vec<StreamSpec>,
}

/// Stream names are the identity of a stream: two configured streams may not
/// share one.
pub open spec fn names_unique(streams: Seq<StreamSpec>) -> bool {
    forall|i: int, j: int|
        0 <= i < j < streams.len() ==> streams[i].name@ != streams[j].name@
}

/// Checks that no two configured streams share a name.
pub fn stream_names_unique(streams: &Vec<StreamSpec>) -> (r: bool)
    ensures
        r == names_unique(streams@),
{
    let n = streams.len();
    for i in 0..n
        invariant
            n == streams@.len(),
            forall|p: int, q: int| 0 <= p < q < streams@.len() && p < i ==> streams@[p].name@ != streams@[q].name@,
    {
        let mut j = i + 1;
        while j < n
            invariant
                n == streams@.len(),
                i < j,
                i < n,
                forall|q: int| i < q < j ==> streams@[i as int].name@ != streams@[q].name@,
            decreases n - j,
        {
            if streams[i].name == streams[j].name {
                return false;
            }
            j += 1;
        }
    }
    true
}

/// The directory that holds the persisted per-stream diagnostic logs:
/// configured explicitly, or `<root_dir>/logs` by default.
pub open spec fn effective_log_dir_spec(storage: StoragePolicy) -> Seq<char> {
    match storage.log_dir {
        Some(d) => d@,
        None => storage.root_dir@ + "/logs"@,
    }
}

pub fn effective_log_dir(storage: &StoragePolicy) -> (r: String)
    ensures
        r@ == effective_log_dir_spec(*storage),
{
    match &storage.log_dir {
        Some(d) => d.clone(),
        None => {
            let mut r = storage.root_dir.clone();
            r.append("/logs");
            r
        },
    }
}

/// The directory a stream's segments are written into: `<root_dir>/<name>`.
pub open spec fn stream_dir_spec(storage: StoragePolicy, name: Seq<char>) -> Seq<char> {
    storage.root_dir@ + "/"@ + name
}

pub fn stream_dir(storage: &StoragePolicy, name: &String) -> (r: String)
    ensures
        r@ == stream_dir_spec(*storage, name@),
{
    let mut r = storage.root_dir.clone();
    r.append("/");
    r.append(name.as_str());
    proof {
        assert(r@ =~= storage.root_dir@ + "/"@ + name@);
    }
    r
}

/// The persisted diagnostic log file for one stream: `<log_dir>/<name>.log`.
pub open spec fn log_file_path_spec(log_dir: Seq<char>, name: Seq<char>) -> Seq<char> {
    log_dir + "/"@ + name + ".log"@
}

pub fn log_file_path(log_dir: &String, name: &String) -> (r: String)
    ensures
        r@ == log_file_path_spec(log_dir@, name@),
{
    let mut r = log_dir.clone();
    r.append("/");
    r.append(name.as_str());
    r.append(".log");
    proof {
        assert(r@ =~= log_dir@ + "/"@ + name@ + ".log"@);
    }
    r
}

} // verus!
