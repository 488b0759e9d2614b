//! The transfer agent itself: how an object is shaped for the appliance and
//! what is asked of the appliance for it.

use vstd::prelude::*;
use vstd::string::*;

use crate::configuration::Configuration;
use crate::credential_manager::Credential;
use crate::git_lfs::custom_transfer_agent::AgentError;
use crate::git_lfs::git_lfs_parser::{Event, EventView};
use crate::synology_api::file_station::{
    create_folder_params, is_file_name, list_additional, list_params, list_share_additional,
    list_share_params, login_url, spec_download, spec_request, spec_upload,
    DownloadRequest, FileStationView, SynologyFileStation, UploadRequest, UploadRequestView,
};
use crate::synology_api::responses::{listing_contains, names_of, File, SynologyErrorStatus};
use crate::text::{
    before_last_segment, before_last_segment_of, is_root, join_path,
    joined_path, last_segment, last_segment_of, lemma_last_segment_append, opt_view, str_eq,
    strip_suffix, without_suffix,
};

verus! {

/// The name of the lock that sibling agents take before they create the target folder.
pub const CREATE_TARGET_FOLDER_LOCK: &'static str = "git-lfs-synology::MainSubcommand::create_target_folder";

/// Why the agent could not shape a transfer.
#[derive(Clone, Copy, Debug, PartialEq, Eq, Structural)]
pub enum PipelineError {
    /// The event names no object.
    MissingOid,
    /// The event tells no size.
    MissingSize,
    /// The event names no local path.
    MissingPath,
    /// The object's name is too short to place it in the local store.
    InvalidOid,
    /// A remote path holds no `/`.
    NotAbsolute,
    /// The root has no parent.
    NoParent,
    /// There is no client yet.
    NoSession,
    /// A local path names no file.
    NoFileName,
    /// A step was taken that has no place where the agent stands.
    OutOfOrder,
    /// The store holds no credential for the appliance.
    CredentialMissing,
    /// The appliance, or the way to it, failed.
    Station(SynologyErrorStatus),
}

/// How to learn whether a remote path exists.
#[derive(Debug)]
pub enum RemoteProbe {
    /// It is known without asking.
    Known(bool),
    /// List the shares at `url`; the path exists if one of them is called `name`.
    ListShares { url: String, name: String },
    /// List the folder at `url`; the path exists if one of its entries is called `name`.
    List { url: String, name: String },
}

/// A probe as the characters it holds.
pub enum RemoteProbeView {
    Known(bool),
    ListShares { url: Seq<char>, name: Seq<char> },
    List { url: Seq<char>, name: Seq<char> },
}

impl View for RemoteProbe {
    type V = RemoteProbeView;

    open spec fn view(&self) -> RemoteProbeView {
        match *self {
            RemoteProbe::Known(known) => RemoteProbeView::Known(known),
            RemoteProbe::ListShares { url, name } => RemoteProbeView::ListShares {
                url: url@,
                name: name@,
            },
            RemoteProbe::List { url, name } => RemoteProbeView::List { url: url@, name: name@ },
        }
    }
}

/// The transfer agent. It holds the client once `init` has logged in.
#[derive(Debug)]
pub struct MainSubcommand {
    file_station: Option<SynologyFileStation>,
}

/// The session of the agent's client, if it has one.
pub open spec fn station_view(station: Option<SynologyFileStation>) -> Option<FileStationView> {
    match station {
        Some(s) => Some(s@),
        None => None,
    }
}

impl View for MainSubcommand {
    type V = Option<FileStationView>;

    closed spec fn view(&self) -> Option<FileStationView> {
        station_view(self.file_station)
    }
}

/// The name of a remote path: its last segment, and nothing for the root.
pub open spec fn spec_name(path: Seq<char>) -> Seq<char> {
    if is_root(path) {
        Seq::empty()
    } else {
        last_segment(path)
    }
}

/// The parent of a remote path: what stands before its last `/`. The root
/// has none; a path without `/` is refused.
pub open spec fn spec_parent_path(path: Seq<char>) -> Result<Option<Seq<char>>, PipelineError> {
    if is_root(path) {
        Ok(None)
    } else {
        match before_last_segment(path) {
            Some(parent) => Ok(Some(parent)),
            None => Err(PipelineError::NotAbsolute),
        }
    }
}

/// The request that lists the shares, with no option set.
pub open spec fn plain_list_share(station: FileStationView) -> Result<Seq<char>, SynologyErrorStatus> {
    spec_request(
        station,
        "SYNO.FileStation.List"@,
        2,
        "list_share"@,
        list_share_params(
            None,
            None,
            None,
            None,
            None,
            list_share_additional(false, false, false, false, false, false, false),
        ),
    )
}

/// The request that lists a folder, with no option set.
pub open spec fn plain_list(station: FileStationView, folder: Seq<char>) -> Result<
    Seq<char>,
    SynologyErrorStatus,
> {
    spec_request(
        station,
        "SYNO.FileStation.List"@,
        2,
        "list"@,
        list_params(
            folder,
            None,
            None,
            None,
            None,
            None,
            None,
            None,
            list_additional(false, false, false, false, false, false, false),
        ),
    )
}

/// How to learn whether a remote path exists. The root exists and needs no
/// request. A path right below the root is a share and is looked for among
/// the shares; every other path is looked for in the listing of its parent.
pub open spec fn spec_exists_on_remote(station: Option<FileStationView>, path: Seq<char>) -> Result<
    RemoteProbeView,
    PipelineError,
> {
    if is_root(path) {
        Ok(RemoteProbeView::Known(true))
    } else {
        match before_last_segment(path) {
            None => Err(PipelineError::NotAbsolute),
            Some(parent) => match station {
                None => Err(PipelineError::NoSession),
                Some(s) => if is_root(parent) {
                    match plain_list_share(s) {
                        Ok(url) => Ok(RemoteProbeView::ListShares { url, name: last_segment(path) }),
                        Err(e) => Err(PipelineError::Station(e)),
                    }
                } else {
                    match plain_list(s, parent) {
                        Ok(url) => Ok(RemoteProbeView::List { url, name: last_segment(path) }),
                        Err(e) => Err(PipelineError::Station(e)),
                    }
                },
            },
        }
    }
}

/// The path of an object's compressed form.
pub open spec fn compressed_path(path: Seq<char>) -> Seq<char> {
    path + ".zstd"@
}

/// The path of an object below the remote folder.
pub open spec fn object_path(remote_path: Seq<char>, oid: Seq<char>) -> Seq<char> {
    joined_path(remote_path, oid)
}

/// The name of an object on the appliance: its identifier, with `.zstd`
/// behind it where the compressed form is sent.
pub open spec fn spec_remote_name(oid: Seq<char>, compressed: bool) -> Seq<char> {
    if compressed {
        compressed_path(oid)
    } else {
        oid
    }
}

/// The directory of the local store that an object belongs in.
pub open spec fn spec_target_directory(oid: Seq<char>) -> Result<Seq<char>, PipelineError> {
    if oid.len() >= 4 {
        Ok("./.git/lfs/objects/"@ + oid.subrange(0, 2) + "/"@ + oid.subrange(2, 4))
    } else {
        Err(PipelineError::InvalidOid)
    }
}

/// What an answer to the question "does it exist" settles.
pub open spec fn probe_answer(probe: RemoteProbeView, names: Seq<Seq<char>>) -> bool {
    match probe {
        RemoteProbeView::Known(known) => known,
        RemoteProbeView::ListShares { name, .. } => names.contains(name),
        RemoteProbeView::List { name, .. } => names.contains(name),
    }
}

impl PipelineError {
    /// The text shown to the user for this failure.
    pub open spec fn spec_message(self) -> Seq<char> {
        match self {
            PipelineError::MissingOid => "OID should not be null"@,
            PipelineError::MissingSize => "Size should not be null"@,
            PipelineError::MissingPath => "Path should not be null."@,
            PipelineError::InvalidOid => "OID is too short."@,
            PipelineError::NotAbsolute => "Our path should have a name since it's not the root."@,
            PipelineError::NoParent => "Path should not be root."@,
            PipelineError::NoSession => "File Station should not be null"@,
            PipelineError::NoFileName => "File name should not be null"@,
            PipelineError::OutOfOrder => "The step has no place here."@,
            PipelineError::CredentialMissing => "Credential should not be null"@,
            PipelineError::Station(e) => e.spec_message(),
        }
    }

    /// The text shown to the user for this failure.
    pub fn message(&self) -> (r: &'static str)
        ensures
            r@ == self.spec_message(),
    {
        match self {
            PipelineError::MissingOid => "OID should not be null",
            PipelineError::MissingSize => "Size should not be null",
            PipelineError::MissingPath => "Path should not be null.",
            PipelineError::InvalidOid => "OID is too short.",
            PipelineError::NotAbsolute => "Our path should have a name since it's not the root.",
            PipelineError::NoParent => "Path should not be root.",
            PipelineError::NoSession => "File Station should not be null",
            PipelineError::NoFileName => "File name should not be null",
            PipelineError::OutOfOrder => "The step has no place here.",
            PipelineError::CredentialMissing => "Credential should not be null",
            PipelineError::Station(e) => e.message(),
        }
    }

    /// The failure as the driver reports it: with code 1 and its text.
    pub fn to_agent_error(&self) -> (r: AgentError)
        ensures
            r.code == 1,
            r.message@ == self.spec_message(),
    {
        AgentError { code: 1, message: self.message().to_string() }
    }
}

impl RemoteProbe {
    /// Whether the path exists, given the entries that the listing
    /// returned. A probe that needed no request does not look at them.
    pub fn answer(&self, entries: &Vec<File>) -> (r: bool)
        ensures
            r == probe_answer(self@, names_of(entries@)),
    {
        match self {
            RemoteProbe::Known(known) => *known,
            RemoteProbe::ListShares { url: _, name } => listing_contains(entries, name.as_str()),
            RemoteProbe::List { url: _, name } => listing_contains(entries, name.as_str()),
        }
    }
}

impl MainSubcommand {
    /// An agent that has not logged in.
    pub fn new() -> (r: MainSubcommand)
        ensures
            r@ is None,
    {
        MainSubcommand { file_station: None }
    }

    /// Gives the agent the client that has logged in.
    pub fn set_file_station(&mut self, file_station: SynologyFileStation)
        ensures
            final(self)@ == Some(file_station@),
    {
        self.file_station = Some(file_station);
    }

    /// Whether the agent holds a client.
    pub fn has_file_station(&self) -> (r: bool)
        ensures
            r == self@.is_some(),
    {
        self.file_station.is_some()
    }

    /// Whether a remote path is the root: `/` or the empty path.
    pub fn is_path_root(&self, path: &str) -> (r: bool)
        ensures
            r == is_root(path@),
    {
        proof {
            reveal_strlit("/");
            assert("/"@ =~= seq!['/']);
        }
        str_eq(path, "/") || path.unicode_len() == 0
    }

    /// The name of a remote path.
    pub fn get_name(&self, path: &str) -> (r: String)
        ensures
            r@ == spec_name(path@),
    {
        if self.is_path_root(path) {
            String::new()
        } else {
            last_segment_of(path)
        }
    }

    /// The parent of a remote path.
    pub fn get_parent_path(&self, path: &str) -> (r: Result<Option<String>, PipelineError>)
        ensures
            match spec_parent_path(path@) {
                Ok(parent) => r matches Ok(found) && opt_view(found) == parent,
                Err(e) => r matches Err(failure) && failure == e,
            },
    {
        if self.is_path_root(path) {
            return Ok(None);
        }
        match before_last_segment_of(path) {
            Some(parent) => Ok(Some(parent)),
            None => Err(PipelineError::NotAbsolute),
        }
    }

    /// How to learn whether a remote path exists. For the root the answer
    /// is known to be yes and nothing is asked of the appliance.
    pub fn exists_on_remote(&self, path: &str) -> (r: Result<RemoteProbe, PipelineError>)
        ensures
            match spec_exists_on_remote(self@, path@) {
                Ok(probe) => r matches Ok(built) && built@ == probe,
                Err(e) => r matches Err(failure) && failure == e,
            },
            is_root(path@) ==> (r matches Ok(built) && built@ == RemoteProbeView::Known(true)),
    {
        if self.is_path_root(path) {
            return Ok(RemoteProbe::Known(true));
        }
        let name = self.get_name(path);
        let parent = match self.get_parent_path(path) {
            Ok(Some(parent)) => parent,
            Ok(None) => {
                return Err(PipelineError::NoParent);
            },
            Err(e) => {
                return Err(e);
            },
        };
        let file_station = match &self.file_station {
            Some(file_station) => file_station,
            None => {
                return Err(PipelineError::NoSession);
            },
        };
        if self.is_path_root(parent.as_str()) {
            match file_station.list_share(
                None,
                None,
                None,
                None,
                None,
                false,
                false,
                false,
                false,
                false,
                false,
                false,
            ) {
                Ok(url) => Ok(RemoteProbe::ListShares { url, name }),
                Err(e) => Err(PipelineError::Station(e)),
            }
        } else {
            match file_station.list(
                parent.as_str(),
                None,
                None,
                None,
                None,
                None,
                None,
                None,
                false,
                false,
                false,
                false,
                false,
                false,
                false,
            ) {
                Ok(url) => Ok(RemoteProbe::List { url, name }),
                Err(e) => Err(PipelineError::Station(e)),
            }
        }
    }
}

/// The file that an upload sends: the object itself, or its compressed form.
#[derive(Clone, Debug)]
pub struct CompressionChoice {
    /// The local path of the file to send.
    pub path: String,
    /// Whether that file is the compressed form.
    pub compressed: bool,
}

/// What a download does: the request, and where the downloaded file is to
/// be decompressed to, if it is the compressed form.
#[derive(Debug)]
pub struct DownloadPlan {
    pub request: DownloadRequest,
    pub decompress_to: Option<String>,
}

/// How to learn whether an object stands on the appliance, as it is or
/// compressed, once it is known whether it stands there as it is: where it
/// does, nothing more is asked; else its compressed form is looked for.
pub open spec fn spec_exists_either(
    station: Option<FileStationView>,
    path: Seq<char>,
    uncompressed_exists: bool,
) -> Result<RemoteProbeView, PipelineError> {
    if uncompressed_exists {
        Ok(RemoteProbeView::Known(true))
    } else {
        spec_exists_on_remote(station, compressed_path(path))
    }
}

/// What creates the target folder, if anything is to be created.
pub open spec fn spec_create_target_folder(
    station: Option<FileStationView>,
    remote_path: Seq<char>,
    exists: bool,
) -> Result<Option<Seq<char>>, PipelineError> {
    if exists {
        Ok(None)
    } else {
        match station {
            None => Err(PipelineError::NoSession),
            Some(s) => match spec_parent_path(remote_path) {
                Err(e) => Err(e),
                Ok(None) => Err(PipelineError::NoParent),
                Ok(Some(parent)) => match spec_request(
                    s,
                    "SYNO.FileStation.CreateFolder"@,
                    2,
                    "create"@,
                    create_folder_params(parent, spec_name(remote_path), true),
                ) {
                    Ok(url) => Ok(Some(url)),
                    Err(e) => Err(PipelineError::Station(e)),
                },
            },
        }
    }
}

/// Where the provisioning of the target folder stands.
#[derive(Clone, Copy, Debug, PartialEq, Eq, Structural)]
pub enum ProvisionState {
    /// Nothing was done yet.
    Start,
    /// The folder is being looked for, without the lock.
    FirstProbe,
    /// The lock is being taken.
    Locking,
    /// The folder is being looked for again, with the lock held.
    SecondProbe,
    /// The folder is being created, with the lock held.
    Creating,
    /// The provisioning has ended; the lock, if it was taken, is given back.
    Finished,
}

/// What happened since the last step of the provisioning.
#[derive(Clone, Copy, Debug, PartialEq, Eq, Structural)]
pub enum ProvisionEvent {
    /// The provisioning begins.
    Begin,
    /// The probe was answered.
    Exists(bool),
    /// The lock is held.
    LockHeld,
    /// The appliance has created the folder.
    Created,
}

/// What the provisioning does next.
#[derive(Debug)]
pub enum ProvisionAction {
    /// Learn whether the folder exists.
    Probe(RemoteProbe),
    /// Take the lock `CREATE_TARGET_FOLDER_LOCK` and wait for it.
    TakeLock,
    /// GET this address to create the folder.
    Create(String),
    /// Nothing more: give the lock back if it is held.
    Done,
}

/// An action of the provisioning as the characters it holds.
pub enum ProvisionActionView {
    Probe(RemoteProbeView),
    TakeLock,
    Create(Seq<char>),
    Done,
}

impl View for ProvisionAction {
    type V = ProvisionActionView;

    open spec fn view(&self) -> ProvisionActionView {
        match *self {
            ProvisionAction::Probe(probe) => ProvisionActionView::Probe(probe@),
            ProvisionAction::TakeLock => ProvisionActionView::TakeLock,
            ProvisionAction::Create(url) => ProvisionActionView::Create(url@),
            ProvisionAction::Done => ProvisionActionView::Done,
        }
    }
}

/// The probe for the target folder as a step of the provisioning.
pub open spec fn provision_probe(
    station: Option<FileStationView>,
    remote_path: Seq<char>,
    next: ProvisionState,
) -> Result<(ProvisionState, ProvisionActionView), PipelineError> {
    match spec_exists_on_remote(station, remote_path) {
        Ok(probe) => Ok((next, ProvisionActionView::Probe(probe))),
        Err(e) => Err(e),
    }
}

/// The next state and the next action of the provisioning. The folder is
/// looked for first; where it is there, nothing more is done. Else the lock
/// is taken, and with the lock held the folder is looked for again: a
/// sibling may have created it while this agent waited. Only where it is
/// still missing it is created. A step that has no place is refused.
pub open spec fn spec_provision(
    station: Option<FileStationView>,
    remote_path: Seq<char>,
    state: ProvisionState,
    event: ProvisionEvent,
) -> Result<(ProvisionState, ProvisionActionView), PipelineError> {
    match (state, event) {
        (ProvisionState::Start, ProvisionEvent::Begin) => provision_probe(
            station,
            remote_path,
            ProvisionState::FirstProbe,
        ),
        (ProvisionState::FirstProbe, ProvisionEvent::Exists(exists)) => if exists {
            Ok((ProvisionState::Finished, ProvisionActionView::Done))
        } else {
            Ok((ProvisionState::Locking, ProvisionActionView::TakeLock))
        },
        (ProvisionState::Locking, ProvisionEvent::LockHeld) => provision_probe(
            station,
            remote_path,
            ProvisionState::SecondProbe,
        ),
        (ProvisionState::SecondProbe, ProvisionEvent::Exists(exists)) => match spec_create_target_folder(
            station,
            remote_path,
            exists,
        ) {
            Ok(Some(url)) => Ok((ProvisionState::Creating, ProvisionActionView::Create(url))),
            Ok(None) => Ok((ProvisionState::Finished, ProvisionActionView::Done)),
            Err(e) => Err(e),
        },
        (ProvisionState::Creating, ProvisionEvent::Created) => Ok(
            (ProvisionState::Finished, ProvisionActionView::Done),
        ),
        _ => Err(PipelineError::OutOfOrder),
    }
}

/// Where the compressed form of a file is written before it is sent: in
/// the cache directory, under the file's name with `.zstd` behind it.
pub open spec fn spec_compressed_temp_path(cache_directory: Seq<char>, source: Seq<char>) -> Result<
    Seq<char>,
    PipelineError,
> {
    if is_file_name(last_segment(source)) {
        Ok(joined_path(cache_directory, compressed_path(last_segment(source))))
    } else {
        Err(PipelineError::NoFileName)
    }
}

/// Whether the compressed form is kept: only where it is strictly smaller.
pub open spec fn keep_compressed(source_len: u64, compressed_len: u64) -> bool {
    compressed_len < source_len
}

/// The upload of one object: into the remote folder, without creating
/// parents and without overwriting, under the name that the form sent gives
/// it. An object that stands on the appliance already is not sent again.
pub open spec fn spec_upload_plan(
    station: Option<FileStationView>,
    remote_path: Seq<char>,
    oid: Option<Seq<char>>,
    size: Option<usize>,
    choice_path: Seq<char>,
    compressed: bool,
    exists: bool,
) -> Result<Option<UploadRequestView>, PipelineError> {
    if size is None {
        Err(PipelineError::MissingSize)
    } else {
        match oid {
            None => Err(PipelineError::MissingOid),
            Some(oid) => if exists {
                Ok(None)
            } else {
                match station {
                    None => Err(PipelineError::NoSession),
                    Some(s) => match spec_upload(
                        s,
                        choice_path,
                        remote_path,
                        false,
                        false,
                        None,
                        None,
                        None,
                    ) {
                        Ok(request) => Ok(
                            Some(
                                UploadRequestView {
                                    file_name: spec_remote_name(oid, compressed),
                                    ..request
                                },
                            ),
                        ),
                        Err(e) => Err(PipelineError::Station(e)),
                    },
                }
            },
        }
    }
}

/// The local file that an upload event names. An event for an upload tells
/// the size, the object and the path.
pub open spec fn spec_upload_source(event: EventView) -> Result<
    Seq<char>,
    PipelineError,
> {
    if event.size is None {
        Err(PipelineError::MissingSize)
    } else if event.oid is None {
        Err(PipelineError::MissingOid)
    } else {
        match event.path {
            Some(path) => Ok(path),
            None => Err(PipelineError::MissingPath),
        }
    }
}

/// The remote path of the object of an event.
pub open spec fn spec_object_path(remote_path: Seq<char>, oid: Option<Seq<char>>) -> Result<
    Seq<char>,
    PipelineError,
> {
    match oid {
        Some(oid) => Ok(object_path(remote_path, oid)),
        None => Err(PipelineError::MissingOid),
    }
}

/// An upload request, if there is one, as the characters it holds.
pub open spec fn request_view(request: Option<UploadRequest>) -> Option<UploadRequestView> {
    match request {
        Some(r) => Some(r@),
        None => None,
    }
}

/// The remote path that a download fetches: the object's, with `.zstd`
/// behind it where the compressed form is there.
pub open spec fn download_source(remote_path: Seq<char>, oid: Seq<char>, compressed: bool) -> Seq<char> {
    if compressed {
        compressed_path(object_path(remote_path, oid))
    } else {
        object_path(remote_path, oid)
    }
}

/// The download of one object, as the address, the local path of the
/// downloaded file, and the path to decompress it to.
pub open spec fn spec_download_plan(
    station: Option<FileStationView>,
    remote_path: Seq<char>,
    oid: Option<Seq<char>>,
    size: Option<usize>,
    compressed: bool,
) -> Result<(Seq<char>, Seq<char>, Option<Seq<char>>), PipelineError> {
    match oid {
        None => Err(PipelineError::MissingOid),
        Some(oid) => if size is None {
            Err(PipelineError::MissingSize)
        } else {
            match spec_target_directory(oid) {
                Err(e) => Err(e),
                Ok(directory) => match station {
                    None => Err(PipelineError::NoSession),
                    Some(s) => match spec_download(
                        s,
                        download_source(remote_path, oid, compressed),
                        directory,
                    ) {
                        Ok((url, path)) => Ok(
                            (
                                url,
                                path,
                                if compressed {
                                    without_suffix(path, ".zstd"@)
                                } else {
                                    None
                                },
                            ),
                        ),
                        Err(e) => Err(PipelineError::Station(e)),
                    },
                },
            }
        },
    }
}

fn with_zstd(path: &str) -> (r: String)
    ensures
        r@ == compressed_path(path@),
{
    String::from_str(path).concat(".zstd")
}

/// The name of an object on the appliance.
pub fn remote_name(oid: &str, compressed: bool) -> (r: String)
    ensures
        r@ == spec_remote_name(oid@, compressed),
        r@ == oid@ <==> !compressed,
{
    proof {
        reveal_strlit(".zstd");
        assert((oid@ + ".zstd"@).len() == oid@.len() + 5);
    }
    if compressed {
        with_zstd(oid)
    } else {
        oid.to_string()
    }
}

/// The directory of the local store that an object belongs in:
/// `./.git/lfs/objects`, then the first two characters of the object's
/// name, then the next two.
pub fn target_directory(oid: &str) -> (r: Result<String, PipelineError>)
    ensures
        match spec_target_directory(oid@) {
            Ok(directory) => r matches Ok(built) && built@ == directory,
            Err(e) => r matches Err(failure) && failure == e,
        },
{
    if oid.unicode_len() < 4 {
        return Err(PipelineError::InvalidOid);
    }
    let mut directory = String::from_str("./.git/lfs/objects/");
    directory.append(oid.substring_char(0, 2));
    directory.append("/");
    directory.append(oid.substring_char(2, 4));
    Ok(directory)
}

/// Where the compressed form of a file is written before it is sent.
pub fn compressed_temp_path(cache_directory: &str, source: &str) -> (r: Result<String, PipelineError>)
    ensures
        match spec_compressed_temp_path(cache_directory@, source@) {
            Ok(path) => r matches Ok(built) && built@ == path,
            Err(e) => r matches Err(failure) && failure == e,
        },
{
    let name = last_segment_of(source);
    if name.as_str().unicode_len() == 0 || str_eq(name.as_str(), "..") {
        return Err(PipelineError::NoFileName);
    }
    let compressed = with_zstd(name.as_str());
    Ok(join_path(cache_directory, compressed.as_str()))
}

/// A path with `.zstd` behind it ends with `.zstd`, and without it is the path.
pub proof fn lemma_compressed_path(path: Seq<char>)
    ensures
        without_suffix(compressed_path(path), ".zstd"@) == Some(path),
{
    let whole = compressed_path(path);
    assert(whole.subrange(whole.len() - ".zstd"@.len(), whole.len() as int) =~= ".zstd"@);
    assert(whole.subrange(0, whole.len() - ".zstd"@.len()) =~= path);
}

impl MainSubcommand {
    /// How to learn whether an object stands on the appliance, as it is or
    /// compressed. `uncompressed_exists` is the answer for the path itself,
    /// which is asked for first; only where it is no, the path with `.zstd`
    /// behind it is looked for.
    pub fn exists_on_remote_compressed_or_uncompressed(&self, path: &str, uncompressed_exists: bool) -> (r:
        Result<RemoteProbe, PipelineError>)
        ensures
            match spec_exists_either(self@, path@, uncompressed_exists) {
                Ok(probe) => r matches Ok(built) && built@ == probe,
                Err(e) => r matches Err(failure) && failure == e,
            },
    {
        if uncompressed_exists {
            return Ok(RemoteProbe::Known(true));
        }
        let compressed_path = with_zstd(path);
        self.exists_on_remote(compressed_path.as_str())
    }

    /// The local file that an upload event names.
    pub fn upload_source(&self, event: &Event) -> (r: Result<String, PipelineError>)
        ensures
            match spec_upload_source(event@) {
                Ok(path) => r matches Ok(found) && found@ == path,
                Err(e) => r matches Err(failure) && failure == e,
            },
    {
        if event.size.is_none() {
            return Err(PipelineError::MissingSize);
        }
        if event.oid.is_none() {
            return Err(PipelineError::MissingOid);
        }
        match &event.path {
            Some(path) => Ok(path.clone()),
            None => Err(PipelineError::MissingPath),
        }
    }

    /// The remote path of the object of an event: the one to look for
    /// before an upload.
    pub fn object_path(&self, configuration: &Configuration, event: &Event) -> (r: Result<
        String,
        PipelineError,
    >)
        ensures
            match spec_object_path(configuration.path@, event@.oid) {
                Ok(path) => r matches Ok(built) && built@ == path,
                Err(e) => r matches Err(failure) && failure == e,
            },
    {
        match &event.oid {
            Some(oid) => Ok(join_path(configuration.path.as_str(), oid.as_str())),
            None => Err(PipelineError::MissingOid),
        }
    }

    /// The remote path of the compressed form of the object of an event:
    /// the one to look for before a download.
    pub fn compressed_object_path(&self, configuration: &Configuration, event: &Event) -> (r: Result<
        String,
        PipelineError,
    >)
        ensures
            match spec_object_path(configuration.path@, event@.oid) {
                Ok(path) => r matches Ok(built) && built@ == compressed_path(path),
                Err(e) => r matches Err(failure) && failure == e,
            },
    {
        match self.object_path(configuration, event) {
            Ok(path) => Ok(with_zstd(path.as_str())),
            Err(e) => Err(e),
        }
    }

    /// What creates the target folder. Where the folder exists nothing is
    /// to be done; else the request creates it below its parent, with the
    /// parents that are missing. The caller holds the lock
    /// `CREATE_TARGET_FOLDER_LOCK` while it sends the request.
    pub fn create_target_folder(&self, remote_path: &str, exists: bool) -> (r: Result<
        Option<String>,
        PipelineError,
    >)
        ensures
            match spec_create_target_folder(self@, remote_path@, exists) {
                Ok(url) => r matches Ok(built) && opt_view(built) == url,
                Err(e) => r matches Err(failure) && failure == e,
            },
    {
        if exists {
            return Ok(None);
        }
        let file_station = match &self.file_station {
            Some(file_station) => file_station,
            None => {
                return Err(PipelineError::NoSession);
            },
        };
        let name = self.get_name(remote_path);
        let folder_path = match self.get_parent_path(remote_path) {
            Ok(Some(parent)) => parent,
            Ok(None) => {
                return Err(PipelineError::NoParent);
            },
            Err(e) => {
                return Err(e);
            },
        };
        match file_station.create_folder(folder_path.as_str(), name.as_str(), true) {
            Ok(url) => Ok(Some(url)),
            Err(e) => Err(PipelineError::Station(e)),
        }
    }

    /// Takes what happened in the provisioning of the target folder and
    /// gives what to do next. The caller begins with `Start` and `Begin`,
    /// does what each action says, and comes back with the state that it was
    /// given and with what happened, until the action is `Done`.
    pub fn provision_target_folder(&self, remote_path: &str, state: ProvisionState, event: ProvisionEvent) -> (r:
        Result<(ProvisionState, ProvisionAction), PipelineError>)
        ensures
            match spec_provision(self@, remote_path@, state, event) {
                Ok((next, action)) => r matches Ok(step) && step.0 == next && step.1@ == action,
                Err(e) => r matches Err(failure) && failure == e,
            },
    {
        match (state, event) {
            (ProvisionState::Start, ProvisionEvent::Begin) => match self.exists_on_remote(remote_path) {
                Ok(probe) => Ok((ProvisionState::FirstProbe, ProvisionAction::Probe(probe))),
                Err(e) => Err(e),
            },
            (ProvisionState::FirstProbe, ProvisionEvent::Exists(exists)) => {
                if exists {
                    Ok((ProvisionState::Finished, ProvisionAction::Done))
                } else {
                    Ok((ProvisionState::Locking, ProvisionAction::TakeLock))
                }
            },
            (ProvisionState::Locking, ProvisionEvent::LockHeld) => match self.exists_on_remote(
                remote_path,
            ) {
                Ok(probe) => Ok((ProvisionState::SecondProbe, ProvisionAction::Probe(probe))),
                Err(e) => Err(e),
            },
            (ProvisionState::SecondProbe, ProvisionEvent::Exists(exists)) => {
                match self.create_target_folder(remote_path, exists) {
                    Ok(Some(url)) => Ok((ProvisionState::Creating, ProvisionAction::Create(url))),
                    Ok(None) => Ok((ProvisionState::Finished, ProvisionAction::Done)),
                    Err(e) => Err(e),
                }
            },
            (ProvisionState::Creating, ProvisionEvent::Created) => Ok(
                (ProvisionState::Finished, ProvisionAction::Done),
            ),
            _ => Err(PipelineError::OutOfOrder),
        }
    }

    /// Chooses the file to send after the object at `source` was compressed
    /// to `compressed`: the compressed form where it is strictly smaller,
    /// else the object itself.
    pub fn compress_file(&self, source: &str, source_len: u64, compressed: &str, compressed_len: u64) -> (r:
        CompressionChoice)
        ensures
            r.compressed == keep_compressed(source_len, compressed_len),
            r.path@ == if keep_compressed(source_len, compressed_len) {
                compressed@
            } else {
                source@
            },
    {
        if compressed_len < source_len {
            CompressionChoice { path: compressed.to_string(), compressed: true }
        } else {
            CompressionChoice { path: source.to_string(), compressed: false }
        }
    }

    /// Where a downloaded file that ends in `.zstd` is decompressed to: the
    /// same path without `.zstd`. Any other file is left as it is.
    pub fn uncompress_file(&self, source_path: &str) -> (r: Option<String>)
        ensures
            opt_view(r) == without_suffix(source_path@, ".zstd"@),
    {
        strip_suffix(source_path, ".zstd")
    }

    /// The upload of the object of an event, with the file that was chosen
    /// to be sent. `exists` tells whether the object stands on the appliance
    /// already, in either form: then nothing is sent.
    pub fn upload(
        &self,
        configuration: &Configuration,
        event: &Event,
        choice: &CompressionChoice,
        exists: bool,
    ) -> (r: Result<Option<UploadRequest>, PipelineError>)
        ensures
            match spec_upload_plan(
                self@,
                configuration.path@,
                event@.oid,
                event@.size,
                choice.path@,
                choice.compressed,
                exists,
            ) {
                Ok(request) => r matches Ok(built) && request_view(built) == request,
                Err(e) => r matches Err(failure) && failure == e,
            },
    {
        if event.size.is_none() {
            return Err(PipelineError::MissingSize);
        }
        let oid = match &event.oid {
            Some(oid) => oid,
            None => {
                return Err(PipelineError::MissingOid);
            },
        };
        if exists {
            return Ok(None);
        }
        let file_station = match &self.file_station {
            Some(file_station) => file_station,
            None => {
                return Err(PipelineError::NoSession);
            },
        };
        match file_station.upload(
            choice.path.as_str(),
            configuration.path.as_str(),
            false,
            false,
            None,
            None,
            None,
        ) {
            Ok(request) => {
                let mut request = request;
                request.file_name = remote_name(oid.as_str(), choice.compressed);
                Ok(Some(request))
            },
            Err(e) => Err(PipelineError::Station(e)),
        }
    }

    /// The download of the object of an event; `compressed` tells whether
    /// the compressed form stands on the appliance.
    pub fn download(&self, configuration: &Configuration, event: &Event, compressed: bool) -> (r: Result<
        DownloadPlan,
        PipelineError,
    >)
        ensures
            match spec_download_plan(self@, configuration.path@, event@.oid, event@.size, compressed) {
                Ok((url, path, decompress_to)) => r matches Ok(plan) && plan.request.url@ == url
                    && plan.request.target_file_path@ == path && opt_view(plan.decompress_to)
                    == decompress_to,
                Err(e) => r matches Err(failure) && failure == e,
            },
    {
        let oid = match &event.oid {
            Some(oid) => oid,
            None => {
                return Err(PipelineError::MissingOid);
            },
        };
        if event.size.is_none() {
            return Err(PipelineError::MissingSize);
        }
        let directory = match target_directory(oid.as_str()) {
            Ok(directory) => directory,
            Err(e) => {
                return Err(e);
            },
        };
        let file_station = match &self.file_station {
            Some(file_station) => file_station,
            None => {
                return Err(PipelineError::NoSession);
            },
        };
        let object = join_path(configuration.path.as_str(), oid.as_str());
        let source = if compressed {
            with_zstd(object.as_str())
        } else {
            object
        };
        match file_station.download(source.as_str(), directory.as_str()) {
            Ok(request) => {
                let decompress_to = if compressed {
                    self.uncompress_file(request.target_file_path.as_str())
                } else {
                    None
                };
                Ok(DownloadPlan { request, decompress_to })
            },
            Err(e) => Err(PipelineError::Station(e)),
        }
    }

    /// The login that `init` makes: with the credential that the store
    /// holds for the appliance, without asking for a device token and
    /// without one-time code. Gives the client to log in with and the
    /// address to GET.
    pub fn init(&self, configuration: &Configuration, credential: Option<&Credential>, hostname: &str) -> (r:
        Result<(SynologyFileStation, String), PipelineError>)
        ensures
            match credential {
                Some(c) => r matches Ok(pair) && pair.0@ == (FileStationView {
                    sid: None,
                    url: configuration.nas_url@,
                }) && pair.1@ == login_url(configuration.nas_url@, c@, false, None, hostname@),
                None => r matches Err(e) && e == PipelineError::CredentialMissing,
            },
    {
        match credential {
            None => Err(PipelineError::CredentialMissing),
            Some(credential) => {
                let file_station = SynologyFileStation::new(configuration.nas_url.as_str());
                let url = file_station.login(credential, false, None, hostname);
                Ok((file_station, url))
            },
        }
    }
}

/// Where the compressed form of an object is downloaded, the downloaded
/// file ends in `.zstd` and is decompressed to the path that the object
/// itself would have been downloaded to.
pub proof fn lemma_compressed_download(
    station: FileStationView,
    source: Seq<char>,
    directory: Seq<char>,
)
    requires
        spec_download(station, compressed_path(source), directory) is Ok,
    ensures
        without_suffix(
            spec_download(station, compressed_path(source), directory)->Ok_0.1,
            ".zstd"@,
        ) == Some(joined_path(directory, last_segment(source))),
{
    reveal_strlit(".zstd");
    let suffix = ".zstd"@;
    assert(!suffix.contains('/')) by {
        if suffix.contains('/') {
            let i = choose|i: int| 0 <= i < suffix.len() && suffix[i] == '/';
            assert(suffix[i] != '/');
        }
    }
    lemma_last_segment_append(source, suffix);
    let name = last_segment(source);
    let path = joined_path(directory, name + suffix);
    assert(path =~= joined_path(directory, name) + suffix);
    lemma_compressed_path(joined_path(directory, name));
}

/// An agent that found the folder missing and then waited for the lock
/// while a sibling created it does not fail and creates nothing: with the
/// lock held it looks again, and the folder that is there now ends its
/// provisioning.
pub proof fn lemma_waiting_agent_finishes(station: Option<FileStationView>, remote_path: Seq<char>)
    ensures
        spec_provision(
            station,
            remote_path,
            ProvisionState::FirstProbe,
            ProvisionEvent::Exists(false),
        ) == Ok::<(ProvisionState, ProvisionActionView), PipelineError>(
            (ProvisionState::Locking, ProvisionActionView::TakeLock),
        ),
        spec_provision(station, remote_path, ProvisionState::Locking, ProvisionEvent::LockHeld)
            matches Ok((next, action)) ==> next == ProvisionState::SecondProbe && action is Probe,
        spec_provision(
            station,
            remote_path,
            ProvisionState::SecondProbe,
            ProvisionEvent::Exists(true),
        ) == Ok::<(ProvisionState, ProvisionActionView), PipelineError>(
            (ProvisionState::Finished, ProvisionActionView::Done),
        ),
{
}

/// The folder is created only by an agent that holds the lock and has
/// found the folder missing while it held it; and the lock is taken only by
/// an agent that found the folder missing before.
pub proof fn lemma_created_under_lock(
    station: Option<FileStationView>,
    remote_path: Seq<char>,
    state: ProvisionState,
    event: ProvisionEvent,
)
    ensures
        spec_provision(station, remote_path, state, event) matches Ok((_, action)) ==> {
            &&& action is Create ==> state == ProvisionState::SecondProbe && event
                == ProvisionEvent::Exists(false)
            &&& action is TakeLock ==> state == ProvisionState::FirstProbe && event
                == ProvisionEvent::Exists(false)
        },
{
}

} // verus!
