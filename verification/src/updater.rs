//! An update run from the manifest to the installed release: the check that
//! decides whether anything is to be done, and the order of the steps around
//! it. The updater decides; its caller fetches, reads, downloads and installs.

use crate::error::{ErrorModel, UpdateError};
use crate::ledger::{get_current_version_from_toml, ledger_path, record_path, Release, ReleaseModel};
use crate::manifest::{Manifest, ManifestModel};
use crate::network::{artifact_place, download_destination, manifest_url, raw_address};
use crate::text::starts_with;
use crate::versions::{
    expand_shorthand,
    install_due,
    newer,
    parse_version,
    parsed,
    strict_version,
    VersionModel,
};
use vstd::prelude::*;

verus! {

/// What the admission check makes of the version of a release and the record
/// of the host: whether the release is installed, or why nothing can be said. The
/// version of the release is parsed first, with the shorthand; the recorded
/// version must be a semantic version as it stands. Without a record the
/// release is installed; else only where it is strictly newer.
pub open spec fn admission(version_set: Seq<char>, recorded: Option<ReleaseModel>) -> Result<
    bool,
    ErrorModel,
> {
    match parsed(version_set) {
        None => Err(ErrorModel::VersionParseFailed(expand_shorthand(version_set))),
        Some(v) => match recorded {
            None => Ok(true),
            Some(r) => match strict_version(r.current_version) {
                None => Err(ErrorModel::VersionParseFailed(r.current_version)),
                Some(c) => Ok(install_due(v, Some(c))),
            },
        },
    }
}

/// Decides whether the release of version `manifest_version_set` is installed
/// on a host with the release record `recorded`. Where the version of the
/// release is no version, the error says so in the words of `VersionError`.
pub fn decide(manifest_version_set: &str, recorded: Option<&Release>) -> (r: Result<
    bool,
    UpdateError,
>)
    ensures
        match r {
            Ok(go) => admission(
                manifest_version_set@,
                match recorded {
                    Some(rec) => Some(rec@),
                    None => None,
                },
            ) == Ok::<bool, ErrorModel>(go),
            Err(e) => admission(
                manifest_version_set@,
                match recorded {
                    Some(rec) => Some(rec@),
                    None => None,
                },
            ) == Err::<bool, ErrorModel>(e@),
        },
        r matches Err(UpdateError::VersionParseFailed { input, reason }) ==> (parsed(
            manifest_version_set@,
        ) is None ==> starts_with(reason@, "Invalid new version string: "@)),
{
    let candidate = match parse_version(manifest_version_set) {
        Ok(v) => v,
        Err(e) => {
            let reason = e.message();
            assert(reason@.subrange(0, "Invalid new version string: "@.len() as int)
                =~= "Invalid new version string: "@);
            return Err(UpdateError::VersionParseFailed { input: e.input, reason });
        },
    };
    match get_current_version_from_toml(recorded) {
        Ok(None) => Ok(true),
        Ok(Some(current)) => Ok(candidate.is_newer_than(&current)),
        Err(e) => Err(UpdateError::VersionParseFailed { input: e.input, reason: e.reason }),
    }
}

/// Where an update run stands: which answer the updater waits for.
#[derive(Clone, Copy, Debug, PartialEq, Eq, Structural)]
pub enum Stage {
    /// Nothing has been asked yet.
    Idle,
    /// The manifest is being fetched.
    Fetching,
    /// The release record is being read.
    Reading,
    /// The artifact is being downloaded.
    Downloading,
    /// The release is being installed.
    Installing,
    /// The run has ended well.
    Finished,
    /// The run has ended with an error.
    Failed,
}

/// How a run ended well.
#[derive(Clone, Copy, Debug, PartialEq, Eq, Structural)]
pub enum Outcome {
    /// The host was up to date: nothing was downloaded or installed.
    UpToDate,
    /// The release was installed.
    Installed,
}

/// What the updater asks its caller to do.
#[derive(Clone, Debug, PartialEq, Eq)]
pub enum Request {
    /// Fetch and decode the manifest at this address.
    FetchManifest(String),
    /// Read and decode the release record at this place, if there is one.
    ReadLedger(String),
    /// Download the artifact at `url` to `destination`.
    Download { url: String, destination: String },
    /// Install the release of `manifest` from the archive at `archive`.
    Install { archive: String, manifest: Manifest },
    /// Nothing more: the run has ended well.
    Finish(Outcome),
    /// Nothing more: the run has failed.
    Abort(UpdateError),
    /// Nothing: the run ended before this step.
    Stopped,
}

/// A request as plain values.
pub enum RequestModel {
    FetchManifest(Seq<char>),
    ReadLedger(Seq<char>),
    Download { url: Seq<char>, destination: Seq<char> },
    Install { archive: Seq<char>, manifest: ManifestModel },
    Finish(Outcome),
    Abort(ErrorModel),
    Stopped,
}

impl View for Request {
    type V = RequestModel;

    open spec fn view(&self) -> RequestModel {
        match self {
            Request::FetchManifest(u) => RequestModel::FetchManifest(u@),
            Request::ReadLedger(p) => RequestModel::ReadLedger(p@),
            Request::Download { url, destination } => RequestModel::Download {
                url: url@,
                destination: destination@,
            },
            Request::Install { archive, manifest } => RequestModel::Install {
                archive: archive@,
                manifest: manifest@,
            },
            Request::Finish(o) => RequestModel::Finish(*o),
            Request::Abort(e) => RequestModel::Abort(e@),
            Request::Stopped => RequestModel::Stopped,
        }
    }
}

/// What came of a request.
#[derive(Clone, Debug, PartialEq, Eq)]
pub enum Reply {
    /// The run is to begin.
    Begin,
    /// The manifest that was fetched.
    Manifest(Manifest),
    /// The release record that was read; none where the host has none.
    Ledger(Option<Release>),
    /// The request was carried out.
    Done,
    /// The request failed, for this reason.
    Failed(String),
    /// The installation failed with this error.
    InstallFailed(UpdateError),
}

/// A reply as plain values.
pub enum ReplyModel {
    Begin,
    Manifest(ManifestModel),
    Ledger(Option<ReleaseModel>),
    Done,
    Failed(Seq<char>),
    InstallFailed(ErrorModel),
}

impl View for Reply {
    type V = ReplyModel;

    open spec fn view(&self) -> ReplyModel {
        match self {
            Reply::Begin => ReplyModel::Begin,
            Reply::Manifest(m) => ReplyModel::Manifest(m@),
            Reply::Ledger(r) => ReplyModel::Ledger(
                match r {
                    Some(rec) => Some(rec@),
                    None => None,
                },
            ),
            Reply::Done => ReplyModel::Done,
            Reply::Failed(r) => ReplyModel::Failed(r@),
            Reply::InstallFailed(e) => ReplyModel::InstallFailed(e@),
        }
    }
}

/// The reason that a reply gives for a failure.
pub open spec fn complaint_of(r: ReplyModel) -> Seq<char> {
    match r {
        ReplyModel::Failed(reason) => reason,
        _ => "unexpected answer"@,
    }
}

/// The state of an update run as plain values.
pub struct UpdaterModel {
    pub endpoint: Seq<char>,
    pub staging_dir: Seq<char>,
    pub stage: Stage,
    /// The manifest, from when it is fetched until it is handed on.
    pub manifest: Option<ManifestModel>,
    /// Where the artifact is downloaded to.
    pub archive: Seq<char>,
}

impl UpdaterModel {
    /// The state at the start of a run.
    pub open spec fn initial(endpoint: Seq<char>, staging_dir: Seq<char>) -> UpdaterModel {
        UpdaterModel {
            endpoint,
            staging_dir,
            stage: Stage::Idle,
            manifest: None,
            archive: Seq::<char>::empty(),
        }
    }

    /// The run stops with an error.
    pub open spec fn fail(self, error: ErrorModel) -> (UpdaterModel, RequestModel) {
        (UpdaterModel { stage: Stage::Failed, manifest: None, ..self }, RequestModel::Abort(error))
    }

    /// With the manifest and the record at hand, the run ends where the host
    /// is up to date, and goes on to the download where it is not.
    pub open spec fn weigh(self, m: ManifestModel, recorded: Option<ReleaseModel>) -> (
        UpdaterModel,
        RequestModel,
    ) {
        match admission(m.version_set, recorded) {
            Err(e) => self.fail(e),
            Ok(false) => (
                UpdaterModel { stage: Stage::Finished, manifest: None, ..self },
                RequestModel::Finish(Outcome::UpToDate),
            ),
            Ok(true) => (
                UpdaterModel {
                    stage: Stage::Downloading,
                    archive: artifact_place(m.download_url, self.staging_dir),
                    ..self
                },
                RequestModel::Download {
                    url: m.download_url,
                    destination: artifact_place(m.download_url, self.staging_dir),
                },
            ),
        }
    }

    /// One step of a run: from a state and the answer to the request that
    /// was made last, to the next state and the next request.
    pub open spec fn step(self, r: ReplyModel) -> (UpdaterModel, RequestModel) {
        match self.stage {
            Stage::Idle => (
                UpdaterModel { stage: Stage::Fetching, ..self },
                RequestModel::FetchManifest(raw_address(self.endpoint)),
            ),
            Stage::Fetching => match r {
                ReplyModel::Manifest(m) => match record_path(self.staging_dir) {
                    Some(p) => (
                        UpdaterModel { stage: Stage::Reading, manifest: Some(m), ..self },
                        RequestModel::ReadLedger(p),
                    ),
                    None => self.fail(ErrorModel::ConfigInvalid("Invalid staging dir"@)),
                },
                _ => self.fail(ErrorModel::ManifestFetchFailed(complaint_of(r))),
            },
            Stage::Reading => match (r, self.manifest) {
                (ReplyModel::Ledger(recorded), Some(m)) => self.weigh(m, recorded),
                _ => self.fail(ErrorModel::FilesystemOperationFailed(complaint_of(r))),
            },
            Stage::Downloading => match (r, self.manifest) {
                (ReplyModel::Done, Some(m)) => (
                    UpdaterModel { stage: Stage::Installing, manifest: None, ..self },
                    RequestModel::Install { archive: self.archive, manifest: m },
                ),
                _ => self.fail(ErrorModel::ArtifactDownloadFailed(complaint_of(r))),
            },
            Stage::Installing => match r {
                ReplyModel::Done => (
                    UpdaterModel { stage: Stage::Finished, ..self },
                    RequestModel::Finish(Outcome::Installed),
                ),
                ReplyModel::InstallFailed(e) => self.fail(e),
                _ => self.fail(ErrorModel::FilesystemOperationFailed(complaint_of(r))),
            },
            Stage::Finished => (self, RequestModel::Stopped),
            Stage::Failed => (self, RequestModel::Stopped),
        }
    }
}

/// An update run in progress.
pub struct Updater {
    endpoint: String,
    staging_dir: String,
    stage: Stage,
    manifest: Option<Manifest>,
    archive: String,
}

impl View for Updater {
    type V = UpdaterModel;

    closed spec fn view(&self) -> UpdaterModel {
        UpdaterModel {
            endpoint: self.endpoint@,
            staging_dir: self.staging_dir@,
            stage: self.stage,
            manifest: match self.manifest {
                Some(m) => Some(m@),
                None => None,
            },
            archive: self.archive@,
        }
    }
}

fn complaint(r: Reply) -> (c: String)
    ensures
        c@ == complaint_of(r@),
{
    match r {
        Reply::Failed(reason) => reason,
        _ => String::from_str("unexpected answer"),
    }
}

impl Updater {
    /// A run against the manifest behind `endpoint`, with `staging_dir` as its
    /// working place.
    pub fn new(endpoint: &str, staging_dir: &str) -> (u: Updater)
        ensures
            u@ == UpdaterModel::initial(endpoint@, staging_dir@),
    {
        Updater {
            endpoint: String::from_str(endpoint),
            staging_dir: String::from_str(staging_dir),
            stage: Stage::Idle,
            manifest: None,
            archive: String::new(),
        }
    }

    /// The stage of the run.
    pub fn stage(&self) -> (s: Stage)
        ensures
            s == self@.stage,
    {
        self.stage
    }

    fn fail(&mut self, error: UpdateError) -> (q: Request)
        ensures
            (final(self)@, q@) == old(self)@.fail(error@),
            q == Request::Abort(error),
    {
        self.stage = Stage::Failed;
        self.manifest = None;
        Request::Abort(error)
    }

    /// Takes the answer to the request that was made last and makes the next
    /// one. The first step of a run takes any reply.
    pub fn step(&mut self, reply: Reply) -> (q: Request)
        ensures
            (final(self)@, q@) == old(self)@.step(reply@),
            q matches Request::Abort(UpdateError::VersionParseFailed { input, reason }) ==> (old(
                self,
            )@.stage == Stage::Reading && old(self)@.manifest is Some && parsed(
                old(self)@.manifest->0.version_set,
            ) is None ==> starts_with(reason@, "Invalid new version string: "@)),
    {
        match self.stage {
            Stage::Idle => {
                self.stage = Stage::Fetching;
                Request::FetchManifest(manifest_url(self.endpoint.as_str()))
            },
            Stage::Fetching => match reply {
                Reply::Manifest(m) => match ledger_path(self.staging_dir.as_str()) {
                    Some(p) => {
                        self.manifest = Some(m);
                        self.stage = Stage::Reading;
                        Request::ReadLedger(p)
                    },
                    None => self.fail(
                        UpdateError::ConfigInvalid(String::from_str("Invalid staging dir")),
                    ),
                },
                other => self.fail(UpdateError::ManifestFetchFailed(complaint(other))),
            },
            Stage::Reading => match (reply, self.manifest.take()) {
                (Reply::Ledger(recorded), Some(m)) => {
                    match decide(m.version_set.as_str(), recorded.as_ref()) {
                        Err(e) => self.fail(e),
                        Ok(false) => {
                            self.stage = Stage::Finished;
                            Request::Finish(Outcome::UpToDate)
                        },
                        Ok(true) => {
                            let url = m.download_url.clone();
                            let destination = download_destination(
                                m.download_url.as_str(),
                                self.staging_dir.as_str(),
                            );
                            self.archive = destination.clone();
                            self.manifest = Some(m);
                            self.stage = Stage::Downloading;
                            Request::Download { url, destination }
                        },
                    }
                },
                (other, _) => self.fail(UpdateError::FilesystemOperationFailed(complaint(other))),
            },
            Stage::Downloading => match (reply, self.manifest.take()) {
                (Reply::Done, Some(m)) => {
                    self.stage = Stage::Installing;
                    Request::Install { archive: self.archive.clone(), manifest: m }
                },
                (other, _) => self.fail(UpdateError::ArtifactDownloadFailed(complaint(other))),
            },
            Stage::Installing => match reply {
                Reply::Done => {
                    self.stage = Stage::Finished;
                    Request::Finish(Outcome::Installed)
                },
                Reply::InstallFailed(e) => self.fail(e),
                other => self.fail(UpdateError::FilesystemOperationFailed(complaint(other))),
            },
            Stage::Finished => Request::Stopped,
            Stage::Failed => Request::Stopped,
        }
    }
}


impl UpdaterModel {
    /// The release is admitted at this step: the record arrives, and the
    /// release of the manifest at hand is to be installed over it.
    pub open spec fn admits(self, r: ReplyModel) -> bool {
        self.stage == Stage::Reading && (match (r, self.manifest) {
            (ReplyModel::Ledger(recorded), Some(m)) => admission(m.version_set, recorded) == Ok::<
                bool,
                ErrorModel,
            >(true),
            _ => false,
        })
    }

    /// Somewhere in the run that takes `replies` from this state on, a
    /// download or an installation is asked for before the release has been
    /// admitted.
    pub open spec fn transfers_unadmitted(self, replies: Seq<ReplyModel>) -> bool
        decreases replies.len(),
    {
        if replies.len() == 0 {
            false
        } else if self.admits(replies[0]) {
            false
        } else {
            self.step(replies[0]).1 is Download || self.step(replies[0]).1 is Install
                || self.step(replies[0]).0.transfers_unadmitted(replies.skip(1))
        }
    }

    /// Somewhere in the run that takes `replies` from this state on, a
    /// download or an installation is asked for.
    pub open spec fn touches_artifact(self, replies: Seq<ReplyModel>) -> bool
        decreases replies.len(),
    {
        if replies.len() == 0 {
            false
        } else {
            self.step(replies[0]).1 is Download || self.step(replies[0]).1 is Install
                || self.step(replies[0]).0.touches_artifact(replies.skip(1))
        }
    }

    /// The stages before the admission, and those behind the end of a run.
    pub open spec fn outside_transfer(self) -> bool {
        self.stage != Stage::Downloading && self.stage != Stage::Installing
    }
}

/// On a host whose record holds a version that the release of the manifest is
/// not newer than, the step that takes the record ends the run: the host is
/// up to date, and neither a download nor an installation is asked for.
pub proof fn law_up_to_date_host_ends_run(
    s: UpdaterModel,
    m: ManifestModel,
    recorded: ReleaseModel,
    candidate: VersionModel,
    current: VersionModel,
)
    requires
        s.stage == Stage::Reading,
        s.manifest == Some(m),
        parsed(m.version_set) == Some(candidate),
        strict_version(recorded.current_version) == Some(current),
        !newer(candidate, current),
    ensures
        s.step(ReplyModel::Ledger(Some(recorded))).1 == RequestModel::Finish(Outcome::UpToDate),
        s.step(ReplyModel::Ledger(Some(recorded))).0.stage == Stage::Finished,
{
}

/// A run that has ended asks for nothing more, whatever it is told.
pub proof fn law_ended_run_stays_ended(s: UpdaterModel, replies: Seq<ReplyModel>)
    requires
        s.stage == Stage::Finished || s.stage == Stage::Failed,
    ensures
        !s.touches_artifact(replies),
    decreases replies.len(),
{
    if replies.len() > 0 {
        law_ended_run_stays_ended(s.step(replies[0]).0, replies.skip(1));
    }
}

/// Admission stands before the download: in no run, whatever the caller
/// answers, is a download or an installation asked for before the release has
/// been admitted.
pub proof fn law_admission_before_download(s: UpdaterModel, replies: Seq<ReplyModel>)
    requires
        s.outside_transfer(),
    ensures
        !s.transfers_unadmitted(replies),
    decreases replies.len(),
{
    if replies.len() > 0 {
        let r = replies[0];
        if !s.admits(r) {
            law_admission_before_download(s.step(r).0, replies.skip(1));
        }
    }
}

/// A run in which the release is not admitted when the record arrives never
/// asks for a download or an installation: the host was up to date, or
/// a version could not be read, and the run has ended.
pub proof fn law_refusal_ends_run(s: UpdaterModel, r: ReplyModel, replies: Seq<ReplyModel>)
    requires
        s.stage == Stage::Reading,
        !s.admits(r),
    ensures
        !(s.step(r).1 is Download),
        !(s.step(r).1 is Install),
        !s.step(r).0.touches_artifact(replies),
{
    law_ended_run_stays_ended(s.step(r).0, replies);
}

} // verus!
