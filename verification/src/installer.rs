//! The installation of a release, module by module. The installer decides;
//! its caller acts: each step names one action on the host, and the next step
//! takes what came of it.

use crate::checksum::check_digest;
use crate::error::{ErrorModel, UpdateError};
use crate::ledger::{ledger_path, marker_path, record_path, set_current_version, Release, ReleaseModel};
use crate::manifest::{Manifest, ManifestModel, Module, ModuleModel};
use crate::paths::{join, joined};
use crate::text::{decimal, decimal_string, same_ignoring_case};
use crate::versions::{expand_shorthand, parse_version, parsed};
use vstd::prelude::*;

verus! {

/// What becomes of a module whose activation link cannot be made. The choice
/// is the caller's, made once for a run. `Fatal` is the safe one: under
/// `Tolerate` a run can end well, and the release be recorded, while the old
/// binary or none is active.
#[derive(Clone, Copy, Debug, PartialEq, Eq, Structural)]
pub enum ActivationPolicy {
    /// The module counts as installed; the failure is the caller's to report.
    Tolerate,
    /// The run stops.
    Fatal,
}

/// Where a run stands: which answer the installer waits for.
#[derive(Clone, Copy, Debug, PartialEq, Eq, Structural)]
pub enum Phase {
    /// Nothing has been asked yet.
    Idle,
    /// The workspace is being emptied.
    Clearing,
    /// The archive is being unpacked.
    Unpacking,
    /// The binary of the current module is being looked for.
    Locating,
    /// The digest of the located binary is being computed.
    Verifying,
    /// The release directory of the current module is being made.
    Staging,
    /// The binary is being moved into the release directory.
    Moving,
    /// The activation link is being set.
    Activating,
    /// The version marker of the current module is being written.
    Marking,
    /// The workspace is being removed.
    Cleaning,
    /// The clock is being read.
    Stamping,
    /// The release record is being written.
    Recording,
    /// The run has ended well.
    Finished,
    /// The run has ended with an error.
    Failed,
}

/// One action on the host.
#[derive(Clone, Debug, PartialEq, Eq)]
pub enum Action {
    /// Remove the directory with all that is in it, if it exists; then make
    /// it, with the directories above it.
    ResetDir(String),
    /// Unpack the archive into the directory.
    Unpack { archive: String, into: String },
    /// Search the directory tree below `root` for a file named `binary`.
    Locate { root: String, binary: String },
    /// Compute the SHA-256 digest of the file.
    Digest(String),
    /// Move the file.
    Move { from: String, to: String },
    /// Remove what stands at `link`, if anything, and make `link` a symbolic
    /// link to `target`.
    Activate { link: String, target: String },
    /// Write the file.
    WriteFile { path: String, content: String },
    /// Remove the directory with all that is in it.
    RemoveDir(String),
    /// Read the clock.
    ReadClock,
    /// Write the release record.
    WriteRelease { path: String, record: Release },
    /// Nothing more: the release is installed.
    Finish,
    /// Nothing more: the run has failed.
    Abort(UpdateError),
    /// Nothing: the run ended before this step.
    Stopped,
}

/// An action as plain values.
pub enum ActionModel {
    ResetDir(Seq<char>),
    Unpack { archive: Seq<char>, into: Seq<char> },
    Locate { root: Seq<char>, binary: Seq<char> },
    Digest(Seq<char>),
    Move { from: Seq<char>, to: Seq<char> },
    Activate { link: Seq<char>, target: Seq<char> },
    WriteFile { path: Seq<char>, content: Seq<char> },
    RemoveDir(Seq<char>),
    ReadClock,
    WriteRelease { path: Seq<char>, record: ReleaseModel },
    Finish,
    Abort(ErrorModel),
    Stopped,
}

impl View for Action {
    type V = ActionModel;

    open spec fn view(&self) -> ActionModel {
        match self {
            Action::ResetDir(p) => ActionModel::ResetDir(p@),
            Action::Unpack { archive, into } => ActionModel::Unpack {
                archive: archive@,
                into: into@,
            },
            Action::Locate { root, binary } => ActionModel::Locate { root: root@, binary: binary@ },
            Action::Digest(p) => ActionModel::Digest(p@),
            Action::Move { from, to } => ActionModel::Move { from: from@, to: to@ },
            Action::Activate { link, target } => ActionModel::Activate {
                link: link@,
                target: target@,
            },
            Action::WriteFile { path, content } => ActionModel::WriteFile {
                path: path@,
                content: content@,
            },
            Action::RemoveDir(p) => ActionModel::RemoveDir(p@),
            Action::ReadClock => ActionModel::ReadClock,
            Action::WriteRelease { path, record } => ActionModel::WriteRelease {
                path: path@,
                record: record@,
            },
            Action::Finish => ActionModel::Finish,
            Action::Abort(e) => ActionModel::Abort(e@),
            Action::Stopped => ActionModel::Stopped,
        }
    }
}

/// What came of an action.
#[derive(Clone, Debug, PartialEq, Eq)]
pub enum Event {
    /// The run is to begin.
    Begin,
    /// The action was carried out.
    Done,
    /// The action failed, for this reason.
    Failed(String),
    /// The search found the file here.
    Found(String),
    /// The search found no such file.
    Missing,
    /// The digest of the file, in hexadecimal.
    Digest(String),
    /// The time, in seconds since the epoch.
    Clock(u64),
}

/// An event as plain values.
pub enum EventModel {
    Begin,
    Done,
    Failed(Seq<char>),
    Found(Seq<char>),
    Missing,
    Digest(Seq<char>),
    Clock(u64),
}

impl View for Event {
    type V = EventModel;

    open spec fn view(&self) -> EventModel {
        match self {
            Event::Begin => EventModel::Begin,
            Event::Done => EventModel::Done,
            Event::Failed(r) => EventModel::Failed(r@),
            Event::Found(p) => EventModel::Found(p@),
            Event::Missing => EventModel::Missing,
            Event::Digest(d) => EventModel::Digest(d@),
            Event::Clock(t) => EventModel::Clock(*t),
        }
    }
}

/// The state of a run as plain values.
pub struct InstallerModel {
    pub manifest: ManifestModel,
    pub archive: Seq<char>,
    pub staging_dir: Seq<char>,
    pub policy: ActivationPolicy,
    pub phase: Phase,
    /// The number of the current module: those before it are installed.
    pub index: nat,
    /// Where the binary of the current module was found.
    pub found: Seq<char>,
    /// Where the release record stands.
    pub ledger: Seq<char>,
    /// The version that the release record will hold.
    pub stamp: Seq<char>,
}

/// The directory into which the archive is unpacked.
pub open spec fn workspace(staging_dir: Seq<char>) -> Seq<char> {
    joined(staging_dir, "unpacked"@)
}

/// The release directory of a module: `releases/v<version>` below its target
/// directory.
pub open spec fn release_dir(m: ModuleModel) -> Seq<char> {
    joined(joined(m.target_dir, "releases"@), "v"@ + m.version)
}

/// Where the binary of a module lies once it is staged.
pub open spec fn staged_binary(m: ModuleModel) -> Seq<char> {
    joined(release_dir(m), m.binary)
}

/// The reason that an event gives for a failure.
pub open spec fn reason_of(e: EventModel) -> Seq<char> {
    match e {
        EventModel::Failed(r) => r,
        _ => "unexpected answer"@,
    }
}

impl InstallerModel {
    /// The state at the start of a run.
    pub open spec fn initial(
        manifest: ManifestModel,
        archive: Seq<char>,
        staging_dir: Seq<char>,
        policy: ActivationPolicy,
    ) -> InstallerModel {
        InstallerModel {
            manifest,
            archive,
            staging_dir,
            policy,
            phase: Phase::Idle,
            index: 0,
            found: Seq::<char>::empty(),
            ledger: Seq::<char>::empty(),
            stamp: Seq::<char>::empty(),
        }
    }

    /// The module that the run is working on.
    pub open spec fn current(self) -> ModuleModel {
        self.manifest.modules[self.index as int]
    }

    /// The same state in another phase.
    pub open spec fn at(self, phase: Phase) -> InstallerModel {
        InstallerModel { phase, ..self }
    }

    /// The run stops with an error.
    pub open spec fn fail(self, error: ErrorModel) -> (InstallerModel, ActionModel) {
        (self.at(Phase::Failed), ActionModel::Abort(error))
    }

    /// The run turns to module `i`: its binary is looked for. Behind the
    /// last module the workspace is removed.
    pub open spec fn enter(self, i: nat) -> (InstallerModel, ActionModel) {
        if i < self.manifest.modules.len() {
            (
                InstallerModel { phase: Phase::Locating, index: i, ..self },
                ActionModel::Locate {
                    root: workspace(self.staging_dir),
                    binary: self.manifest.modules[i as int].binary,
                },
            )
        } else {
            (
                InstallerModel { phase: Phase::Cleaning, index: i, ..self },
                ActionModel::RemoveDir(workspace(self.staging_dir)),
            )
        }
    }

    /// The current module is recorded: its version is parsed, and the
    /// canonical text of it goes into the module's marker.
    pub open spec fn mark(self) -> (InstallerModel, ActionModel) {
        match parsed(self.current().version) {
            Some(v) => (
                self.at(Phase::Marking),
                ActionModel::WriteFile {
                    path: marker_path(self.current().target_dir),
                    content: v.render(),
                },
            ),
            None => self.fail(
                ErrorModel::VersionParseFailed(expand_shorthand(self.current().version)),
            ),
        }
    }

    /// The release record is prepared: the version of the set is parsed, and
    /// the clock is read next. A release without modules leaves no record.
    pub open spec fn seal(self) -> (InstallerModel, ActionModel) {
        if self.manifest.modules.len() == 0 {
            (self.at(Phase::Finished), ActionModel::Finish)
        } else {
            match parsed(self.manifest.version_set) {
                Some(v) => (
                    InstallerModel { phase: Phase::Stamping, stamp: v.render(), ..self },
                    ActionModel::ReadClock,
                ),
                None => self.fail(
                    ErrorModel::VersionParseFailed(expand_shorthand(self.manifest.version_set)),
                ),
            }
        }
    }

    /// One step of a run: from a state and the answer to the action that was
    /// asked last, to the next state and the next action.
    pub open spec fn step(self, e: EventModel) -> (InstallerModel, ActionModel) {
        match self.phase {
            Phase::Idle => match record_path(self.staging_dir) {
                Some(p) => (
                    InstallerModel { phase: Phase::Clearing, ledger: p, ..self },
                    ActionModel::ResetDir(workspace(self.staging_dir)),
                ),
                None => self.fail(ErrorModel::ConfigInvalid("Invalid staging dir"@)),
            },
            Phase::Clearing => match e {
                EventModel::Done => (
                    self.at(Phase::Unpacking),
                    ActionModel::Unpack {
                        archive: self.archive,
                        into: workspace(self.staging_dir),
                    },
                ),
                _ => self.fail(ErrorModel::FilesystemOperationFailed(reason_of(e))),
            },
            Phase::Unpacking => match e {
                EventModel::Done => self.enter(0),
                _ => self.fail(ErrorModel::ArchiveUnpackFailed(reason_of(e))),
            },
            Phase::Locating => match e {
                EventModel::Found(p) => (
                    InstallerModel { phase: Phase::Verifying, found: p, ..self },
                    ActionModel::Digest(p),
                ),
                _ => self.fail(ErrorModel::BinaryNotFoundInArchive(self.current().binary)),
            },
            Phase::Verifying => match e {
                EventModel::Digest(d) => if same_ignoring_case(d, self.current().checksum) {
                    (self.at(Phase::Staging), ActionModel::ResetDir(release_dir(self.current())))
                } else {
                    self.fail(
                        ErrorModel::ChecksumMismatch {
                            expected: self.current().checksum,
                            computed: d,
                        },
                    )
                },
                _ => self.fail(ErrorModel::FilesystemOperationFailed(reason_of(e))),
            },
            Phase::Staging => match e {
                EventModel::Done => (
                    self.at(Phase::Moving),
                    ActionModel::Move { from: self.found, to: staged_binary(self.current()) },
                ),
                _ => self.fail(ErrorModel::FilesystemOperationFailed(reason_of(e))),
            },
            Phase::Moving => match e {
                EventModel::Done => match self.current().start_command {
                    Some(link) => (
                        self.at(Phase::Activating),
                        ActionModel::Activate { link, target: staged_binary(self.current()) },
                    ),
                    None => self.mark(),
                },
                _ => self.fail(ErrorModel::FilesystemOperationFailed(reason_of(e))),
            },
            Phase::Activating => match e {
                EventModel::Done => self.mark(),
                _ => if self.policy == ActivationPolicy::Tolerate {
                    self.mark()
                } else {
                    self.fail(ErrorModel::FilesystemOperationFailed(reason_of(e)))
                },
            },
            Phase::Marking => match e {
                EventModel::Done => self.enter(self.index + 1),
                _ => self.fail(ErrorModel::LedgerWriteFailed(reason_of(e))),
            },
            Phase::Cleaning => match e {
                EventModel::Done => self.seal(),
                _ => self.fail(ErrorModel::FilesystemOperationFailed(reason_of(e))),
            },
            Phase::Stamping => match e {
                EventModel::Clock(t) => (
                    self.at(Phase::Recording),
                    ActionModel::WriteRelease {
                        path: self.ledger,
                        record: ReleaseModel {
                            current_version: self.stamp,
                            installed: decimal(t as nat),
                        },
                    },
                ),
                _ => self.fail(ErrorModel::LedgerWriteFailed(reason_of(e))),
            },
            Phase::Recording => match e {
                EventModel::Done => (self.at(Phase::Finished), ActionModel::Finish),
                _ => self.fail(ErrorModel::LedgerWriteFailed(reason_of(e))),
            },
            Phase::Finished => (self, ActionModel::Stopped),
            Phase::Failed => (self, ActionModel::Stopped),
        }
    }
}


/// An installation in progress.
pub struct Installer {
    manifest: Manifest,
    archive: String,
    staging_dir: String,
    policy: ActivationPolicy,
    phase: Phase,
    index: usize,
    found: String,
    ledger: String,
    stamp: String,
}

impl View for Installer {
    type V = InstallerModel;

    closed spec fn view(&self) -> InstallerModel {
        InstallerModel {
            manifest: self.manifest@,
            archive: self.archive@,
            staging_dir: self.staging_dir@,
            policy: self.policy,
            phase: self.phase,
            index: self.index as nat,
            found: self.found@,
            ledger: self.ledger@,
            stamp: self.stamp@,
        }
    }
}

/// The phases in which the run works on one module.
pub open spec fn on_module(phase: Phase) -> bool {
    phase == Phase::Locating || phase == Phase::Verifying || phase == Phase::Staging || phase
        == Phase::Moving || phase == Phase::Activating || phase == Phase::Marking
}

fn workspace_of(staging_dir: &str) -> (r: String)
    ensures
        r@ == workspace(staging_dir@),
{
    join(staging_dir, "unpacked")
}

fn release_dir_of(m: &Module) -> (r: String)
    ensures
        r@ == release_dir(m@),
{
    let base = join(m.target_dir.as_str(), "releases");
    let mut leaf = String::from_str("v");
    leaf.append(m.version.as_str());
    join(base.as_str(), leaf.as_str())
}

fn staged_binary_of(m: &Module) -> (r: String)
    ensures
        r@ == staged_binary(m@),
{
    let dir = release_dir_of(m);
    join(dir.as_str(), m.binary.as_str())
}

fn reason(e: Event) -> (r: String)
    ensures
        r@ == reason_of(e@),
{
    match e {
        Event::Failed(r) => r,
        _ => String::from_str("unexpected answer"),
    }
}

impl Installer {
    #[verifier::type_invariant]
    spec fn bounded(self) -> bool {
        self.index <= self.manifest.modules.len() && (on_module(self.phase) ==> self.index
            < self.manifest.modules.len())
    }

    /// A run that installs `manifest` from the archive at `archive_path`,
    /// with `staging_dir` as its working place.
    pub fn new(
        archive_path: &str,
        staging_dir: &str,
        manifest: Manifest,
        policy: ActivationPolicy,
    ) -> (s: Installer)
        ensures
            s@ == InstallerModel::initial(manifest@, archive_path@, staging_dir@, policy),
    {
        Installer {
            manifest,
            archive: String::from_str(archive_path),
            staging_dir: String::from_str(staging_dir),
            policy,
            phase: Phase::Idle,
            index: 0,
            found: String::new(),
            ledger: String::new(),
            stamp: String::new(),
        }
    }

    /// The phase of the run.
    pub fn phase(&self) -> (p: Phase)
        ensures
            p == self@.phase,
    {
        self.phase
    }

    /// The number of modules that the run has installed and recorded.
    pub fn installed(&self) -> (n: usize)
        ensures
            n == self@.index,
    {
        self.index
    }

    /// The manifest that the run installs.
    pub fn manifest(&self) -> (m: &Manifest)
        ensures
            m@ == self@.manifest,
    {
        &self.manifest
    }

    fn fail(&mut self, error: UpdateError) -> (a: Action)
        ensures
            (final(self)@, a@) == old(self)@.fail(error@),
    {
        proof {
            use_type_invariant(&*self);
        }
        self.phase = Phase::Failed;
        Action::Abort(error)
    }

    fn enter(&mut self, i: usize) -> (a: Action)
        requires
            i <= old(self)@.manifest.modules.len(),
            !on_module(old(self)@.phase) || i < old(self)@.manifest.modules.len(),
        ensures
            (final(self)@, a@) == old(self)@.enter(i as nat),
    {
        proof {
            use_type_invariant(&*self);
        }
        if i < self.manifest.modules.len() {
            let root = workspace_of(self.staging_dir.as_str());
            let binary = self.manifest.modules[i].binary.clone();
            self.index = i;
            self.phase = Phase::Locating;
            Action::Locate { root, binary }
        } else {
            let dir = workspace_of(self.staging_dir.as_str());
            self.phase = Phase::Cleaning;
            self.index = i;
            Action::RemoveDir(dir)
        }
    }

    fn mark(&mut self) -> (a: Action)
        requires
            on_module(old(self)@.phase),
        ensures
            (final(self)@, a@) == old(self)@.mark(),
    {
        proof {
            use_type_invariant(&*self);
        }
        let m: &Module = &self.manifest.modules[self.index];
        match parse_version(m.version.as_str()) {
            Ok(v) => {
                let w = set_current_version(m.target_dir.as_str(), &v);
                self.phase = Phase::Marking;
                Action::WriteFile { path: w.path, content: w.content }
            },
            Err(e) => self.fail(
                UpdateError::VersionParseFailed { input: e.input, reason: e.reason },
            ),
        }
    }

    fn seal(&mut self) -> (a: Action)
        requires
            !on_module(old(self)@.phase),
        ensures
            (final(self)@, a@) == old(self)@.seal(),
    {
        proof {
            use_type_invariant(&*self);
        }
        if self.manifest.modules.len() == 0 {
            self.phase = Phase::Finished;
            Action::Finish
        } else {
            match parse_version(self.manifest.version_set.as_str()) {
                Ok(v) => {
                    self.stamp = v.to_string();
                    self.phase = Phase::Stamping;
                    Action::ReadClock
                },
                Err(e) => self.fail(
                    UpdateError::VersionParseFailed { input: e.input, reason: e.reason },
                ),
            }
        }
    }

    /// Takes the answer to the action that was asked last and asks the next
    /// one. The first step of a run takes any event.
    pub fn step(&mut self, event: Event) -> (a: Action)
        ensures
            (final(self)@, a@) == old(self)@.step(event@),
    {
        proof {
            use_type_invariant(&*self);
        }
        match self.phase {
            Phase::Idle => match ledger_path(self.staging_dir.as_str()) {
                Some(p) => {
                    let dir = workspace_of(self.staging_dir.as_str());
                    self.ledger = p;
                    self.phase = Phase::Clearing;
                    Action::ResetDir(dir)
                },
                None => self.fail(
                    UpdateError::ConfigInvalid(String::from_str("Invalid staging dir")),
                ),
            },
            Phase::Clearing => match event {
                Event::Done => {
                    let archive = self.archive.clone();
                    let into = workspace_of(self.staging_dir.as_str());
                    self.phase = Phase::Unpacking;
                    Action::Unpack { archive, into }
                },
                other => self.fail(UpdateError::FilesystemOperationFailed(reason(other))),
            },
            Phase::Unpacking => match event {
                Event::Done => self.enter(0),
                other => self.fail(UpdateError::ArchiveUnpackFailed(reason(other))),
            },
            Phase::Locating => match event {
                Event::Found(p) => {
                    self.found = p.clone();
                    self.phase = Phase::Verifying;
                    Action::Digest(p)
                },
                _ => {
                    let binary = self.manifest.modules[self.index].binary.clone();
                    self.fail(UpdateError::BinaryNotFoundInArchive(binary))
                },
            },
            Phase::Verifying => match event {
                Event::Digest(d) => {
                    let m: &Module = &self.manifest.modules[self.index];
                    match check_digest(d.as_str(), m.checksum.as_str()) {
                        Ok(_) => {
                            let dir = release_dir_of(m);
                            self.phase = Phase::Staging;
                            Action::ResetDir(dir)
                        },
                        Err(e) => self.fail(
                            UpdateError::ChecksumMismatch {
                                expected: e.expected,
                                computed: e.computed,
                            },
                        ),
                    }
                },
                other => self.fail(UpdateError::FilesystemOperationFailed(reason(other))),
            },
            Phase::Staging => match event {
                Event::Done => {
                    let from = self.found.clone();
                    let to = staged_binary_of(&self.manifest.modules[self.index]);
                    self.phase = Phase::Moving;
                    Action::Move { from, to }
                },
                other => self.fail(UpdateError::FilesystemOperationFailed(reason(other))),
            },
            Phase::Moving => match event {
                Event::Done => {
                    let m: &Module = &self.manifest.modules[self.index];
                    match &m.start_command {
                        Some(link) => {
                            let link = link.clone();
                            let target = staged_binary_of(m);
                            self.phase = Phase::Activating;
                            Action::Activate { link, target }
                        },
                        None => self.mark(),
                    }
                },
                other => self.fail(UpdateError::FilesystemOperationFailed(reason(other))),
            },
            Phase::Activating => match event {
                Event::Done => self.mark(),
                other => match self.policy {
                    ActivationPolicy::Tolerate => self.mark(),
                    ActivationPolicy::Fatal => self.fail(
                        UpdateError::FilesystemOperationFailed(reason(other)),
                    ),
                },
            },
            Phase::Marking => match event {
                Event::Done => {
                    let next: usize = self.index + 1;
                    self.phase = Phase::Cleaning;
                    self.enter(next)
                },
                other => self.fail(UpdateError::LedgerWriteFailed(reason(other))),
            },
            Phase::Cleaning => match event {
                Event::Done => self.seal(),
                other => self.fail(UpdateError::FilesystemOperationFailed(reason(other))),
            },
            Phase::Stamping => match event {
                Event::Clock(t) => {
                    let path = self.ledger.clone();
                    let record = Release {
                        current_version: self.stamp.clone(),
                        installed: decimal_string(t),
                    };
                    self.phase = Phase::Recording;
                    Action::WriteRelease { path, record }
                },
                other => self.fail(UpdateError::LedgerWriteFailed(reason(other))),
            },
            Phase::Recording => match event {
                Event::Done => {
                    self.phase = Phase::Finished;
                    Action::Finish
                },
                other => self.fail(UpdateError::LedgerWriteFailed(reason(other))),
            },
            Phase::Finished => Action::Stopped,
            Phase::Failed => Action::Stopped,
        }
    }
}


impl InstallerModel {
    /// This step verifies module `i`: the digest of its binary arrives and is
    /// the one that the manifest expects.
    pub open spec fn verifies(self, e: EventModel, i: nat) -> bool {
        self.phase == Phase::Verifying && self.index == i && (match e {
            EventModel::Digest(d) => same_ignoring_case(d, self.current().checksum),
            _ => false,
        })
    }

    /// This step asks for a change to what module `i` has on the host: its
    /// release directory, its binary, its link or its marker.
    pub open spec fn changes(self, e: EventModel, i: nat) -> bool {
        on_module(self.phase) && self.index == i && (self.step(e).1 is ResetDir || self.step(
            e,
        ).1 is Move || self.step(e).1 is Activate || self.step(e).1 is WriteFile)
    }

    /// This step records module `i`: its marker has been written.
    pub open spec fn marks(self, e: EventModel, i: nat) -> bool {
        self.phase == Phase::Marking && self.index == i && e is Done
    }

    /// This step stops the run over a module.
    pub open spec fn gives_up_module(self, e: EventModel) -> bool {
        on_module(self.phase) && self.step(e).1 is Abort
    }

    /// Somewhere in the run that takes `events` from this state on, a change
    /// to module `i` is asked for before the module has been verified.
    pub open spec fn changes_unverified(self, events: Seq<EventModel>, i: nat) -> bool
        decreases events.len(),
    {
        if events.len() == 0 {
            false
        } else if self.verifies(events[0], i) {
            false
        } else {
            self.changes(events[0], i) || self.step(events[0]).0.changes_unverified(
                events.skip(1),
                i,
            )
        }
    }

    /// Somewhere in the run that takes `events` from this state on, the run
    /// goes beyond module `i`, or asks for the release record to be written,
    /// before module `i` has been recorded.
    pub open spec fn passes_unmarked(self, events: Seq<EventModel>, i: nat) -> bool
        decreases events.len(),
    {
        if events.len() == 0 {
            false
        } else if self.marks(events[0], i) {
            false
        } else {
            self.step(events[0]).0.index > i || self.step(events[0]).1 is WriteRelease
                || self.step(events[0]).0.passes_unmarked(events.skip(1), i)
        }
    }

    /// Somewhere in the run that takes `events` from this state on, the
    /// release record is asked to be written.
    pub open spec fn records_release(self, events: Seq<EventModel>) -> bool
        decreases events.len(),
    {
        if events.len() == 0 {
            false
        } else {
            self.step(events[0]).1 is WriteRelease || self.step(events[0]).0.records_release(
                events.skip(1),
            )
        }
    }

    /// Somewhere in the run that takes `events` from this state on, the run
    /// stops over a module.
    pub open spec fn gives_up(self, events: Seq<EventModel>) -> bool
        decreases events.len(),
    {
        if events.len() == 0 {
            false
        } else {
            self.gives_up_module(events[0]) || self.step(events[0]).0.gives_up(events.skip(1))
        }
    }

    /// Somewhere in the run that takes `events` from this state on, anything
    /// but `Stopped` is asked for.
    pub open spec fn acts(self, events: Seq<EventModel>) -> bool
        decreases events.len(),
    {
        if events.len() == 0 {
            false
        } else {
            self.step(events[0]).1 != ActionModel::Stopped || self.step(events[0]).0.acts(
                events.skip(1),
            )
        }
    }

    /// The run has not come to module `i` yet, or has not verified it yet.
    pub open spec fn before_staging(self, i: nat) -> bool {
        !on_module(self.phase) || self.index < i || (self.index == i && (self.phase
            == Phase::Locating || self.phase == Phase::Verifying))
    }

    /// The run is behind its last module.
    pub open spec fn closing(self) -> bool {
        self.phase == Phase::Cleaning || self.phase == Phase::Stamping || self.phase
            == Phase::Recording || self.phase == Phase::Finished || self.phase == Phase::Failed
    }
}

/// A run that has ended asks for nothing more, whatever it is told.
pub proof fn law_ended_run_stays_ended(s: InstallerModel, events: Seq<EventModel>)
    requires
        s.phase == Phase::Finished || s.phase == Phase::Failed,
    ensures
        !s.acts(events),
    decreases events.len(),
{
    if events.len() > 0 {
        law_ended_run_stays_ended(s.step(events[0]).0, events.skip(1));
    }
}

/// The checksum stands before every change: in no run, whatever the host
/// answers, is a change to a module asked for before the digest of its binary
/// has arrived and matched.
pub proof fn law_checksum_before_change(s: InstallerModel, events: Seq<EventModel>, i: nat)
    requires
        s.before_staging(i),
    ensures
        !s.changes_unverified(events, i),
    decreases events.len(),
{
    if events.len() > 0 {
        let e = events[0];
        if !s.verifies(e, i) {
            law_checksum_before_change(s.step(e).0, events.skip(1), i);
        }
    }
}

/// Modules are recorded in order, and the release record comes last: in no
/// run that starts at or before module `i` does the run go beyond module `i`,
/// or ask for the release record, before the marker of module `i` has been
/// written.
pub proof fn law_record_follows_markers(s: InstallerModel, events: Seq<EventModel>, i: nat)
    requires
        i < s.manifest.modules.len(),
        s.index <= i,
        s.phase != Phase::Cleaning && s.phase != Phase::Stamping && s.phase != Phase::Recording,
    ensures
        !s.passes_unmarked(events, i),
    decreases events.len(),
{
    if events.len() > 0 {
        let e = events[0];
        if !s.marks(e, i) {
            law_record_follows_markers(s.step(e).0, events.skip(1), i);
        }
    }
}

/// A run behind its last module never gives up over a module.
proof fn lemma_closing_run_keeps_modules(s: InstallerModel, events: Seq<EventModel>)
    requires
        s.closing(),
    ensures
        !s.gives_up(events),
    decreases events.len(),
{
    if events.len() > 0 {
        lemma_closing_run_keeps_modules(s.step(events[0]).0, events.skip(1));
    }
}

/// A run that has ended never asks for the release record.
proof fn lemma_ended_run_records_nothing(s: InstallerModel, events: Seq<EventModel>)
    requires
        s.phase == Phase::Finished || s.phase == Phase::Failed,
    ensures
        !s.records_release(events),
    decreases events.len(),
{
    if events.len() > 0 {
        lemma_ended_run_records_nothing(s.step(events[0]).0, events.skip(1));
    }
}

/// A failure over a module leaves the release record alone: no run, from any
/// state and whatever the host answers, both stops over a module and asks for
/// the release record to be written.
pub proof fn law_module_failure_keeps_record(s: InstallerModel, events: Seq<EventModel>)
    ensures
        !(s.gives_up(events) && s.records_release(events)),
    decreases events.len(),
{
    if events.len() > 0 {
        let e = events[0];
        let next = s.step(e).0;
        let rest = events.skip(1);
        if s.gives_up_module(e) {
            lemma_ended_run_records_nothing(next, rest);
        } else if s.step(e).1 is WriteRelease {
            lemma_closing_run_keeps_modules(next, rest);
        } else {
            law_module_failure_keeps_record(next, rest);
        }
    }
}

/// What a run asks of the host for a module is fixed by the manifest: the
/// release directory that is made, the place to which the binary is moved
/// and the target of the activation link are the same in every run, whatever
/// the host answered before.
pub proof fn law_places_are_fixed_by_manifest(s: InstallerModel, e: EventModel)
    requires
        on_module(s.phase),
    ensures
        s.step(e).1 matches ActionModel::ResetDir(dir) ==> dir == release_dir(s.current()),
        s.step(e).1 matches ActionModel::Move { from, to } ==> to == staged_binary(s.current()),
        s.step(e).1 matches ActionModel::Activate { link, target } ==> s.current().start_command
            == Some(link) && target == staged_binary(s.current()),
        s.step(e).1 matches ActionModel::WriteFile { path, content } ==> path == marker_path(
            s.current().target_dir,
        ) && parsed(s.current().version) is Some && content == parsed(
            s.current().version,
        )->0.render(),
{
}

} // verus!
