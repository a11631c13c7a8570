//! What an installation leaves on the host: the directories it makes and the
//! activation links it sets, followed through a run answer by answer, and the
//! proof that a second run of the same release changes neither.

use crate::installer::{
    on_module,
    release_dir,
    staged_binary,
    workspace,
    ActivationPolicy,
    EventModel,
    InstallerModel,
    Phase,
};
use crate::manifest::{ManifestModel, ModuleModel};
use vstd::prelude::*;

verus! {

/// The part of a host that installations share: which directories exist, and
/// where the activation links point.
pub struct HostModel {
    pub dirs: Set<Seq<char>>,
    pub links: Map<Seq<char>, Seq<char>>,
}

impl HostModel {
    /// The host with this directory made.
    pub open spec fn with_dir(self, path: Seq<char>) -> HostModel {
        HostModel { dirs: self.dirs.insert(path), ..self }
    }

    /// The host with this directory removed.
    pub open spec fn without_dir(self, path: Seq<char>) -> HostModel {
        HostModel { dirs: self.dirs.remove(path), ..self }
    }

    /// The host with the activation link of `m` set, if `m` has one.
    pub open spec fn activated(self, m: ModuleModel) -> HostModel {
        match m.start_command {
            Some(link) => HostModel { links: self.links.insert(link, staged_binary(m)), ..self },
            None => self,
        }
    }

    /// The host with the release directory of `m` made and its link set.
    pub open spec fn with_module(self, m: ModuleModel) -> HostModel {
        self.with_dir(release_dir(m)).activated(m)
    }

    /// The host with the modules from number `i` on installed, in order.
    pub open spec fn with_modules(self, modules: Seq<ModuleModel>, i: nat) -> HostModel
        decreases modules.len() - i,
    {
        if i >= modules.len() {
            self
        } else {
            self.with_module(modules[i as int]).with_modules(modules, i + 1)
        }
    }

    /// The host after a complete installation of `manifest` with the working
    /// place `staging_dir`: the workspace has come and gone, and every module
    /// has its release directory and its link.
    pub open spec fn installed(self, manifest: ManifestModel, staging_dir: Seq<char>) -> HostModel {
        self.with_dir(workspace(staging_dir)).with_modules(manifest.modules, 0).without_dir(
            workspace(staging_dir),
        )
    }
}

/// Whether a module from number `i` on has `path` for its release directory.
pub open spec fn releases_to(modules: Seq<ModuleModel>, i: nat, path: Seq<char>) -> bool
    decreases modules.len() - i,
{
    if i >= modules.len() {
        false
    } else {
        release_dir(modules[i as int]) == path || releases_to(modules, i + 1, path)
    }
}

/// Where the link `link` points once the modules from number `i` on are
/// installed: at the binary of the last of them that has this link; nowhere
/// where none has it.
pub open spec fn links_to(modules: Seq<ModuleModel>, i: nat, link: Seq<char>) -> Option<Seq<char>>
    decreases modules.len() - i,
{
    if i >= modules.len() {
        None
    } else {
        match links_to(modules, i + 1, link) {
            Some(t) => Some(t),
            None => if modules[i as int].start_command == Some(link) {
                Some(staged_binary(modules[i as int]))
            } else {
                None
            },
        }
    }
}

impl InstallerModel {
    /// The host once the answer `e` to the action that the run waits on has
    /// arrived. Only an action that was carried out changes the host: a
    /// directory that was reset exists, the workspace that was removed is
    /// gone, a link that was set points at the staged binary.
    pub open spec fn settled(self, e: EventModel, h: HostModel) -> HostModel {
        if !(e is Done) {
            h
        } else if self.phase == Phase::Clearing {
            h.with_dir(workspace(self.staging_dir))
        } else if self.phase == Phase::Staging {
            h.with_dir(release_dir(self.current()))
        } else if self.phase == Phase::Activating {
            h.activated(self.current())
        } else if self.phase == Phase::Cleaning {
            h.without_dir(workspace(self.staging_dir))
        } else {
            h
        }
    }

    /// The state after the run that takes `events` from this state on.
    pub open spec fn state_after(self, events: Seq<EventModel>) -> InstallerModel
        decreases events.len(),
    {
        if events.len() == 0 {
            self
        } else {
            self.step(events[0]).0.state_after(events.skip(1))
        }
    }

    /// The host after the run that takes `events` from this state on.
    pub open spec fn host_after(self, events: Seq<EventModel>, h: HostModel) -> HostModel
        decreases events.len(),
    {
        if events.len() == 0 {
            h
        } else {
            self.step(events[0]).0.host_after(events.skip(1), self.settled(events[0], h))
        }
    }

    /// In the run that takes `events` from this state on, every activation
    /// link that is asked for is made.
    pub open spec fn links_made(self, events: Seq<EventModel>) -> bool
        decreases events.len(),
    {
        if events.len() == 0 {
            true
        } else {
            (self.phase == Phase::Activating ==> events[0] is Done) && self.step(
                events[0],
            ).0.links_made(events.skip(1))
        }
    }

    /// The current module is within the manifest while the run works on one.
    pub open spec fn in_bounds(self) -> bool {
        self.index <= self.manifest.modules.len() && (on_module(self.phase) ==> self.index
            < self.manifest.modules.len())
    }

    /// The host that a run from this state on leaves if it ends well and
    /// makes every link: what is still to come of the installation, applied
    /// to the host as it is.
    pub open spec fn outcome(self, h: HostModel) -> HostModel {
        let w = workspace(self.staging_dir);
        let modules = self.manifest.modules;
        match self.phase {
            Phase::Idle => h.installed(self.manifest, self.staging_dir),
            Phase::Clearing => h.with_dir(w).with_modules(modules, 0).without_dir(w),
            Phase::Unpacking => h.with_modules(modules, 0).without_dir(w),
            Phase::Locating => h.with_modules(modules, self.index).without_dir(w),
            Phase::Verifying => h.with_modules(modules, self.index).without_dir(w),
            Phase::Staging => h.with_modules(modules, self.index).without_dir(w),
            Phase::Moving => h.activated(self.current()).with_modules(
                modules,
                self.index + 1,
            ).without_dir(w),
            Phase::Activating => h.activated(self.current()).with_modules(
                modules,
                self.index + 1,
            ).without_dir(w),
            Phase::Marking => h.with_modules(modules, self.index + 1).without_dir(w),
            Phase::Cleaning => h.without_dir(w),
            Phase::Stamping => h,
            Phase::Recording => h,
            Phase::Finished => h,
            Phase::Failed => h,
        }
    }
}

/// A run that has failed does not end well.
proof fn lemma_failed_run_stays_failed(s: InstallerModel, events: Seq<EventModel>)
    requires
        s.phase == Phase::Failed,
    ensures
        s.state_after(events).phase == Phase::Failed,
    decreases events.len(),
{
    if events.len() > 0 {
        lemma_failed_run_stays_failed(s.step(events[0]).0, events.skip(1));
    }
}

/// A run that has ended well leaves the host as it is.
proof fn lemma_finished_run_keeps_host(s: InstallerModel, events: Seq<EventModel>, h: HostModel)
    requires
        s.phase == Phase::Finished,
    ensures
        s.host_after(events, h) == h,
    decreases events.len(),
{
    if events.len() > 0 {
        lemma_finished_run_keeps_host(s.step(events[0]).0, events.skip(1), h);
    }
}

/// A run that ends well and makes every link leaves the host that was to be
/// expected of it.
proof fn lemma_run_meets_outcome(s: InstallerModel, events: Seq<EventModel>, h: HostModel)
    requires
        s.in_bounds(),
        s.state_after(events).phase == Phase::Finished,
        s.links_made(events),
    ensures
        s.host_after(events, h) == s.outcome(h),
    decreases events.len(),
{
    if events.len() == 0 {
    } else {
        let e = events[0];
        let next = s.step(e).0;
        let rest = events.skip(1);
        let modules = s.manifest.modules;
        if next.phase == Phase::Failed {
            lemma_failed_run_stays_failed(next, rest);
        } else if s.phase == Phase::Finished {
            lemma_finished_run_keeps_host(s, events, h);
        } else {
            lemma_run_meets_outcome(next, rest, s.settled(e, h));
            assert(next.outcome(s.settled(e, h)) == s.outcome(h)) by {
                if s.phase == Phase::Verifying || s.phase == Phase::Staging {
                    assert(h.with_modules(modules, s.index) == h.with_module(
                        s.current(),
                    ).with_modules(modules, s.index + 1));
                }
                if s.phase == Phase::Unpacking || s.phase == Phase::Marking {
                    if next.phase == Phase::Cleaning {
                        assert(h.with_modules(modules, next.index) == h);
                    }
                }
            }
        }
    }
}

/// The directories of a host with modules installed are those it had and the
/// release directories of the modules.
proof fn lemma_dirs_with_modules(
    h: HostModel,
    modules: Seq<ModuleModel>,
    i: nat,
    path: Seq<char>,
)
    ensures
        h.with_modules(modules, i).dirs.contains(path) <==> h.dirs.contains(path) || releases_to(
            modules,
            i,
            path,
        ),
    decreases modules.len() - i,
{
    if i < modules.len() {
        lemma_dirs_with_modules(h.with_module(modules[i as int]), modules, i + 1, path);
    }
}

/// The links of a host with modules installed are those that the modules set,
/// and beside them those it had.
proof fn lemma_links_with_modules(
    h: HostModel,
    modules: Seq<ModuleModel>,
    i: nat,
    link: Seq<char>,
)
    ensures
        match links_to(modules, i, link) {
            Some(t) => h.with_modules(modules, i).links.dom().contains(link) && h.with_modules(
                modules,
                i,
            ).links[link] == t,
            None => (h.with_modules(modules, i).links.dom().contains(link)
                <==> h.links.dom().contains(link)) && h.with_modules(modules, i).links[link]
                == h.links[link],
        },
    decreases modules.len() - i,
{
    if i < modules.len() {
        lemma_links_with_modules(h.with_module(modules[i as int]), modules, i + 1, link);
    }
}

/// Installing a release on a host that has it installed changes nothing.
pub proof fn law_installed_twice_is_installed_once(
    h: HostModel,
    manifest: ManifestModel,
    staging_dir: Seq<char>,
)
    ensures
        h.installed(manifest, staging_dir).installed(manifest, staging_dir) == h.installed(
            manifest,
            staging_dir,
        ),
{
    let w = workspace(staging_dir);
    let modules = manifest.modules;
    let once = h.installed(manifest, staging_dir);
    let twice = once.installed(manifest, staging_dir);
    assert forall|path: Seq<char>| once.dirs.contains(path) == twice.dirs.contains(path) by {
        lemma_dirs_with_modules(h.with_dir(w), modules, 0, path);
        lemma_dirs_with_modules(once.with_dir(w), modules, 0, path);
    }
    assert forall|link: Seq<char>| #[trigger]
        once.links.dom().contains(link) == twice.links.dom().contains(link) by {
        lemma_links_with_modules(h.with_dir(w), modules, 0, link);
        lemma_links_with_modules(once.with_dir(w), modules, 0, link);
    }
    assert forall|link: Seq<char>| #[trigger]
        once.links.dom().contains(link) implies once.links[link] == twice.links[link] by {
        lemma_links_with_modules(h.with_dir(w), modules, 0, link);
        lemma_links_with_modules(once.with_dir(w), modules, 0, link);
    }
    assert(once.dirs =~= twice.dirs);
    assert(once.links =~= twice.links);
}

/// A complete run leaves the host with the release installed: where a run
/// from the start ends well and makes every link it asks for, whatever else
/// the host answered, every module has its release directory and its link,
/// and the workspace is gone.
pub proof fn law_complete_run_installs(
    manifest: ManifestModel,
    archive: Seq<char>,
    staging_dir: Seq<char>,
    policy: ActivationPolicy,
    events: Seq<EventModel>,
    h: HostModel,
)
    requires
        InstallerModel::initial(manifest, archive, staging_dir, policy).state_after(events).phase
            == Phase::Finished,
        InstallerModel::initial(manifest, archive, staging_dir, policy).links_made(events),
    ensures
        InstallerModel::initial(manifest, archive, staging_dir, policy).host_after(events, h)
            == h.installed(manifest, staging_dir),
{
    lemma_run_meets_outcome(
        InstallerModel::initial(manifest, archive, staging_dir, policy),
        events,
        h,
    );
}

/// A second run changes nothing: where two runs of one release from the
/// start both end well and make every link they ask for, the host after the
/// second is the host after the first. Each link points where it pointed, and
/// no release directory has been added.
pub proof fn law_second_run_changes_nothing(
    manifest: ManifestModel,
    archive: Seq<char>,
    staging_dir: Seq<char>,
    policy: ActivationPolicy,
    first: Seq<EventModel>,
    second: Seq<EventModel>,
    h: HostModel,
)
    requires
        InstallerModel::initial(manifest, archive, staging_dir, policy).state_after(first).phase
            == Phase::Finished,
        InstallerModel::initial(manifest, archive, staging_dir, policy).links_made(first),
        InstallerModel::initial(manifest, archive, staging_dir, policy).state_after(second).phase
            == Phase::Finished,
        InstallerModel::initial(manifest, archive, staging_dir, policy).links_made(second),
    ensures
        InstallerModel::initial(manifest, archive, staging_dir, policy).host_after(
            second,
            InstallerModel::initial(manifest, archive, staging_dir, policy).host_after(first, h),
        ) == InstallerModel::initial(manifest, archive, staging_dir, policy).host_after(first, h),
{
    let start = InstallerModel::initial(manifest, archive, staging_dir, policy);
    law_complete_run_installs(manifest, archive, staging_dir, policy, first, h);
    law_complete_run_installs(
        manifest,
        archive,
        staging_dir,
        policy,
        second,
        start.host_after(first, h),
    );
    law_installed_twice_is_installed_once(h, manifest, staging_dir);
}


/// Under the policy that a failed link stops the run, a run that ends well
/// has made every link it asked for.
proof fn lemma_strict_run_makes_links(s: InstallerModel, events: Seq<EventModel>)
    requires
        s.policy == ActivationPolicy::Fatal,
        s.state_after(events).phase == Phase::Finished,
    ensures
        s.links_made(events),
    decreases events.len(),
{
    if events.len() > 0 {
        let next = s.step(events[0]).0;
        if next.phase == Phase::Failed {
            lemma_failed_run_stays_failed(next, events.skip(1));
        } else {
            lemma_strict_run_makes_links(next, events.skip(1));
        }
    }
}

/// Under the policy that a failed link stops the run, a second run changes
/// nothing: where two runs of one release from the start both end well, the
/// host after the second is the host after the first.
pub proof fn law_second_strict_run_changes_nothing(
    manifest: ManifestModel,
    archive: Seq<char>,
    staging_dir: Seq<char>,
    first: Seq<EventModel>,
    second: Seq<EventModel>,
    h: HostModel,
)
    requires
        InstallerModel::initial(
            manifest,
            archive,
            staging_dir,
            ActivationPolicy::Fatal,
        ).state_after(first).phase == Phase::Finished,
        InstallerModel::initial(
            manifest,
            archive,
            staging_dir,
            ActivationPolicy::Fatal,
        ).state_after(second).phase == Phase::Finished,
    ensures
        InstallerModel::initial(manifest, archive, staging_dir, ActivationPolicy::Fatal).host_after(
            second,
            InstallerModel::initial(
                manifest,
                archive,
                staging_dir,
                ActivationPolicy::Fatal,
            ).host_after(first, h),
        ) == InstallerModel::initial(
            manifest,
            archive,
            staging_dir,
            ActivationPolicy::Fatal,
        ).host_after(first, h),
        InstallerModel::initial(manifest, archive, staging_dir, ActivationPolicy::Fatal).host_after(
            first,
            h,
        ) == h.installed(manifest, staging_dir),
{
    let start = InstallerModel::initial(manifest, archive, staging_dir, ActivationPolicy::Fatal);
    lemma_strict_run_makes_links(start, first);
    lemma_strict_run_makes_links(start, second);
    law_complete_run_installs(manifest, archive, staging_dir, ActivationPolicy::Fatal, first, h);
    law_second_run_changes_nothing(
        manifest,
        archive,
        staging_dir,
        ActivationPolicy::Fatal,
        first,
        second,
        h,
    );
}

} // verus!
