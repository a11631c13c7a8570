use ota_update::checksum::ChecksumStream;
use ota_update::error::UpdateError;
use ota_update::installer::{Action, ActivationPolicy, Event, Installer, Phase};
use ota_update::ledger::Release;
use ota_update::manifest::{Manifest, Module};
use ota_update::stager::{Listed, Search, SearchStep};
use sha2::Digest;
use std::collections::{BTreeMap, BTreeSet};

/// A host in memory: directories, files and links by path.
#[derive(Clone, Debug, Default, PartialEq)]
struct Host {
    dirs: BTreeSet<String>,
    files: BTreeMap<String, Vec<u8>>,
    links: BTreeMap<String, String>,
    /// What the archive holds, by path below the workspace.
    archive: BTreeMap<String, Vec<u8>>,
    /// Actions that fail on this host, by their place in the run.
    broken: BTreeSet<usize>,
    clock: u64,
}

impl Host {
    fn make_dirs(&mut self, path: &str) {
        let mut at = String::new();
        for part in path.split('/').filter(|p| !p.is_empty()) {
            at = format!("{at}/{part}");
            self.dirs.insert(at.clone());
        }
    }

    fn remove_tree(&mut self, path: &str) {
        let below = format!("{path}/");
        self.dirs.retain(|d| d != path && !d.starts_with(&below));
        self.files.retain(|f, _| !f.starts_with(&below));
        self.links.retain(|l, _| !l.starts_with(&below));
    }

    fn listing(&self, dir: &str) -> Vec<Listed> {
        let below = format!("{dir}/");
        let mut names = BTreeSet::new();
        for d in &self.dirs {
            if let Some(rest) = d.strip_prefix(&below) {
                if !rest.contains('/') {
                    names.insert((rest.to_string(), true));
                }
            }
        }
        for f in self.files.keys() {
            if let Some(rest) = f.strip_prefix(&below) {
                if !rest.contains('/') {
                    names.insert((rest.to_string(), false));
                }
            }
        }
        names.into_iter().map(|(name, is_dir)| Listed { name, is_dir }).collect()
    }

    fn perform(&mut self, action: &Action) -> Event {
        match action {
            Action::ResetDir(path) => {
                self.remove_tree(path);
                self.make_dirs(path);
                Event::Done
            }
            Action::Unpack { archive: _, into } => {
                let entries: Vec<(String, Vec<u8>)> =
                    self.archive.iter().map(|(k, v)| (k.clone(), v.clone())).collect();
                for (name, content) in entries {
                    let path = format!("{into}/{name}");
                    let parent = path.rsplit_once('/').unwrap().0.to_string();
                    self.make_dirs(&parent);
                    self.files.insert(path, content);
                }
                Event::Done
            }
            Action::Locate { root, binary } => {
                let mut search = Search::new(root, binary);
                loop {
                    match search.next() {
                        SearchStep::Read(dir) => search.supply(self.listing(&dir)),
                        SearchStep::Found(path) => return Event::Found(path),
                        SearchStep::Missing => return Event::Missing,
                    }
                }
            }
            Action::Digest(path) => match self.files.get(path) {
                Some(content) => {
                    let mut stream = ChecksumStream::new();
                    for piece in content.chunks(4) {
                        stream.update(piece);
                    }
                    Event::Digest(stream.finish())
                }
                None => Event::Failed(format!("cannot open {path}")),
            },
            Action::Move { from, to } => match self.files.remove(from) {
                Some(content) => {
                    self.files.insert(to.clone(), content);
                    Event::Done
                }
                None => Event::Failed(format!("cannot move {from}")),
            },
            Action::Activate { link, target } => {
                self.files.remove(link);
                self.links.insert(link.clone(), target.clone());
                Event::Done
            }
            Action::WriteFile { path, content } => {
                self.files.insert(path.clone(), content.clone().into_bytes());
                Event::Done
            }
            Action::RemoveDir(path) => {
                self.remove_tree(path);
                Event::Done
            }
            Action::ReadClock => Event::Clock(self.clock),
            Action::WriteRelease { path, record } => {
                let text = format!(
                    "current_version = \"{}\"\ninstalled = \"{}\"\n",
                    record.current_version, record.installed
                );
                self.files.insert(path.clone(), text.into_bytes());
                Event::Done
            }
            Action::Finish | Action::Abort(_) | Action::Stopped => Event::Done,
        }
    }

    /// Runs an installation to its end; gives every action asked, in order.
    fn install(&mut self, manifest: &Manifest, policy: ActivationPolicy) -> Vec<Action> {
        let mut installer = Installer::new("/srv/fw/staging/fw.tar.gz", "/srv/fw/staging", manifest.clone(), policy);
        let mut asked = Vec::new();
        let mut event = Event::Begin;
        loop {
            let action = installer.step(event);
            asked.push(action.clone());
            if matches!(action, Action::Finish | Action::Abort(_)) {
                assert_eq!(installer.step(Event::Done), Action::Stopped);
                return asked;
            }
            event = if self.broken.contains(&(asked.len() - 1)) {
                Event::Failed("the host refused".to_string())
            } else {
                self.perform(&action)
            };
        }
    }

    fn text(&self, path: &str) -> Option<String> {
        self.files.get(path).map(|c| String::from_utf8(c.clone()).unwrap())
    }

    fn release_dirs(&self) -> Vec<&str> {
        self.dirs.iter().filter(|d| d.contains("/releases/v")).map(|d| d.as_str()).collect()
    }
}

fn digest_text(data: &[u8]) -> String {
    format!("{:x}", sha2::Sha256::digest(data))
}

fn module(name: &str, version: &str, content: &[u8]) -> Module {
    Module {
        name: name.to_string(),
        version: version.to_string(),
        binary: format!("{name}-bin"),
        checksum: digest_text(content),
        target_dir: format!("/opt/{name}"),
        start_command: Some(format!("/usr/local/bin/{name}")),
    }
}

fn manifest(version_set: &str, modules: Vec<Module>) -> Manifest {
    Manifest {
        download_url: "https://example.org/fw.tar.gz".to_string(),
        version_set: version_set.to_string(),
        modules,
    }
}

/// A host whose archive holds the binaries of three modules, and a manifest
/// that lists them in order.
fn three_modules() -> (Host, Manifest) {
    let mut host = Host { clock: 1_700_000_000, ..Host::default() };
    host.archive.insert("pkg/a/alpha-bin".to_string(), b"alpha binary".to_vec());
    host.archive.insert("pkg/b/beta-bin".to_string(), b"beta binary".to_vec());
    host.archive.insert("pkg/gamma-bin".to_string(), b"gamma binary".to_vec());
    let m = manifest(
        "1.2.0",
        vec![
            module("alpha", "1.2.0", b"alpha binary"),
            module("beta", "0.9.1", b"beta binary"),
            module("gamma", "2.0.0-rc.1", b"gamma binary"),
        ],
    );
    (host, m)
}

fn reason(text: &str) -> String {
    text.to_string()
}

#[test]
fn a_module_is_located_verified_staged_activated_and_recorded() {
    let mut host = Host { clock: 42, ..Host::default() };
    host.archive.insert("bin/tool".to_string(), b"tool v1".to_vec());
    let mut m = module("tool", "1.0.0", b"tool v1");
    m.binary = "tool".to_string();
    let checksum = m.checksum.clone();
    let asked = host.install(&manifest("1.0.0", vec![m]), ActivationPolicy::Fatal);
    assert_eq!(
        asked,
        vec![
            Action::ResetDir("/srv/fw/staging/unpacked".to_string()),
            Action::Unpack {
                archive: "/srv/fw/staging/fw.tar.gz".to_string(),
                into: "/srv/fw/staging/unpacked".to_string(),
            },
            Action::Locate { root: "/srv/fw/staging/unpacked".to_string(), binary: "tool".to_string() },
            Action::Digest("/srv/fw/staging/unpacked/bin/tool".to_string()),
            Action::ResetDir("/opt/tool/releases/v1.0.0".to_string()),
            Action::Move {
                from: "/srv/fw/staging/unpacked/bin/tool".to_string(),
                to: "/opt/tool/releases/v1.0.0/tool".to_string(),
            },
            Action::Activate {
                link: "/usr/local/bin/tool".to_string(),
                target: "/opt/tool/releases/v1.0.0/tool".to_string(),
            },
            Action::WriteFile { path: "/opt/tool/.version".to_string(), content: "1.0.0".to_string() },
            Action::RemoveDir("/srv/fw/staging/unpacked".to_string()),
            Action::ReadClock,
            Action::WriteRelease {
                path: "/srv/fw/current_version.toml".to_string(),
                record: Release { current_version: "1.0.0".to_string(), installed: "42".to_string() },
            },
            Action::Finish,
        ]
    );
    assert_eq!(digest_text(&host.files["/opt/tool/releases/v1.0.0/tool"]), checksum);
    assert_eq!(host.links["/usr/local/bin/tool"], "/opt/tool/releases/v1.0.0/tool");
    assert!(!host.dirs.contains("/srv/fw/staging/unpacked"));
}

#[test]
fn all_modules_are_installed_in_manifest_order() {
    let (mut host, m) = three_modules();
    let asked = host.install(&m, ActivationPolicy::Tolerate);
    assert_eq!(asked.last(), Some(&Action::Finish));
    let located: Vec<&str> = asked
        .iter()
        .filter_map(|a| match a {
            Action::Locate { binary, .. } => Some(binary.as_str()),
            _ => None,
        })
        .collect();
    assert_eq!(located, ["alpha-bin", "beta-bin", "gamma-bin"]);
    assert_eq!(host.text("/opt/alpha/.version").as_deref(), Some("1.2.0"));
    assert_eq!(host.text("/opt/beta/.version").as_deref(), Some("0.9.1"));
    assert_eq!(host.text("/opt/gamma/.version").as_deref(), Some("2.0.0-rc.1"));
    assert_eq!(host.links["/usr/local/bin/gamma"], "/opt/gamma/releases/v2.0.0-rc.1/gamma-bin");
    assert_eq!(
        host.text("/srv/fw/current_version.toml").as_deref(),
        Some("current_version = \"1.2.0\"\ninstalled = \"1700000000\"\n")
    );
}

#[test]
fn a_failed_checksum_in_the_middle_leaves_the_record_alone() {
    let (mut host, mut m) = three_modules();
    host.files.insert(
        "/srv/fw/current_version.toml".to_string(),
        b"current_version = \"1.1.0\"\ninstalled = \"5\"\n".to_vec(),
    );
    let expected = digest_text(b"another beta binary");
    m.modules[1].checksum = expected.clone();
    let asked = host.install(&m, ActivationPolicy::Tolerate);

    assert_eq!(
        asked.last(),
        Some(&Action::Abort(UpdateError::ChecksumMismatch {
            expected,
            computed: digest_text(b"beta binary"),
        }))
    );
    // The first module is installed, activated and recorded.
    assert_eq!(host.files.get("/opt/alpha/releases/v1.2.0/alpha-bin"), Some(&b"alpha binary".to_vec()));
    assert_eq!(host.links.get("/usr/local/bin/alpha").map(|s| s.as_str()), Some("/opt/alpha/releases/v1.2.0/alpha-bin"));
    assert_eq!(host.text("/opt/alpha/.version").as_deref(), Some("1.2.0"));
    // The second and the third are not.
    for name in ["beta", "gamma"] {
        assert!(!host.dirs.iter().any(|d| d.starts_with(&format!("/opt/{name}"))));
        assert!(!host.files.keys().any(|f| f.starts_with(&format!("/opt/{name}"))));
        assert!(!host.links.contains_key(&format!("/usr/local/bin/{name}")));
    }
    assert!(!asked.iter().any(|a| matches!(a, Action::Locate { binary, .. } if binary == "gamma-bin")));
    // The release record still shows the version from before the run.
    assert!(!asked.iter().any(|a| matches!(a, Action::WriteRelease { .. })));
    assert_eq!(
        host.text("/srv/fw/current_version.toml").as_deref(),
        Some("current_version = \"1.1.0\"\ninstalled = \"5\"\n")
    );
}

#[test]
fn a_second_run_changes_nothing() {
    let (mut host, m) = three_modules();
    host.install(&m, ActivationPolicy::Fatal);
    let after_first = host.clone();
    let first_dirs: Vec<String> = host.release_dirs().iter().map(|d| d.to_string()).collect();
    assert_eq!(first_dirs, ["/opt/alpha/releases/v1.2.0", "/opt/beta/releases/v0.9.1", "/opt/gamma/releases/v2.0.0-rc.1"]);

    let asked = host.install(&m, ActivationPolicy::Fatal);
    assert_eq!(asked.last(), Some(&Action::Finish));
    assert_eq!(host.release_dirs(), first_dirs);
    assert_eq!(host.links, after_first.links);
    for (link, target) in &host.links {
        assert_eq!(host.files[target], after_first.files[target], "{link}");
    }
    assert_eq!(host, after_first);
}

#[test]
fn a_binary_that_is_not_in_the_archive_stops_the_run() {
    let (mut host, m) = three_modules();
    host.archive.remove("pkg/b/beta-bin");
    let asked = host.install(&m, ActivationPolicy::Tolerate);
    assert_eq!(asked.last(), Some(&Action::Abort(UpdateError::BinaryNotFoundInArchive(reason("beta-bin")))));
    assert!(!asked.iter().any(|a| matches!(a, Action::Digest(p) if p.contains("beta"))));
    assert_eq!(host.text("/opt/alpha/.version").as_deref(), Some("1.2.0"));
    assert!(host.text("/opt/beta/.version").is_none());
    assert!(host.text("/srv/fw/current_version.toml").is_none());
}

#[test]
fn no_change_is_asked_for_before_the_digest_matches() {
    let (mut host, mut m) = three_modules();
    m.modules[0].checksum = digest_text(b"something else");
    let asked = host.install(&m, ActivationPolicy::Tolerate);
    assert_eq!(asked.len(), 5);
    assert!(matches!(asked[2], Action::Locate { .. }));
    assert!(matches!(asked[3], Action::Digest(_)));
    assert!(matches!(asked[4], Action::Abort(UpdateError::ChecksumMismatch { .. })));
    assert!(host.release_dirs().is_empty());
    assert!(host.links.is_empty());
}

#[test]
fn a_digest_in_capitals_matches() {
    let (mut host, mut m) = three_modules();
    for module in m.modules.iter_mut() {
        module.checksum = module.checksum.to_uppercase();
    }
    assert_eq!(host.install(&m, ActivationPolicy::Fatal).last(), Some(&Action::Finish));
}

#[test]
fn a_failed_activation_is_tolerated_or_fatal() {
    let (mut host, m) = three_modules();
    // The seventh action of a run is the activation of the first module.
    host.broken.insert(6);
    let asked = host.clone().install(&m, ActivationPolicy::Tolerate);
    assert!(matches!(asked[6], Action::Activate { .. }));
    assert_eq!(asked[7], Action::WriteFile { path: "/opt/alpha/.version".to_string(), content: "1.2.0".to_string() });
    assert_eq!(asked.last(), Some(&Action::Finish));

    let asked = host.install(&m, ActivationPolicy::Fatal);
    assert!(matches!(asked[6], Action::Activate { .. }));
    assert_eq!(asked[7], Action::Abort(UpdateError::FilesystemOperationFailed(reason("the host refused"))));
    assert_eq!(asked.len(), 8);
    assert!(host.text("/opt/alpha/.version").is_none());
}

#[test]
fn a_module_without_a_start_command_is_not_activated() {
    let (mut host, mut m) = three_modules();
    m.modules[1].start_command = None;
    let asked = host.install(&m, ActivationPolicy::Fatal);
    assert_eq!(asked.last(), Some(&Action::Finish));
    let links: Vec<&str> = asked
        .iter()
        .filter_map(|a| match a {
            Action::Activate { link, .. } => Some(link.as_str()),
            _ => None,
        })
        .collect();
    assert_eq!(links, ["/usr/local/bin/alpha", "/usr/local/bin/gamma"]);
    assert_eq!(host.text("/opt/beta/.version").as_deref(), Some("0.9.1"));
    assert_eq!(host.files.get("/opt/beta/releases/v0.9.1/beta-bin"), Some(&b"beta binary".to_vec()));
}

#[test]
fn each_failing_action_has_its_error() {
    let (host, m) = three_modules();
    let cases = [
        (0, UpdateError::FilesystemOperationFailed(reason("the host refused"))),
        (1, UpdateError::ArchiveUnpackFailed(reason("the host refused"))),
        (2, UpdateError::BinaryNotFoundInArchive(reason("alpha-bin"))),
        (3, UpdateError::FilesystemOperationFailed(reason("the host refused"))),
        (4, UpdateError::FilesystemOperationFailed(reason("the host refused"))),
        (5, UpdateError::FilesystemOperationFailed(reason("the host refused"))),
        (6, UpdateError::FilesystemOperationFailed(reason("the host refused"))),
        (7, UpdateError::LedgerWriteFailed(reason("the host refused"))),
        (20, UpdateError::FilesystemOperationFailed(reason("the host refused"))),
        (21, UpdateError::LedgerWriteFailed(reason("the host refused"))),
        (22, UpdateError::LedgerWriteFailed(reason("the host refused"))),
    ];
    for (at, error) in cases {
        let mut h = host.clone();
        h.broken.insert(at);
        let asked = h.install(&m, ActivationPolicy::Fatal);
        assert_eq!(asked.len(), at + 2, "{at}");
        assert_eq!(asked.last(), Some(&Action::Abort(error)), "{at}");
    }
}

#[test]
fn an_answer_of_the_wrong_kind_counts_as_a_failure() {
    let mut installer = Installer::new("a.tar.gz", "/s/staging", three_modules().1, ActivationPolicy::Fatal);
    assert_eq!(installer.step(Event::Begin), Action::ResetDir("/s/staging/unpacked".to_string()));
    assert_eq!(installer.phase(), Phase::Clearing);
    assert_eq!(
        installer.step(Event::Clock(5)),
        Action::Abort(UpdateError::FilesystemOperationFailed(reason("unexpected answer")))
    );
    assert_eq!(installer.phase(), Phase::Failed);
    assert_eq!(installer.step(Event::Done), Action::Stopped);
    assert_eq!(installer.phase(), Phase::Failed);
}

#[test]
fn a_staging_directory_that_nothing_holds_is_refused() {
    for staging in ["/", "", "//"] {
        let mut installer = Installer::new("a.tar.gz", staging, three_modules().1, ActivationPolicy::Fatal);
        assert_eq!(
            installer.step(Event::Begin),
            Action::Abort(UpdateError::ConfigInvalid(reason("Invalid staging dir")))
        );
    }
    let mut installer = Installer::new("a.tar.gz", "staging", three_modules().1, ActivationPolicy::Fatal);
    assert_eq!(installer.step(Event::Begin), Action::ResetDir("staging/unpacked".to_string()));
}

#[test]
fn a_release_without_modules_leaves_no_record() {
    let mut host = Host::default();
    let asked = host.install(&manifest("1.0.0", vec![]), ActivationPolicy::Fatal);
    assert_eq!(
        asked,
        vec![
            Action::ResetDir("/srv/fw/staging/unpacked".to_string()),
            Action::Unpack {
                archive: "/srv/fw/staging/fw.tar.gz".to_string(),
                into: "/srv/fw/staging/unpacked".to_string(),
            },
            Action::RemoveDir("/srv/fw/staging/unpacked".to_string()),
            Action::Finish,
        ]
    );
    assert!(host.text("/srv/fw/current_version.toml").is_none());
}

#[test]
fn a_module_version_that_does_not_parse_stops_the_run_before_its_marker() {
    let (mut host, mut m) = three_modules();
    m.modules[0].version = "one".to_string();
    let asked = host.install(&m, ActivationPolicy::Fatal);
    match asked.last() {
        Some(Action::Abort(UpdateError::VersionParseFailed { input, reason })) => {
            assert_eq!(input, "one");
            assert!(!reason.is_empty());
        }
        other => panic!("{other:?}"),
    }
    assert!(matches!(asked[asked.len() - 2], Action::Activate { .. }));
    assert!(host.text("/opt/alpha/.version").is_none());
    assert_eq!(host.release_dirs(), ["/opt/alpha/releases/vone"]);
}

#[test]
fn a_set_version_that_does_not_parse_leaves_no_record() {
    let (mut host, mut m) = three_modules();
    m.version_set = "1.2".to_string();
    let asked = host.install(&m, ActivationPolicy::Fatal);
    assert!(matches!(asked.last(), Some(Action::Abort(UpdateError::VersionParseFailed { input, .. })) if input == "1.2"));
    assert_eq!(asked[asked.len() - 2], Action::RemoveDir("/srv/fw/staging/unpacked".to_string()));
    assert_eq!(host.text("/opt/gamma/.version").as_deref(), Some("2.0.0-rc.1"));
    assert!(host.text("/srv/fw/current_version.toml").is_none());
}

#[test]
fn shorthand_versions_are_recorded_in_canonical_form() {
    let mut host = Host { clock: 7, ..Host::default() };
    host.archive.insert("tool-bin".to_string(), b"x".to_vec());
    let m = manifest("0.0.2rc", vec![module("tool", "0.0.1b", b"x")]);
    let asked = host.install(&m, ActivationPolicy::Fatal);
    assert_eq!(asked.last(), Some(&Action::Finish));
    assert_eq!(host.text("/opt/tool/.version").as_deref(), Some("0.0.1-beta"));
    assert_eq!(host.release_dirs(), ["/opt/tool/releases/v0.0.1b"]);
    assert_eq!(
        host.text("/srv/fw/current_version.toml").as_deref(),
        Some("current_version = \"0.0.2-rc\"\ninstalled = \"7\"\n")
    );
}

#[test]
fn the_number_of_installed_modules_is_counted() {
    let (mut host, m) = three_modules();
    let mut installer = Installer::new("a", "/s/staging", m.clone(), ActivationPolicy::Fatal);
    assert_eq!(installer.manifest(), &m);
    assert_eq!(installer.phase(), Phase::Idle);
    let mut event = Event::Begin;
    let mut seen = Vec::new();
    loop {
        let action = installer.step(event);
        seen.push((installer.phase(), installer.installed()));
        if action == Action::Finish {
            break;
        }
        event = host.perform(&action);
    }
    assert_eq!(seen[2], (Phase::Locating, 0));
    assert_eq!(seen[7], (Phase::Marking, 0));
    assert_eq!(seen[8], (Phase::Locating, 1));
    assert_eq!(seen[14], (Phase::Locating, 2));
    assert_eq!(seen[20], (Phase::Cleaning, 3));
    assert_eq!(seen.last(), Some(&(Phase::Finished, 3)));
}
