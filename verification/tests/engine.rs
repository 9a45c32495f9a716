//! The engine driven against a filesystem held in memory: every step that a
//! run asks for is performed on the map below, and its outcome handed back.

use std::collections::BTreeMap;

use mint_lib::copy::{CopyReply, CopyRun, CopyStep};
use mint_lib::error::{IntegrationError, IoErrorKind, IoFailure};
use mint_lib::integrate::{CopyJob, Integration};
use mint_lib::mod_info::{ModIdentifier, ModInfo, ModResolution, ModSpecification, ModType};
use mint_lib::uninstall::{Uninstall, UninstallError};

#[derive(Debug, Clone, PartialEq, Eq)]
enum Node {
    Dir,
    File(Vec<u8>),
}

#[derive(Debug, Clone, PartialEq, Eq, Default)]
struct Disk {
    nodes: BTreeMap<String, Node>,
    /// Directories that refuse to be removed.
    locked: Vec<String>,
}

fn not_found(path: &str) -> IoFailure {
    IoFailure { kind: IoErrorKind::NotFound, message: format!("{path}: not found") }
}

fn other(path: &str, what: &str) -> IoFailure {
    IoFailure { kind: IoErrorKind::Other, message: format!("{path}: {what}") }
}

impl Disk {
    fn with(entries: &[(&str, Option<&str>)]) -> Disk {
        let mut disk = Disk::default();
        for (path, content) in entries {
            match content {
                Some(text) => {
                    let parent = &path[..path.rfind('/').unwrap()];
                    disk.create_dir_all(parent).unwrap();
                    disk.nodes.insert(path.to_string(), Node::File(text.as_bytes().to_vec()));
                }
                None => disk.create_dir_all(path).unwrap(),
            }
        }
        disk
    }

    fn create_dir_all(&mut self, path: &str) -> Result<(), IoFailure> {
        let mut prefix = String::new();
        for part in path.split('/').skip(1) {
            prefix.push('/');
            prefix.push_str(part);
            match self.nodes.get(&prefix) {
                Some(Node::File(_)) => return Err(other(&prefix, "not a directory")),
                Some(Node::Dir) => {}
                None => {
                    self.nodes.insert(prefix.clone(), Node::Dir);
                }
            }
        }
        Ok(())
    }

    fn list(&self, path: &str) -> Result<Vec<(String, bool)>, IoFailure> {
        match self.nodes.get(path) {
            None => return Err(not_found(path)),
            Some(Node::File(_)) => return Err(other(path, "not a directory")),
            Some(Node::Dir) => {}
        }
        let below = format!("{path}/");
        Ok(self
            .nodes
            .iter()
            .filter(|(key, _)| key.starts_with(&below) && !key[below.len()..].contains('/'))
            .map(|(key, node)| (key[below.len()..].to_string(), *node == Node::Dir))
            .collect())
    }

    fn copy_file(&mut self, from: &str, to: &str) -> Result<(), IoFailure> {
        let content = match self.nodes.get(from) {
            Some(Node::File(content)) => content.clone(),
            Some(Node::Dir) => return Err(other(from, "is a directory")),
            None => return Err(not_found(from)),
        };
        if self.nodes.get(to) == Some(&Node::Dir) {
            return Err(other(to, "is a directory"));
        }
        self.nodes.insert(to.to_string(), Node::File(content));
        Ok(())
    }

    fn remove_dir_all(&mut self, path: &str) -> Result<(), IoFailure> {
        if !self.nodes.contains_key(path) {
            return Err(not_found(path));
        }
        if self.locked.iter().any(|locked| locked == path) {
            return Err(other(path, "permission denied"));
        }
        let below = format!("{path}/");
        self.nodes.retain(|key, _| key != path && !key.starts_with(&below));
        Ok(())
    }

    fn file(&self, path: &str) -> Option<&str> {
        match self.nodes.get(path) {
            Some(Node::File(content)) => Some(std::str::from_utf8(content).unwrap()),
            _ => None,
        }
    }

    fn under(&self, path: &str) -> Vec<String> {
        let below = format!("{path}/");
        self.nodes.keys().filter(|key| key.starts_with(&below)).cloned().collect()
    }
}

fn reply(outcome: Result<(), IoFailure>) -> CopyReply {
    match outcome {
        Ok(()) => CopyReply::Done,
        Err(failure) => CopyReply::Failed { failure },
    }
}

fn copy_dir_all(disk: &mut Disk, job: CopyJob) -> Result<(), IoFailure> {
    let mut listings: Vec<std::vec::IntoIter<(String, bool)>> = Vec::new();
    let mut run = CopyRun::begin(job);
    loop {
        let answer = match &run {
            CopyRun::Succeeded => return Ok(()),
            CopyRun::Failed { failure } => return Err(failure.clone()),
            CopyRun::Running { step, .. } => match step {
                CopyStep::CreateDir { path } => reply(disk.create_dir_all(path)),
                CopyStep::OpenDir { path } => match disk.list(path) {
                    Ok(entries) => {
                        listings.push(entries.into_iter());
                        CopyReply::Done
                    }
                    Err(failure) => CopyReply::Failed { failure },
                },
                CopyStep::NextEntry => match listings.last_mut().unwrap().next() {
                    Some((name, is_dir)) => CopyReply::Entry { name, is_dir },
                    None => {
                        listings.pop();
                        CopyReply::EndOfDirectory
                    }
                },
                CopyStep::CopyFile { from, to } => reply(disk.copy_file(from, to)),
            },
        };
        run = run.advance(answer);
    }
}

fn integrate(disk: &mut Disk, path: &str, mods: Vec<(ModInfo, String)>) -> Result<usize, IntegrationError> {
    let mut run = Integration::begin(path, mods);
    loop {
        let outcome = match &run {
            Integration::Succeeded { installed } => return Ok(*installed),
            Integration::Copying { job, .. } => copy_dir_all(disk, job.clone()),
            Integration::Failed { .. } => break,
        };
        run = run.advance(outcome);
    }
    match run {
        Integration::Failed { error } => Err(error),
        other => panic!("not failed: {other:?}"),
    }
}

fn uninstall(disk: &mut Disk, path: &str) -> Result<(), UninstallError> {
    let mut run = Uninstall::begin(path);
    loop {
        let outcome = match &run {
            Uninstall::Succeeded => return Ok(()),
            Uninstall::Removing { path, .. } => disk.remove_dir_all(path),
            Uninstall::Failed { .. } => break,
        };
        run = run.advance(outcome);
    }
    match run {
        Uninstall::Failed { error } => Err(error),
        other => panic!("not failed: {other:?}"),
    }
}

fn a_mod(name: &str, mod_type: ModType) -> ModInfo {
    ModInfo {
        provider: "file",
        name: name.to_string(),
        spec: ModSpecification::new(format!("file://{name}")),
        versions: vec![],
        resolution: ModResolution::resolvable(ModIdentifier::from(name)),
        suggested_require: false,
        suggested_dependencies: vec![],
        mod_type,
    }
}

const GAME: &str = "/games/DBSZ/SparkingZERO";

fn artifacts() -> Disk {
    Disk::with(&[
        ("/games/DBSZ", None),
        ("/cache/foo/Foo.uplugin", Some("plugin")),
        ("/cache/foo/Content/Data/table.uasset", Some("table")),
        ("/cache/foo/Content/empty", None),
        ("/cache/bar/bar.pak", Some("pak bytes")),
        ("/cache/bar/bar.utoc", Some("toc bytes")),
    ])
}

#[test]
fn plugin_mod_is_installed_under_mods_with_its_subpaths() {
    let mut disk = artifacts();
    let mods = vec![(a_mod("Foo", ModType::ModPlugin), "/cache/foo".to_string())];
    assert!(matches!(integrate(&mut disk, GAME, mods), Ok(1)));
    assert_eq!(disk.file("/games/DBSZ/Mods/Foo/Foo.uplugin"), Some("plugin"));
    assert_eq!(disk.file("/games/DBSZ/Mods/Foo/Content/Data/table.uasset"), Some("table"));
    assert_eq!(disk.nodes.get("/games/DBSZ/Mods/Foo/Content/empty"), Some(&Node::Dir));
    assert_eq!(disk.under("/games/DBSZ/Mods/Foo").len(), disk.under("/cache/foo").len());
    assert!(disk.under("/games/DBSZ/Content").is_empty());
}

#[test]
fn pak_mod_is_installed_under_pak_mods() {
    let mut disk = artifacts();
    let mods = vec![(a_mod("Bar", ModType::Pak), "/cache/bar".to_string())];
    assert!(matches!(integrate(&mut disk, GAME, mods), Ok(1)));
    assert_eq!(disk.file("/games/DBSZ/Content/Paks/~mods/Bar/bar.pak"), Some("pak bytes"));
    assert_eq!(disk.file("/games/DBSZ/Content/Paks/~mods/Bar/bar.utoc"), Some("toc bytes"));
    assert!(disk.under("/games/DBSZ/Mods").is_empty());
    assert!(!disk.nodes.contains_key("/games/DBSZ/Binaries"));
}

#[test]
fn installing_leaves_the_artifacts_as_they_were() {
    let mut disk = artifacts();
    let before = disk.under("/cache");
    let mods = vec![
        (a_mod("Foo", ModType::ModPlugin), "/cache/foo".to_string()),
        (a_mod("Bar", ModType::Pak), "/cache/bar".to_string()),
    ];
    assert!(matches!(integrate(&mut disk, GAME, mods), Ok(2)));
    assert_eq!(disk.under("/cache"), before);
    assert_eq!(disk.file("/cache/bar/bar.pak"), Some("pak bytes"));
}

#[test]
fn installing_again_gives_the_same_files() {
    let mut disk = artifacts();
    let mods = || vec![
        (a_mod("Foo", ModType::ModPlugin), "/cache/foo".to_string()),
        (a_mod("Bar", ModType::Pak), "/cache/bar".to_string()),
    ];
    assert!(matches!(integrate(&mut disk, GAME, mods()), Ok(2)));
    let once = disk.clone();
    assert!(matches!(integrate(&mut disk, GAME, mods()), Ok(2)));
    assert_eq!(disk, once);
    assert_eq!(disk.file("/games/DBSZ/Mods/Foo/Foo.uplugin"), disk.file("/cache/foo/Foo.uplugin"));
}

#[test]
fn installing_another_artifact_overwrites_and_keeps_stale_files() {
    let mut disk = artifacts();
    let mods = vec![(a_mod("Foo", ModType::ModPlugin), "/cache/foo".to_string())];
    assert!(matches!(integrate(&mut disk, GAME, mods), Ok(1)));
    let newer = Disk::with(&[("/cache/foo2/Foo.uplugin", Some("plugin v2"))]);
    disk.nodes.extend(newer.nodes);
    let mods = vec![(a_mod("Foo", ModType::ModPlugin), "/cache/foo2".to_string())];
    assert!(matches!(integrate(&mut disk, GAME, mods), Ok(1)));
    assert_eq!(disk.file("/games/DBSZ/Mods/Foo/Foo.uplugin"), Some("plugin v2"));
    assert_eq!(disk.file("/games/DBSZ/Mods/Foo/Content/Data/table.uasset"), Some("table"));
}

#[test]
fn missing_second_artifact_stops_the_installation() {
    let mut disk = artifacts();
    let mods = vec![
        (a_mod("Foo", ModType::ModPlugin), "/cache/foo".to_string()),
        (a_mod("Gone", ModType::Pak), "/cache/gone".to_string()),
        (a_mod("Bar", ModType::Pak), "/cache/bar".to_string()),
    ];
    let error = integrate(&mut disk, GAME, mods).unwrap_err();
    assert!(matches!(&error, IntegrationError::IoError { source } if source.kind == IoErrorKind::NotFound));
    assert_eq!(error.message(), "/cache/gone: not found");
    assert_eq!(disk.file("/games/DBSZ/Mods/Foo/Foo.uplugin"), Some("plugin"));
    assert!(disk.under("/games/DBSZ/Content/Paks/~mods/Bar").is_empty());
    assert!(!disk.nodes.contains_key("/games/DBSZ/Content/Paks/~mods/Bar"));
}

#[test]
fn installation_without_game_root_touches_nothing() {
    let mut disk = artifacts();
    let before = disk.clone();
    let mods = vec![(a_mod("Foo", ModType::ModPlugin), "/cache/foo".to_string())];
    let error = integrate(&mut disk, "/", mods).unwrap_err();
    assert!(matches!(error, IntegrationError::DrgInstallationNotFound { .. }));
    assert_eq!(disk, before);
}

#[test]
fn file_in_the_way_of_a_directory_stops_the_copy() {
    let mut disk = artifacts();
    disk.nodes.insert("/games/DBSZ/Mods".to_string(), Node::File(vec![]));
    let mods = vec![
        (a_mod("Foo", ModType::ModPlugin), "/cache/foo".to_string()),
        (a_mod("Bar", ModType::Pak), "/cache/bar".to_string()),
    ];
    let error = integrate(&mut disk, GAME, mods).unwrap_err();
    assert_eq!(error.message(), "/games/DBSZ/Mods: not a directory");
    assert!(disk.under("/games/DBSZ/Content").is_empty());
}

#[test]
fn uninstall_removes_everything_installed() {
    let mut disk = artifacts();
    let mods = vec![
        (a_mod("Foo", ModType::ModPlugin), "/cache/foo".to_string()),
        (a_mod("Bar", ModType::Pak), "/cache/bar".to_string()),
    ];
    assert!(matches!(integrate(&mut disk, GAME, mods), Ok(2)));
    disk.nodes.insert("/games/DBSZ/Content/Paks/game.pak".to_string(), Node::File(vec![1]));
    assert_eq!(uninstall(&mut disk, GAME), Ok(()));
    assert!(!disk.nodes.contains_key("/games/DBSZ/Mods"));
    assert!(!disk.nodes.contains_key("/games/DBSZ/Content/Paks/~mods"));
    assert!(disk.nodes.contains_key("/games/DBSZ/Content/Paks/game.pak"));
    assert_eq!(disk.under("/cache").len(), artifacts().under("/cache").len());
}

#[test]
fn uninstall_where_nothing_is_installed_succeeds() {
    let mut disk = artifacts();
    let before = disk.clone();
    assert_eq!(uninstall(&mut disk, GAME), Ok(()));
    assert_eq!(disk, before);
}

#[test]
fn uninstall_twice_succeeds_twice() {
    let mut disk = artifacts();
    let mods = vec![(a_mod("Foo", ModType::ModPlugin), "/cache/foo".to_string())];
    assert!(matches!(integrate(&mut disk, GAME, mods), Ok(1)));
    assert_eq!(uninstall(&mut disk, GAME), Ok(()));
    let once = disk.clone();
    assert_eq!(uninstall(&mut disk, GAME), Ok(()));
    assert_eq!(disk, once);
}

#[test]
fn uninstall_reports_the_directory_it_could_not_remove() {
    let mut disk = artifacts();
    let mods = vec![
        (a_mod("Foo", ModType::ModPlugin), "/cache/foo".to_string()),
        (a_mod("Bar", ModType::Pak), "/cache/bar".to_string()),
    ];
    assert!(matches!(integrate(&mut disk, GAME, mods), Ok(2)));
    disk.locked.push("/games/DBSZ/Mods".to_string());
    let error = uninstall(&mut disk, GAME).unwrap_err();
    assert_eq!(error.message(), "failed to remove /games/DBSZ/Mods");
    assert!(matches!(&error, UninstallError::RemoveFailed { source, .. } if source.kind == IoErrorKind::Other));
    assert!(disk.nodes.contains_key("/games/DBSZ/Content/Paks/~mods/Bar/bar.pak"));
}
