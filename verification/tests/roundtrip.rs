use cf_to_mmc::instance::CurseForgeInstance;
use cf_to_mmc::link::{link, unlink, FsAction, FsEvent, LinkRun, UnlinkRun};

/// A tiny in-memory stand-in for the destination filesystem.
#[derive(Clone, PartialEq, Eq, Debug)]
struct FakeFs {
    dirs: Vec<String>,
    files: Vec<(String, String)>,
    links: Vec<(String, String)>,
    deny_symlinks: bool,
}

impl FakeFs {
    fn new() -> FakeFs {
        FakeFs { dirs: Vec::new(), files: Vec::new(), links: Vec::new(), deny_symlinks: false }
    }

    fn has_path(&self, path: &str) -> bool {
        self.dirs.iter().any(|d| d == path)
            || self.files.iter().any(|(f, _)| f == path)
            || self.links.iter().any(|(l, _)| l == path)
    }

    fn perform(&mut self, action: &FsAction) -> FsEvent {
        match action {
            FsAction::Probe(path) => FsEvent::Probed(self.has_path(path)),
            FsAction::MakeDir(path) => {
                if self.has_path(path) {
                    FsEvent::Failed { message: "exists".to_string(), permission_denied: false }
                } else {
                    self.dirs.push(path.clone());
                    FsEvent::Succeeded
                }
            }
            FsAction::PutFile(path, text) => {
                self.files.retain(|(f, _)| f != path);
                self.files.push((path.clone(), text.clone()));
                FsEvent::Succeeded
            }
            FsAction::MakeLink(at, to) => {
                if self.deny_symlinks {
                    FsEvent::Failed {
                        message: "a required privilege is not held".to_string(),
                        permission_denied: true,
                    }
                } else {
                    self.links.push((at.clone(), to.clone()));
                    FsEvent::Succeeded
                }
            }
            FsAction::RemoveAll(path) => {
                let prefix = format!("{}/", path);
                self.dirs.retain(|d| d != path && !d.starts_with(&prefix));
                self.files.retain(|(f, _)| !f.starts_with(&prefix));
                self.links.retain(|(l, _)| !l.starts_with(&prefix));
                FsEvent::Succeeded
            }
        }
    }

    fn drive_link(&mut self, mut run: LinkRun) -> Option<Result<(), cf_to_mmc::error::LinkerError>> {
        while let Some(action) = run.next_action() {
            let event = self.perform(&action);
            run = run.step(event);
        }
        run.outcome()
    }

    fn drive_unlink(
        &mut self,
        mut run: UnlinkRun,
    ) -> Option<Result<(), cf_to_mmc::error::LinkerError>> {
        while let Some(action) = run.next_action() {
            let event = self.perform(&action);
            run = run.step(event);
        }
        run.outcome()
    }
}

fn descriptor() -> CurseForgeInstance {
    CurseForgeInstance {
        name: "ATM6".to_string(),
        minecraft_version: "1.16.5".to_string(),
        loader_name: "forge-36.2.0".to_string(),
        loader_version: "36.2.0".to_string(),
    }
}

#[test]
fn link_then_unlink_restores_the_destination_root() {
    let d = descriptor();
    let mut fs = FakeFs::new();
    fs.dirs.push("/mmc/OtherPack".to_string());
    let before = fs.clone();

    let outcome = fs.drive_link(link("/mmc", "/cf/ATM6", &d).unwrap());
    assert_eq!(outcome, Some(Ok(())));
    assert!(fs.has_path("/mmc/ATM6"));
    assert!(fs.has_path("/mmc/ATM6/instance.cfg"));
    assert!(fs.has_path("/mmc/ATM6/mmc-pack.json"));
    assert_eq!(
        fs.links,
        vec![("/mmc/ATM6/.minecraft".to_string(), "/cf/ATM6".to_string())]
    );

    let outcome = fs.drive_unlink(unlink("/mmc", &d).unwrap());
    assert_eq!(outcome, Some(Ok(())));
    assert_eq!(fs, before);
}

#[test]
fn second_link_conflicts_and_leaves_the_first_untouched() {
    let d = descriptor();
    let mut fs = FakeFs::new();
    assert_eq!(fs.drive_link(link("/mmc", "/cf/ATM6", &d).unwrap()), Some(Ok(())));
    let after_first = fs.clone();
    let outcome = fs.drive_link(link("/mmc", "/cf/ATM6", &d).unwrap());
    assert_eq!(
        outcome,
        Some(Err(cf_to_mmc::error::LinkerError::NameConflict))
    );
    assert_eq!(fs, after_first);
}

#[test]
fn denied_symlink_leaves_no_target_directory_behind() {
    let d = descriptor();
    let mut fs = FakeFs::new();
    fs.dirs.push("/mmc/OtherPack".to_string());
    fs.deny_symlinks = true;
    let before = fs.clone();
    let outcome = fs.drive_link(link("/mmc", "/cf/ATM6", &d).unwrap());
    match outcome {
        Some(Err(cf_to_mmc::error::LinkerError::SymlinkPermission(msg))) => {
            assert_eq!(msg, "a required privilege is not held");
        }
        other => panic!("unexpected outcome {:?}", other),
    }
    assert!(!fs.has_path("/mmc/ATM6"));
    assert_eq!(fs, before);
}

#[test]
fn unlink_without_a_link_changes_nothing() {
    let d = descriptor();
    let mut fs = FakeFs::new();
    fs.dirs.push("/mmc/OtherPack".to_string());
    let before = fs.clone();
    let outcome = fs.drive_unlink(unlink("/mmc", &d).unwrap());
    assert_eq!(outcome, Some(Err(cf_to_mmc::error::LinkerError::NotLinked)));
    assert_eq!(fs, before);
}
