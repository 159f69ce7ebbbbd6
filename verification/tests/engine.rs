use cf_to_mmc::error::LinkerError;
use cf_to_mmc::instance::CurseForgeInstance;
use cf_to_mmc::link::{link, unlink, FsAction, FsEvent};

fn descriptor() -> CurseForgeInstance {
    CurseForgeInstance {
        name: "ATM6".to_string(),
        minecraft_version: "1.16.5".to_string(),
        loader_name: "forge-36.2.0".to_string(),
        loader_version: "36.2.0".to_string(),
    }
}

fn ok() -> FsEvent {
    FsEvent::Succeeded
}

fn failed(msg: &str, denied: bool) -> FsEvent {
    FsEvent::Failed { message: msg.to_string(), permission_denied: denied }
}

#[test]
fn link_walks_probe_create_write_write_symlink() {
    let d = descriptor();
    let mut run = link("/mmc", "/cf/ATM6", &d).unwrap();
    assert_eq!(run.next_action(), Some(FsAction::Probe("/mmc/ATM6".to_string())));
    run = run.step(FsEvent::Probed(false));
    assert_eq!(run.next_action(), Some(FsAction::MakeDir("/mmc/ATM6".to_string())));
    run = run.step(ok());
    match run.next_action() {
        Some(FsAction::PutFile(path, text)) => {
            assert_eq!(path, "/mmc/ATM6/instance.cfg");
            assert!(text.contains("name=ATM6\n"));
            assert_eq!(text.lines().count(), 13);
        }
        other => panic!("unexpected action {:?}", other),
    }
    run = run.step(ok());
    match run.next_action() {
        Some(FsAction::PutFile(path, text)) => {
            assert_eq!(path, "/mmc/ATM6/mmc-pack.json");
            assert!(text.contains("\"uid\":\"net.minecraftforge\""));
        }
        other => panic!("unexpected action {:?}", other),
    }
    run = run.step(ok());
    assert_eq!(
        run.next_action(),
        Some(FsAction::MakeLink("/mmc/ATM6/.minecraft".to_string(), "/cf/ATM6".to_string()))
    );
    assert_eq!(run.outcome(), None);
    run = run.step(ok());
    assert_eq!(run.outcome(), Some(Ok(())));
    assert_eq!(run.next_action(), None);
}

#[test]
fn existing_target_is_a_name_conflict_with_no_side_effects() {
    let d = descriptor();
    let run = link("/mmc", "/cf/ATM6", &d).unwrap();
    let run = run.step(FsEvent::Probed(true));
    assert_eq!(run.outcome(), Some(Err(LinkerError::NameConflict)));
    assert_eq!(run.next_action(), None);
}

#[test]
fn symlink_denial_rolls_back_and_reports_permission() {
    let d = descriptor();
    let mut run = link("/mmc", "/cf/ATM6", &d).unwrap();
    run = run.step(FsEvent::Probed(false));
    run = run.step(ok());
    run = run.step(ok());
    run = run.step(ok());
    run = run.step(failed("a required privilege is not held", true));
    assert_eq!(run.outcome(), None);
    assert_eq!(
        run.next_action(),
        Some(FsAction::RemoveAll("/mmc/ATM6".to_string()))
    );
    run = run.step(ok());
    assert_eq!(
        run.outcome(),
        Some(Err(LinkerError::SymlinkPermission(
            "a required privilege is not held".to_string()
        )))
    );
}

#[test]
fn write_failure_rolls_back_and_reports_io() {
    let d = descriptor();
    let mut run = link("/mmc", "/cf/ATM6", &d).unwrap();
    run = run.step(FsEvent::Probed(false));
    run = run.step(ok());
    run = run.step(failed("disk full", false));
    assert_eq!(
        run.next_action(),
        Some(FsAction::RemoveAll("/mmc/ATM6".to_string()))
    );
    run = run.step(ok());
    assert_eq!(run.outcome(), Some(Err(LinkerError::Io("disk full".to_string()))));
}

#[test]
fn failed_rollback_reports_the_rollback_error() {
    let d = descriptor();
    let mut run = link("/mmc", "/cf/ATM6", &d).unwrap();
    run = run.step(FsEvent::Probed(false));
    run = run.step(ok());
    run = run.step(ok());
    run = run.step(ok());
    run = run.step(failed("denied", true));
    run = run.step(failed("still busy", false));
    assert_eq!(run.outcome(), Some(Err(LinkerError::Io("still busy".to_string()))));
}

#[test]
fn link_rejects_names_that_would_escape_the_root() {
    for name in ["", ".", "..", "a/b", "a\\b", "a\nb"] {
        let d = CurseForgeInstance {
            name: name.to_string(),
            minecraft_version: "1.16.5".to_string(),
            loader_name: "forge-1".to_string(),
            loader_version: "1".to_string(),
        };
        assert_eq!(link("/mmc", "/cf/x", &d).err(), Some(LinkerError::InvalidName));
        assert_eq!(unlink("/mmc", &d).err(), Some(LinkerError::InvalidName));
    }
}

#[test]
fn unlink_removes_the_one_directory_tree() {
    let d = descriptor();
    let mut run = unlink("/mmc", &d).unwrap();
    assert_eq!(run.next_action(), Some(FsAction::Probe("/mmc/ATM6".to_string())));
    run = run.step(FsEvent::Probed(true));
    assert_eq!(
        run.next_action(),
        Some(FsAction::RemoveAll("/mmc/ATM6".to_string()))
    );
    run = run.step(ok());
    assert_eq!(run.outcome(), Some(Ok(())));
    assert_eq!(run.next_action(), None);
}

#[test]
fn unlink_of_a_missing_target_is_not_linked_and_touches_nothing() {
    let d = descriptor();
    let run = unlink("/mmc", &d).unwrap();
    let run = run.step(FsEvent::Probed(false));
    assert_eq!(run.outcome(), Some(Err(LinkerError::NotLinked)));
    assert_eq!(run.next_action(), None);
}

#[test]
fn unlink_remove_failure_is_io() {
    let d = descriptor();
    let mut run = unlink("/mmc", &d).unwrap();
    run = run.step(FsEvent::Probed(true));
    run = run.step(failed("locked", false));
    assert_eq!(run.outcome(), Some(Err(LinkerError::Io("locked".to_string()))));
}

#[test]
fn probe_failure_is_io() {
    let d = descriptor();
    let run = link("/mmc", "/cf/ATM6", &d).unwrap();
    let run = run.step(failed("permission denied on root", false));
    assert_eq!(
        run.outcome(),
        Some(Err(LinkerError::Io("permission denied on root".to_string())))
    );
}
