use cf_to_mmc::directory::{default_cf_dir, default_mmc_dir, Platform};
use cf_to_mmc::error::LinkerError;

#[test]
fn default_destination_roots_follow_the_platform() {
    assert_eq!(
        default_mmc_dir(&Platform::Windows, "C:\\Users\\u\\AppData\\Roaming"),
        "C:\\Users\\u\\AppData\\Roaming\\MultiMC\\minecraft\\Instances"
    );
    assert_eq!(
        default_mmc_dir(&Platform::Linux, "/home/u"),
        "/home/u/.local/share/MultiMC/minecraft/Instances"
    );
    assert_eq!(
        default_mmc_dir(&Platform::MacOs, "/Users/u"),
        "/Users/u/.local/share/MultiMC/minecraft/Instances"
    );
}

#[test]
fn default_source_roots_follow_the_platform() {
    assert_eq!(
        default_cf_dir(&Platform::Windows, "C:\\Users\\u"),
        "C:\\Users\\u\\curseforge\\minecraft\\Instances"
    );
    assert_eq!(
        default_cf_dir(&Platform::MacOs, "/Users/u"),
        "/Users/u/Documents/curseforge/minecraft/Instances"
    );
    assert_eq!(
        default_cf_dir(&Platform::Linux, "/home/u"),
        "/home/u/curseforge/minecraft/Instances"
    );
}

#[test]
fn error_messages_are_human_readable() {
    assert_eq!(LinkerError::NotFound.message(), "manifest file not found");
    assert_eq!(
        LinkerError::ParseError.message(),
        "manifest is not of the expected shape"
    );
    assert_eq!(
        LinkerError::InvalidName.message(),
        "instance name is not a valid directory name"
    );
    assert_eq!(
        LinkerError::NameConflict.message(),
        "an instance of this name already exists"
    );
    assert_eq!(
        LinkerError::SymlinkPermission("os text".to_string()).message(),
        "symlink creation was denied: os text"
    );
    assert_eq!(LinkerError::NotLinked.message(), "instance is not linked");
    assert_eq!(
        LinkerError::Io("os text".to_string()).message(),
        "filesystem error: os text"
    );
}
