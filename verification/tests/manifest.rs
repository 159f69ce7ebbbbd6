use cf_to_mmc::error::LinkerError;
use cf_to_mmc::manifest::{read_manifest, MANIFEST_FILE_NAME};

#[test]
fn manifest_file_name_is_fixed() {
    assert_eq!(MANIFEST_FILE_NAME, "minecraftinstance.json");
}

#[test]
fn reads_a_full_manifest_and_skips_unknown_members() {
    let text = r#"
    {
      "installDate": "2021-01-01T00:00:00Z",
      "modpackOverrides": [1, 2.5, -3e2, "x", [true, null], {"a": {"b": []}}],
      "name": "All the Mods 6",
      "baseModLoader": {
        "downloadUrl": "https://example.invalid/forge",
        "name": "forge-36.2.0",
        "forgeVersion": "36.2.0",
        "minecraftVersion": "1.16.5",
        "installProfileJson": null
      },
      "isUnlocked": true,
      "memory": 4096
    }
    "#;
    let d = read_manifest(text).unwrap();
    assert_eq!(d.name, "All the Mods 6");
    assert_eq!(d.minecraft_version, "1.16.5");
    assert_eq!(d.loader_name, "forge-36.2.0");
    assert_eq!(d.loader_version, "36.2.0");
}

#[test]
fn reads_a_minimal_manifest() {
    let text = r#"{"name":"p","baseModLoader":{"name":"fabric-0.14.0","forgeVersion":"0.14.0","minecraftVersion":"1.19"}}"#;
    let d = read_manifest(text).unwrap();
    assert_eq!(d.name, "p");
    assert_eq!(d.loader_name, "fabric-0.14.0");
    assert_eq!(d.loader_version, "0.14.0");
    assert_eq!(d.minecraft_version, "1.19");
}

#[test]
fn decodes_string_escapes() {
    let text = r#"{"name":"a\"b\\c\/d\n","baseModLoader":{"name":"n","forgeVersion":"f","minecraftVersion":"m"}}"#;
    let d = read_manifest(text).unwrap();
    assert_eq!(d.name, "a\"b\\c/d\n");
}

#[test]
fn decodes_unicode_escapes_and_surrogate_pairs() {
    let text = r#"{"name":"a\u0041\u00e9\ud83d\ude00","baseModLoader":{"name":"n","forgeVersion":"f","minecraftVersion":"m"}}"#;
    let d = read_manifest(text).unwrap();
    assert_eq!(d.name, "aA\u{e9}\u{1f600}");
}

#[test]
fn rejects_lone_surrogates() {
    for name in [r"a\ud83d", r"a\ude00", r"a\ud83dx", r"a\ud83d\u0041"] {
        let text = format!(
            r#"{{"name":"{}","baseModLoader":{{"name":"n","forgeVersion":"f","minecraftVersion":"m"}}}}"#,
            name
        );
        assert_eq!(read_manifest(&text), Err(LinkerError::ParseError), "{:?}", name);
    }
}

#[test]
fn rejects_malformed_hex_escapes() {
    let text = r#"{"name":"a\u00g1","baseModLoader":{"name":"n","forgeVersion":"f","minecraftVersion":"m"}}"#;
    assert_eq!(read_manifest(text), Err(LinkerError::ParseError));
}

#[test]
fn last_value_of_a_repeated_member_wins() {
    let text = r#"{"name":"first","name":"second","baseModLoader":{"name":"n","forgeVersion":"f","minecraftVersion":"m"}}"#;
    let d = read_manifest(text).unwrap();
    assert_eq!(d.name, "second");
}

#[test]
fn missing_name_is_a_parse_error() {
    let text = r#"{"baseModLoader":{"name":"n","forgeVersion":"f","minecraftVersion":"m"}}"#;
    assert_eq!(read_manifest(text), Err(LinkerError::ParseError));
}

#[test]
fn missing_loader_member_is_a_parse_error() {
    let text = r#"{"name":"p","baseModLoader":{"name":"n","minecraftVersion":"m"}}"#;
    assert_eq!(read_manifest(text), Err(LinkerError::ParseError));
}

#[test]
fn wrongly_typed_name_is_a_parse_error() {
    let text = r#"{"name":42,"baseModLoader":{"name":"n","forgeVersion":"f","minecraftVersion":"m"}}"#;
    assert_eq!(read_manifest(text), Err(LinkerError::ParseError));
}

#[test]
fn wrongly_typed_loader_is_a_parse_error() {
    let text = r#"{"name":"p","baseModLoader":"forge"}"#;
    assert_eq!(read_manifest(text), Err(LinkerError::ParseError));
}

#[test]
fn trailing_content_is_a_parse_error() {
    let text = r#"{"name":"p","baseModLoader":{"name":"n","forgeVersion":"f","minecraftVersion":"m"}} x"#;
    assert_eq!(read_manifest(text), Err(LinkerError::ParseError));
}

#[test]
fn malformed_json_is_a_parse_error() {
    for text in [
        "",
        "   ",
        "null",
        "[1]",
        "{",
        "{\"name\"}",
        "{\"name\":\"p\",}",
        "{\"name\":\"p\" \"x\":1}",
        "{\"name\":\"unterminated}",
    ] {
        assert_eq!(read_manifest(text), Err(LinkerError::ParseError), "{:?}", text);
    }
}
