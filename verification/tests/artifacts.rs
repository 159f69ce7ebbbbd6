use cf_to_mmc::artifacts::{synthesize_component_pack, synthesize_config, MultiMCInstance};
use cf_to_mmc::instance::CurseForgeInstance;

fn forge_descriptor() -> CurseForgeInstance {
    CurseForgeInstance {
        name: "All the Mods 6".to_string(),
        minecraft_version: "1.16.5".to_string(),
        loader_name: "forge-36.2.0".to_string(),
        loader_version: "36.2.0".to_string(),
    }
}

#[test]
fn config_text_is_the_fixed_thirteen_lines() {
    let text = synthesize_config(&forge_descriptor());
    assert_eq!(
        text,
        "InstanceType=OneSix\n\
         JoinServerOnLaunch=false\n\
         OverrideCommands=false\n\
         OverrideConsole=false\n\
         OverrideGameTime=false\n\
         OverrideJavaArgs=false\n\
         OverrideJavaLocation=false\n\
         OverrideMemory=false\n\
         OverrideNativeWorkarounds=false\n\
         OverrideWindow=false\n\
         iconKey=default\n\
         name=All the Mods 6\n\
         notes=\n"
    );
}

#[test]
fn config_text_always_has_thirteen_lines() {
    let long = CurseForgeInstance {
        name: "x".repeat(300),
        minecraft_version: String::new(),
        loader_name: String::new(),
        loader_version: String::new(),
    };
    for d in [forge_descriptor(), long] {
        let text = synthesize_config(&d);
        assert_eq!(text.lines().count(), 13);
        assert_eq!(text.matches('\n').count(), 13);
        assert_eq!(text.lines().next(), Some("InstanceType=OneSix"));
        assert_eq!(text.lines().last(), Some("notes="));
    }
}

#[test]
fn component_pack_for_forge() {
    let pack = synthesize_component_pack(&forge_descriptor());
    assert_eq!(
        pack,
        "{\"components\":[\
         {\"cachedName\":\"Minecraft\",\"important\":true,\"uid\":\"net.minecraft\",\"version\":\"1.16.5\"},\
         {\"cachedName\":\"Forge\",\"uid\":\"net.minecraftforge\",\"version\":\"36.2.0\"}\
         ],\"formatVersion\":1}"
    );
}

#[test]
fn component_pack_for_fabric_uses_the_explicit_version() {
    let d = CurseForgeInstance {
        name: "FabricPack".to_string(),
        minecraft_version: "1.19.2".to_string(),
        loader_name: "fabric-0.14.9".to_string(),
        loader_version: "0.14.10".to_string(),
    };
    let pack = synthesize_component_pack(&d);
    assert_eq!(
        pack,
        "{\"components\":[\
         {\"cachedName\":\"Minecraft\",\"important\":true,\"uid\":\"net.minecraft\",\"version\":\"1.19.2\"},\
         {\"cachedName\":\"Fabric Loader\",\"uid\":\"net.fabricmc.fabric-loader\",\"version\":\"0.14.10\"}\
         ],\"formatVersion\":1}"
    );
}

#[test]
fn component_pack_for_unknown_loader_keeps_an_empty_slot() {
    let d = CurseForgeInstance {
        name: "QuiltPack".to_string(),
        minecraft_version: "1.20.1".to_string(),
        loader_name: "quilt-1.0".to_string(),
        loader_version: "1.0".to_string(),
    };
    let pack = synthesize_component_pack(&d);
    assert_eq!(
        pack,
        "{\"components\":[\
         {\"cachedName\":\"Minecraft\",\"important\":true,\"uid\":\"net.minecraft\",\"version\":\"1.20.1\"},\
         {}\
         ],\"formatVersion\":1}"
    );
}

#[test]
fn component_pack_escapes_string_content() {
    let d = CurseForgeInstance {
        name: "p".to_string(),
        minecraft_version: "1.\"x\"\\y".to_string(),
        loader_name: "none".to_string(),
        loader_version: String::new(),
    };
    let pack = synthesize_component_pack(&d);
    assert!(pack.contains("\"version\":\"1.\\\"x\\\"\\\\y\""));
}

#[test]
fn synthesize_bundles_name_and_both_artifacts() {
    let d = forge_descriptor();
    let inst = MultiMCInstance::synthesize(&d);
    assert_eq!(inst.name, "All the Mods 6");
    assert_eq!(inst.config_text, synthesize_config(&d));
    assert_eq!(inst.pack_text, synthesize_component_pack(&d));
}
