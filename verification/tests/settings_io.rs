use cf_to_mmc::settings::Settings;

#[test]
fn write_to_renders_one_pair_per_line() {
    let s = Settings {
        mmc_path: "/home/u/.local/share/MultiMC/minecraft/Instances".to_string(),
        cf_path: "/home/u/curseforge/minecraft/Instances".to_string(),
        ftb_path: String::new(),
    };
    assert_eq!(
        s.write_to(),
        "mmc = /home/u/.local/share/MultiMC/minecraft/Instances\n\
         cf = /home/u/curseforge/minecraft/Instances\n\
         ftb = \n"
    );
}

#[test]
fn read_from_parses_what_write_to_renders() {
    let s = Settings {
        mmc_path: "/a/b".to_string(),
        cf_path: "C:\\Users\\u\\curseforge".to_string(),
        ftb_path: "/f".to_string(),
    };
    assert_eq!(Settings::read_from(&s.write_to()), s);
}

#[test]
fn read_from_trims_and_skips_unknown_lines() {
    let text = "  mmc =  /a/b \n\
                junk\n\
                cf=/c\r\n\
                color = blue\n\
                \n\
                ftb\t=\t/f";
    let s = Settings::read_from(text);
    assert_eq!(s.mmc_path, "/a/b");
    assert_eq!(s.cf_path, "/c");
    assert_eq!(s.ftb_path, "/f");
}

#[test]
fn read_from_keeps_the_last_repeated_value() {
    let s = Settings::read_from("mmc = /one\nmmc = /two\n");
    assert_eq!(s.mmc_path, "/two");
}

#[test]
fn read_from_of_empty_text_is_the_default() {
    assert_eq!(Settings::read_from(""), Settings::default());
}

#[test]
fn values_may_contain_the_separator() {
    let s = Settings::read_from("mmc = /odd=path\n");
    assert_eq!(s.mmc_path, "/odd=path");
}
