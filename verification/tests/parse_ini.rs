use ini::Ini;
use rmskin_builder::file_utils::parse_ini::{
    slashes, strip_bom, AUTHOR_KEY, LOAD_KEY, LOAD_TYPE_KEY, NAME_KEY, ROOT_SECTION_KEY,
    VERSION_KEY,
};
use rmskin_builder::{parse_rmskin_ini, CliError, Defaults, IniError, Manifest, Missing};

const CUSTOM_AUTHOR: &str = "Unknown";
const CUSTOM_VERSION: &str = "x0x.y0y";
const CUSTOM_NAME: &str = "Test ini";

const DEFAULT_AUTHOR: &str = "2bndy5";
const DEFAULT_VERSION: &str = "v1.2.3";
const DEFAULT_TITLE: &str = "rmskin-action";

fn get_author() -> Result<String, CliError> {
    Ok(DEFAULT_AUTHOR.to_string())
}

fn get_version() -> Result<String, CliError> {
    Ok(DEFAULT_VERSION.to_string())
}

fn get_title() -> Result<String, CliError> {
    Ok(DEFAULT_TITLE.to_string())
}

fn not_asked() -> Result<String, CliError> {
    panic!("a default was asked for that the manifest does not need")
}

fn text_of(ini: &Ini) -> Vec<u8> {
    let mut text = Vec::new();
    ini.write_to(&mut text).unwrap();
    text
}

fn custom_manifest(bad_on_load_val: bool) -> Vec<u8> {
    let mut ini_in = Ini::new();
    let mut section = ini_in.with_section(Some(ROOT_SECTION_KEY));
    section.add(AUTHOR_KEY, CUSTOM_AUTHOR);
    section.add(VERSION_KEY, CUSTOM_VERSION);
    section.add(NAME_KEY, CUSTOM_NAME);
    if bad_on_load_val {
        section.add(LOAD_KEY, "MySkin/test.ini");
    }
    text_of(&ini_in)
}

#[test]
fn parse_template() {
    let template = b"[rmskin]\nLoadType=Skin\nLoad=Demo\\demo.ini\nMinimumRainmeter=4.0\n";
    let (manifest, release) =
        parse_rmskin_ini(template, get_author, get_version, get_title).unwrap();

    assert_eq!(release.name, get_title().unwrap());
    assert_eq!(release.version, get_version().unwrap());
    let ini_out = Ini::load_from_str(&String::from_utf8(manifest.write(None).unwrap()).unwrap())
        .unwrap();
    let author = ini_out.get_from(Some(ROOT_SECTION_KEY), AUTHOR_KEY);
    assert_eq!(author, Some(get_author().unwrap().as_str()));
    assert_eq!(ini_out.get_from(Some(ROOT_SECTION_KEY), VERSION_KEY), Some(DEFAULT_VERSION));
    assert_eq!(ini_out.get_from(Some(ROOT_SECTION_KEY), NAME_KEY), Some(DEFAULT_TITLE));
    assert_eq!(ini_out.get_from(Some(ROOT_SECTION_KEY), "MinimumRainmeter"), Some("4.0"));
}

fn parse_ini_custom(bad_on_load_val: bool) {
    let text = custom_manifest(bad_on_load_val);
    let (manifest, release) =
        parse_rmskin_ini(&text, not_asked, not_asked, not_asked).unwrap();
    let missing = if bad_on_load_val {
        assert_eq!(release.on_load.as_deref(), Some("Skins/MySkin/test.ini"));
        Some(std::io::Error::from(std::io::ErrorKind::NotFound))
    } else {
        assert_eq!(release.on_load, None);
        None
    };
    let result = manifest.write(missing).map(|text| (release.name.clone(), release.version.clone(), text));
    match result {
        Ok((name, version, text)) => {
            assert!(!bad_on_load_val);
            assert_eq!(name, CUSTOM_NAME);
            assert_eq!(version, CUSTOM_VERSION);
            let ini_out = Ini::load_from_str(&String::from_utf8(text).unwrap()).unwrap();
            let author = ini_out.get_from(Some(ROOT_SECTION_KEY), AUTHOR_KEY);
            assert_eq!(author, Some(CUSTOM_AUTHOR));
        }
        Err(e) => {
            assert!(bad_on_load_val);
            assert!(matches!(e, IniError::Io(ref io) if io.kind() == std::io::ErrorKind::NotFound));
        }
    }
}

#[test]
fn parse_custom() {
    parse_ini_custom(false);
}

#[test]
fn parse_bad_load_path() {
    parse_ini_custom(true);
}

#[test]
fn auto_version_asks_for_the_default() {
    let text = b"[rmskin]\nAuthor=A\nVersion=auto\nName=Test\n";
    let (manifest, release) = parse_rmskin_ini(text, not_asked, get_version, not_asked).unwrap();
    assert_eq!(release.author, "A");
    assert_eq!(release.version, DEFAULT_VERSION);
    assert_eq!(release.name, "Test");
    assert_eq!(manifest.get(VERSION_KEY), Some(DEFAULT_VERSION.to_string()));
    let text = b"[rmskin]\nAuthor=A\nVersion=Auto\nName=Test\n";
    let (_, release) = parse_rmskin_ini(text, not_asked, not_asked, not_asked).unwrap();
    assert_eq!(release.version, "Auto");
}

#[test]
fn resolution_is_idempotent() {
    let text = b"[rmskin]\nAuthor=A\nVersion=1.0.0\nName=Test\n[other]\nkey=value\n";
    let (manifest, first) = parse_rmskin_ini(text, not_asked, not_asked, not_asked).unwrap();
    let written = manifest.write(None).unwrap();
    let (again, second) = parse_rmskin_ini(&written, not_asked, not_asked, not_asked).unwrap();
    assert_eq!((first.author.as_str(), first.version.as_str(), first.name.as_str()), ("A", "1.0.0", "Test"));
    assert_eq!(first.author, second.author);
    assert_eq!(first.version, second.version);
    assert_eq!(first.name, second.name);
    assert_eq!(again.write(None).unwrap(), written);

    let (manifest, first) = parse_rmskin_ini(b"[rmskin]\n", get_author, get_version, get_title).unwrap();
    let written = manifest.write(None).unwrap();
    let (_, second) = parse_rmskin_ini(&written, not_asked, not_asked, not_asked).unwrap();
    assert_eq!(second.author, DEFAULT_AUTHOR);
    assert_eq!(second.version, DEFAULT_VERSION);
    assert_eq!(second.name, DEFAULT_TITLE);
    assert_eq!(first.name, second.name);
}

#[test]
fn missing_section_is_an_error() {
    let result = parse_rmskin_ini(b"[other]\nAuthor=A\n", not_asked, not_asked, not_asked);
    match result {
        Err(IniError::MissingSection(name)) => assert_eq!(name, "rmskin"),
        other => panic!("{:?}", other),
    }
    let result = parse_rmskin_ini(b"Author=A\n", not_asked, not_asked, not_asked);
    assert!(matches!(result, Err(IniError::MissingSection(_))));
    assert!(matches!(Manifest::parse(b""), Err(IniError::MissingSection(_))));
}

#[test]
fn bad_syntax_is_an_error() {
    let result = parse_rmskin_ini(b"[rmskin\nAuthor=A\n", not_asked, not_asked, not_asked);
    assert!(matches!(result, Err(IniError::ParseError(ini::Error::Parse(_)))));
    let result = Manifest::parse(b"[rmskin]\nAuthor=\xff\n");
    assert!(matches!(result, Err(IniError::ParseError(ini::Error::Io(_)))));
}

#[test]
fn failing_default_ends_the_resolution() {
    let failing = || Err(CliError::UnknownWorkingDirectory);
    let result = parse_rmskin_ini(b"[rmskin]\nAuthor=A\nVersion=1\n", not_asked, not_asked, failing);
    assert!(matches!(
        result,
        Err(IniError::CliError(CliError::UnknownWorkingDirectory))
    ));
    let failing = || Err(CliError::MalformedRepoName("x".to_string()));
    let result = parse_rmskin_ini(b"[rmskin]\nName=N\n", failing, not_asked, not_asked);
    assert!(matches!(
        result,
        Err(IniError::CliError(CliError::MalformedRepoName(_)))
    ));
    let failing = || Err(CliError::UnknownWorkingDirectory);
    let result = parse_rmskin_ini(b"[rmskin]\nAuthor=A\nName=N\n", not_asked, failing, not_asked);
    assert!(matches!(result, Err(IniError::CliError(_))));
}

#[test]
fn manifest_says_what_it_misses() {
    let manifest = Manifest::parse(b"[rmskin]\nVersion=auto\nName=N\n").unwrap();
    assert_eq!(
        manifest.missing(),
        Missing {
            author: true,
            version: true,
            title: false
        }
    );
    let manifest = Manifest::parse(b"[rmskin]\nAuthor=A\nVersion=2\n").unwrap();
    assert_eq!(
        manifest.missing(),
        Missing {
            author: false,
            version: false,
            title: true
        }
    );
}

#[test]
fn resolve_takes_only_the_defaults_it_needs() {
    let mut manifest = Manifest::parse(b"[rmskin]\nVersion=3.1\n").unwrap();
    let defaults = Defaults {
        author: Some("D".to_string()),
        version: Some("ignored".to_string()),
        title: Some("T".to_string()),
    };
    let release = manifest.resolve(&defaults);
    assert_eq!(release.author, "D");
    assert_eq!(release.version, "3.1");
    assert_eq!(release.name, "T");
    assert_eq!(manifest.get(AUTHOR_KEY), Some("D".to_string()));
    assert_eq!(manifest.get(NAME_KEY), Some("T".to_string()));
    assert_eq!(manifest.get(VERSION_KEY), Some("3.1".to_string()));
    assert_eq!(manifest.get(LOAD_KEY), None);
    assert!(!manifest.missing().author);
}

#[test]
fn load_target_is_joined_to_the_folder_of_its_kind() {
    let manifest = Manifest::parse(b"[rmskin]\nLoad=MySkin/test.ini\n").unwrap();
    assert_eq!(manifest.on_load(), Some("Skins/MySkin/test.ini".to_string()));
    let manifest = Manifest::parse(b"[rmskin]\nLoadType=Layout\nLoad=Mine\n").unwrap();
    assert_eq!(manifest.on_load(), Some("Layouts/Mine".to_string()));
    let manifest = Manifest::parse(b"[rmskin]\nLoadType=Layout\n").unwrap();
    assert_eq!(manifest.on_load(), None);
    let mut ini = Ini::new();
    ini.with_section(Some(ROOT_SECTION_KEY))
        .add(LOAD_TYPE_KEY, "Skin")
        .add(LOAD_KEY, "My Skin\\it's.ini");
    let manifest = Manifest::parse(&text_of(&ini)).unwrap();
    assert_eq!(manifest.get(LOAD_KEY), Some("My Skin\\it's.ini".to_string()));
    assert_eq!(manifest.on_load(), Some("Skins/My Skin//it/'s.ini".to_string()));
}

#[test]
fn backslashes_become_slashes() {
    assert_eq!(slashes("a\\b\\\\c/d"), "a/b//c/d");
    assert_eq!(slashes(""), "");
    assert_eq!(slashes("\\"), "/");
    assert_eq!(slashes("n\u{e9}e\\"), "n\u{e9}e/");
}

#[test]
fn byte_order_mark_is_passed_over() {
    assert_eq!(strip_bom(b"\xEF\xBB\xBF[rmskin]"), b"[rmskin]");
    assert_eq!(strip_bom(b"\xEF\xBB\xBF"), b"");
    assert_eq!(strip_bom(b"\xEF\xBB"), b"\xEF\xBB");
    assert_eq!(strip_bom(b"[rmskin]"), b"[rmskin]");
    assert_eq!(strip_bom(b""), b"");
    let manifest = Manifest::parse(b"\xEF\xBB\xBF[rmskin]\nName=N\n").unwrap();
    assert_eq!(manifest.get(NAME_KEY), Some("N".to_string()));
}

#[test]
fn write_fails_where_the_load_target_is_missing() {
    let manifest = Manifest::parse(b"[rmskin]\nName=N\n").unwrap();
    let missing = std::io::Error::new(std::io::ErrorKind::NotFound, "no such file");
    match manifest.write(Some(missing)) {
        Err(IniError::Io(e)) => {
            assert_eq!(e.kind(), std::io::ErrorKind::NotFound);
            assert_eq!(e.to_string(), "no such file");
        }
        other => panic!("{:?}", other),
    }
    assert!(manifest.write(None).is_ok());
}

#[test]
fn written_text_holds_all_sections_with_the_line_ends_of_the_host() {
    let text = b"top=1\n[other]\nkey=value\n[rmskin]\nName=N\n";
    let (manifest, _) = parse_rmskin_ini(text, get_author, get_version, not_asked).unwrap();
    let written = String::from_utf8(manifest.write(None).unwrap()).unwrap();
    let lines = [
        "top=1",
        "",
        "[other]",
        "key=value",
        "",
        "[rmskin]",
        "Author=2bndy5",
        "Version=v1.2.3",
        "Name=N",
        "",
    ];
    assert!(written == lines.join("\n") || written == lines.join("\r\n"));
}
