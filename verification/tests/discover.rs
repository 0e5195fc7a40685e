use rmskin_builder::discover::{component, count_dir_children, Component, DiscoverError};
use rmskin_builder::{discover_components, HasComponents, Node};

fn file(name: &str) -> Node {
    Node::File {
        name: name.to_string(),
        data: Vec::new(),
    }
}

fn folder(name: &str, children: Vec<Node>) -> Node {
    Node::Folder {
        name: name.to_string(),
        children,
    }
}

fn demo_project() -> Vec<Node> {
    vec![
        file("README.md"),
        file("RMSKIN.bmp"),
        file("RMSKIN.ini"),
        folder("@Vault", vec![file("notes.txt")]),
        folder("Layouts", vec![folder("Default", vec![file("Rainmeter.ini")])]),
        folder(
            "Plugins",
            vec![folder("Test", vec![folder("32bit", vec![]), folder("64bit", vec![])])],
        ),
        folder(
            "Skins",
            vec![folder("Demo", vec![file("demo.ini")]), file("stray.txt")],
        ),
    ]
}

#[test]
fn basic() {
    let components = discover_components(&demo_project()).unwrap();
    assert!(components.is_valid());
    let expected = HasComponents {
        rm_skin_ini: true,
        skins: 1,
        layouts: 1,
        plugins: true,
        vault: 1,
        rm_skin_bmp: true,
    };
    assert_eq!(components, expected);
}

#[test]
fn empty_root_has_nothing() {
    let components = discover_components(&Vec::new()).unwrap();
    assert_eq!(components, HasComponents::new());
    assert_eq!(components, HasComponents::default());
    assert!(!components.is_valid());
}

#[test]
fn manifest_and_skin_make_a_project_valid() {
    let root = vec![file("RMSKIN.ini"), folder("Skins", vec![folder("One", vec![])])];
    let components = discover_components(&root).unwrap();
    assert!(components.is_valid());
    assert_eq!(components.skins, 1);
    assert!(!components.plugins);
    assert!(!components.rm_skin_bmp);
}

#[test]
fn without_manifest_a_project_is_invalid() {
    let root = vec![folder("Skins", vec![folder("One", vec![])])];
    let components = discover_components(&root).unwrap();
    assert!(!components.rm_skin_ini);
    assert!(!components.is_valid());
}

#[test]
fn without_skins_a_project_is_invalid() {
    let root = vec![file("RMSKIN.ini")];
    assert!(!discover_components(&root).unwrap().is_valid());
    let root = vec![file("RMSKIN.ini"), folder("Skins", vec![])];
    assert!(!discover_components(&root).unwrap().is_valid());
}

#[test]
fn files_are_no_skins() {
    let root = vec![file("RMSKIN.ini"), folder("Skins", vec![file("a.ini"), file("b.ini")])];
    let components = discover_components(&root).unwrap();
    assert_eq!(components.skins, 0);
    assert!(!components.is_valid());
}

#[test]
fn layouts_and_vault_count_files_too() {
    let root = vec![
        folder("Layouts", vec![file("a"), folder("b", vec![]), file("c")]),
        folder("@Vault", vec![file("a"), folder("b", vec![])]),
    ];
    let components = discover_components(&root).unwrap();
    assert_eq!(components.layouts, 3);
    assert_eq!(components.vault, 2);
}

#[test]
fn component_folder_that_is_a_file_stops_the_scan() {
    let root = vec![file("RMSKIN.ini"), file("Skins"), file("RMSKIN.bmp")];
    assert_eq!(discover_components(&root), Err(DiscoverError::NotADirectory(1)));
    let root = vec![file("Plugins")];
    assert_eq!(discover_components(&root), Err(DiscoverError::NotADirectory(0)));
}

#[test]
fn names_are_matched_exactly() {
    assert_eq!(component("Skins"), Component::Skins);
    assert_eq!(component("@Vault"), Component::Vault);
    assert_eq!(component("Plugins"), Component::Plugins);
    assert_eq!(component("Layouts"), Component::Layouts);
    assert_eq!(component("RMSKIN.ini"), Component::Ini);
    assert_eq!(component("RMSKIN.bmp"), Component::Bmp);
    assert_eq!(component("skins"), Component::Other);
    assert_eq!(component("Skins "), Component::Other);
    assert_eq!(component(""), Component::Other);
}

#[test]
fn children_are_counted_by_kind() {
    let children = vec![file("a"), folder("b", vec![file("x")]), file("c")];
    assert_eq!(count_dir_children(&children, true, false), 1);
    assert_eq!(count_dir_children(&children, false, true), 2);
    assert_eq!(count_dir_children(&children, true, true), 3);
    assert_eq!(count_dir_children(&children, false, false), 0);
}
