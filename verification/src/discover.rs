//! Discovery of the components that a project holds.
use crate::file_utils::{RMSKIN_BMP_NAME, RMSKIN_INI_NAME};
use crate::project::Node;
use crate::text::str_eq;
use vstd::prelude::*;

verus! {

/// A data structure to represent the presence of a
/// Rainmeter project's distributable components.
#[derive(Debug, PartialEq, Eq, Clone, Copy)]
pub struct HasComponents {
    /// Whether the project has a manifest.
    pub rm_skin_ini: bool,
    /// How many skins the skins folder holds.
    pub skins: i32,
    /// How many layouts the layouts folder holds.
    pub layouts: i32,
    /// Whether the project has a plugins folder.
    pub plugins: bool,
    /// How many items the folder of shared resources holds.
    pub vault: i32,
    /// Whether the project has a header image.
    pub rm_skin_bmp: bool,
}

/// What a name in the project's root folder stands for.
#[derive(Debug, PartialEq, Eq, Clone, Copy)]
pub enum Component {
    Skins,
    Vault,
    Plugins,
    Layouts,
    Ini,
    Bmp,
    Other,
}

/// The component that an entry of the root folder with this name is.
pub open spec fn spec_component(name: Seq<char>) -> Component {
    if name == HasComponents::SKINS@ {
        Component::Skins
    } else if name == HasComponents::VAULT@ {
        Component::Vault
    } else if name == HasComponents::PLUGINS@ {
        Component::Plugins
    } else if name == HasComponents::LAYOUTS@ {
        Component::Layouts
    } else if name == RMSKIN_INI_NAME@ {
        Component::Ini
    } else if name == RMSKIN_BMP_NAME@ {
        Component::Bmp
    } else {
        Component::Other
    }
}

/// The component that an entry of the root folder with this name is.
pub fn component(name: &str) -> (r: Component)
    ensures
        r == spec_component(name@),
{
    if str_eq(name, HasComponents::SKINS) {
        Component::Skins
    } else if str_eq(name, HasComponents::VAULT) {
        Component::Vault
    } else if str_eq(name, HasComponents::PLUGINS) {
        Component::Plugins
    } else if str_eq(name, HasComponents::LAYOUTS) {
        Component::Layouts
    } else if str_eq(name, RMSKIN_INI_NAME) {
        Component::Ini
    } else if str_eq(name, RMSKIN_BMP_NAME) {
        Component::Bmp
    } else {
        Component::Other
    }
}

/// Whether a child counts: a folder where `dirs` is set, a file where `files` is.
pub open spec fn counts(node: Node, dirs: bool, files: bool) -> bool {
    (node is Folder && dirs) || (node is File && files)
}

/// How many of the first `n` children count.
pub open spec fn spec_count_children(children: Seq<Node>, dirs: bool, files: bool, n: nat) -> nat
    decreases n,
{
    if n == 0 || n > children.len() {
        0
    } else {
        spec_count_children(children, dirs, files, (n - 1) as nat) + if counts(
            children[n - 1],
            dirs,
            files,
        ) {
            1nat
        } else {
            0nat
        }
    }
}

/// No more children count than there are.
pub proof fn lemma_count_bounded(children: Seq<Node>, dirs: bool, files: bool, n: nat)
    ensures
        spec_count_children(children, dirs, files, n) <= n,
    decreases n,
{
    if n == 0 || n > children.len() {
    } else {
        lemma_count_bounded(children, dirs, files, (n - 1) as nat);
    }
}

/// The number of folders (if `dirs`) and files (if `files`) among `children`.
pub fn count_dir_children(children: &Vec<Node>, dirs: bool, files: bool) -> (r: i32)
    requires
        children.len() <= i32::MAX,
    ensures
        r == spec_count_children(children@, dirs, files, children@.len()),
{
    let mut count: i32 = 0;
    let mut i: usize = 0;
    while i < children.len()
        invariant
            i <= children.len(),
            children.len() <= i32::MAX,
            count == spec_count_children(children@, dirs, files, i as nat),
        decreases children.len() - i,
    {
        proof {
            lemma_count_bounded(children@, dirs, files, i as nat);
        }
        let is_dir = children[i].is_dir();
        if (is_dir && dirs) || (!is_dir && files) {
            count += 1;
        }
        i += 1;
    }
    count
}

/// Why a project's root folder could not be scanned.
#[derive(Debug, PartialEq, Eq, Clone, Copy)]
pub enum DiscoverError {
    /// The entry at this position has the name of a component folder
    /// and is a file, so that its children cannot be listed.
    NotADirectory(usize),
}

impl HasComponents {
    /// Name of the folder of resources that all installed skins share.
    pub const VAULT: &'static str = "@Vault";

    /// Name of the folder that holds one folder per plugin.
    pub const PLUGINS: &'static str = "Plugins";

    /// Name of the folder of layouts.
    pub const LAYOUTS: &'static str = "Layouts";

    /// Name of the folder of skins.
    pub const SKINS: &'static str = "Skins";

    /// A project in which nothing was found.
    pub open spec fn spec_new() -> HasComponents {
        HasComponents {
            rm_skin_ini: false,
            skins: 0,
            layouts: 0,
            plugins: false,
            vault: 0,
            rm_skin_bmp: false,
        }
    }

    /// A project in which nothing was found.
    pub fn new() -> (r: HasComponents)
        ensures
            r == HasComponents::spec_new(),
    {
        HasComponents {
            rm_skin_ini: false,
            skins: 0,
            layouts: 0,
            plugins: false,
            vault: 0,
            rm_skin_bmp: false,
        }
    }

    /// Whether an archive can be made of the project: it has a manifest
    /// and at least one skin.
    pub open spec fn spec_is_valid(&self) -> bool {
        self.rm_skin_ini && self.skins > 0
    }

    /// Whether an archive can be made of the project: it has a manifest
    /// and at least one skin.
    #[verifier::when_used_as_spec(spec_is_valid)]
    pub fn is_valid(&self) -> (r: bool)
        ensures
            r == self.spec_is_valid(),
    {
        self.rm_skin_ini && self.skins > 0
    }
}

impl Default for HasComponents {
    /// A project in which nothing was found.
    fn default() -> (r: HasComponents)
        ensures
            r == HasComponents::spec_new(),
    {
        HasComponents::new()
    }
}

/// Whether an entry of the root folder has the name of a component folder.
pub open spec fn is_folder_component(c: Component) -> bool {
    c == Component::Skins || c == Component::Vault || c == Component::Plugins || c
        == Component::Layouts
}

/// The children of a node: those of a folder, none for a file.
pub open spec fn spec_children(node: Node) -> Seq<Node> {
    match node {
        Node::Folder { children, .. } => children@,
        Node::File { .. } => Seq::empty(),
    }
}

/// What is known of a project after one more entry of its root folder.
///
/// Skins and plugins are folders, so only folders count among the children
/// of those two; layouts and shared resources may be single files.
pub open spec fn spec_record(found: HasComponents, node: Node) -> HasComponents {
    let children = spec_children(node);
    match spec_component(node.spec_name()) {
        Component::Skins => HasComponents {
            skins: spec_count_children(children, true, false, children.len()) as i32,
            ..found
        },
        Component::Vault => HasComponents {
            vault: spec_count_children(children, true, true, children.len()) as i32,
            ..found
        },
        Component::Plugins => HasComponents { plugins: true, ..found },
        Component::Layouts => HasComponents {
            layouts: spec_count_children(children, true, true, children.len()) as i32,
            ..found
        },
        Component::Ini => HasComponents { rm_skin_ini: true, ..found },
        Component::Bmp => HasComponents { rm_skin_bmp: true, ..found },
        Component::Other => found,
    }
}

/// Whether the scan stops at this entry: it is named as a component folder
/// and is a file.
pub open spec fn spec_stops(node: Node) -> bool {
    is_folder_component(spec_component(node.spec_name())) && node is File
}

/// What scanning the first `n` entries of a root folder yields.
pub open spec fn spec_discover(root: Seq<Node>, n: nat) -> Result<HasComponents, DiscoverError>
    decreases n,
{
    if n == 0 || n > root.len() {
        Ok(HasComponents::spec_new())
    } else {
        match spec_discover(root, (n - 1) as nat) {
            Err(e) => Err(e),
            Ok(found) => if spec_stops(root[n - 1]) {
                Err(DiscoverError::NotADirectory((n - 1) as usize))
            } else {
                Ok(spec_record(found, root[n - 1]))
            },
        }
    }
}

/// A scan that has stopped at one entry yields the same for every longer
/// part of the listing.
pub proof fn lemma_discover_stays_stopped(root: Seq<Node>, n: nat, m: nat)
    requires
        n <= m <= root.len(),
        spec_discover(root, n) is Err,
    ensures
        spec_discover(root, m) == spec_discover(root, n),
    decreases m,
{
    if n < m {
        lemma_discover_stays_stopped(root, n, (m - 1) as nat);
    }
}

/// Whether the children of every folder in `root` can be counted in an `i32`.
pub open spec fn countable(root: Seq<Node>) -> bool {
    forall|i: int| 0 <= i < root.len() ==> (#[trigger] spec_children(root[i])).len() <= i32::MAX
}

/// The method that does preliminary discovery of rmskin package components.
///
/// `root` lists the project's root folder. Of a component folder only the
/// children themselves are looked at, not what they hold.
pub fn discover_components(root: &Vec<Node>) -> (r: Result<HasComponents, DiscoverError>)
    requires
        countable(root@),
    ensures
        r == spec_discover(root@, root@.len()),
{
    let mut components = HasComponents::new();
    let mut i: usize = 0;
    while i < root.len()
        invariant
            i <= root.len(),
            countable(root@),
            spec_discover(root@, i as nat) == Ok::<HasComponents, DiscoverError>(components),
        decreases root.len() - i,
    {
        let node = &root[i];
        assert(spec_children(root@[i as int]).len() <= i32::MAX);
        let kind = component(node.name());
        match node {
            Node::File { .. } => {
                match kind {
                    Component::Skins | Component::Vault | Component::Plugins | Component::Layouts => {
                        proof {
                            lemma_discover_stays_stopped(
                                root@,
                                (i + 1) as nat,
                                root@.len(),
                            );
                        }
                        return Err(DiscoverError::NotADirectory(i));
                    },
                    Component::Ini => {
                        components.rm_skin_ini = true;
                    },
                    Component::Bmp => {
                        components.rm_skin_bmp = true;
                    },
                    Component::Other => {},
                }
            },
            Node::Folder { children, .. } => {
                match kind {
                    Component::Skins => {
                        components.skins = count_dir_children(children, true, false);
                    },
                    Component::Vault => {
                        components.vault = count_dir_children(children, true, true);
                    },
                    Component::Plugins => {
                        components.plugins = true;
                    },
                    Component::Layouts => {
                        components.layouts = count_dir_children(children, true, true);
                    },
                    Component::Ini => {
                        components.rm_skin_ini = true;
                    },
                    Component::Bmp => {
                        components.rm_skin_bmp = true;
                    },
                    Component::Other => {},
                }
            },
        }
        i += 1;
    }
    Ok(components)
}

/// Whether one of the first `n` entries of `root` has the name of `c`.
pub open spec fn has_component(root: Seq<Node>, n: nat, c: Component) -> bool {
    exists|i: int| 0 <= i < n && i < root.len() && spec_component(#[trigger] root[i].spec_name()) == c
}

/// The number of skins in a skins folder: the folders among its children.
pub open spec fn spec_skin_count(node: Node) -> nat {
    spec_count_children(spec_children(node), true, false, spec_children(node).len())
}

/// Whether each of the first `n` entries that is named as the skins folder
/// holds at least one skin.
pub open spec fn skins_populated(root: Seq<Node>, n: nat) -> bool {
    forall|i: int|
        0 <= i < n && i < root.len() && spec_component(#[trigger] root[i].spec_name())
            == Component::Skins ==> spec_skin_count(root[i]) > 0
}

/// A completed scan has found a manifest exactly if an entry has its name,
/// and has found skins if the skins folder is there and populated, none
/// if it is not there.
pub proof fn lemma_discover_finds(root: Seq<Node>, n: nat)
    requires
        n <= root.len(),
        countable(root),
        spec_discover(root, n) is Ok,
    ensures
        spec_discover(root, n)->Ok_0.rm_skin_ini <==> has_component(root, n, Component::Ini),
        !has_component(root, n, Component::Skins) ==> spec_discover(root, n)->Ok_0.skins == 0,
        has_component(root, n, Component::Skins) && skins_populated(root, n) ==> spec_discover(
            root,
            n,
        )->Ok_0.skins > 0,
    decreases n,
{
    if n > 0 {
        let last = root[n - 1];
        lemma_discover_finds(root, (n - 1) as nat);
        lemma_count_bounded(spec_children(last), true, false, spec_children(last).len());
    }
}

/// A project with a manifest and a populated skins folder is reported as
/// valid; one without a manifest, or without a skins folder, is not.
pub proof fn lemma_validity(root: Seq<Node>)
    requires
        countable(root),
        spec_discover(root, root.len()) is Ok,
    ensures
        has_component(root, root.len(), Component::Ini) && has_component(
            root,
            root.len(),
            Component::Skins,
        ) && skins_populated(root, root.len()) ==> spec_discover(
            root,
            root.len(),
        )->Ok_0.spec_is_valid(),
        !has_component(root, root.len(), Component::Ini) ==> !spec_discover(
            root,
            root.len(),
        )->Ok_0.spec_is_valid(),
        !has_component(root, root.len(), Component::Skins) ==> !spec_discover(
            root,
            root.len(),
        )->Ok_0.spec_is_valid(),
{
    lemma_discover_finds(root, root.len());
}

} // verus!
