//! Assembly of the archive: which entries it holds, in which order, and
//! the footer behind them.
use crate::discover::{component, spec_component, Component};
use crate::error::ArchiveError;
use crate::file_utils::bitness::{get_dll_bitness, spec_get_dll_bitness, Bitness};
use crate::file_utils::{RMSKIN_BMP_NAME, RMSKIN_INI_NAME};
use crate::project::Node;
use crate::text::{join, spec_join};
use vstd::prelude::*;

verus! {

/// One entry of an archive: a folder, or a file with its contents.
#[derive(Debug, Clone)]
pub struct ArchiveEntry<'a> {
    /// The path inside the archive, its parts separated by `/`.
    pub path: String,
    /// The contents of a file; `None` for a folder.
    pub data: Option<&'a [u8]>,
}

impl<'a> View for ArchiveEntry<'a> {
    type V = (Seq<char>, Option<Seq<u8>>);

    open spec fn view(&self) -> (Seq<char>, Option<Seq<u8>>) {
        (
            self.path@,
            match self.data {
                Some(d) => Some(d@),
                None => None,
            },
        )
    }
}

/// The entries that a list of entries stands for.
pub open spec fn entries_view(entries: Seq<ArchiveEntry>) -> Seq<(Seq<char>, Option<Seq<u8>>)> {
    entries.map_values(|e: ArchiveEntry| e@)
}

/// Name of the folder that receives the plugins for 32-bit hosts.
pub const DIR_32BIT: &'static str = "32bit";

/// Name of the folder that receives the plugins for 64-bit hosts.
pub const DIR_64BIT: &'static str = "64bit";

/// The entries for the first `n` children of the folder at `path`.
pub open spec fn spec_children_entries(path: Seq<char>, children: Seq<Node>, n: nat) -> Seq<
    (Seq<char>, Option<Seq<u8>>),
>
    decreases children, n,
{
    if n == 0 || n > children.len() {
        Seq::empty()
    } else {
        spec_children_entries(path, children, (n - 1) as nat) + spec_node_entries(
            spec_join(path, children[n - 1].spec_name()),
            children[n - 1],
        )
    }
}

/// The entries for the file or folder at `path`: a file is one entry; a
/// folder is its own entry followed by those of its children in their order.
pub open spec fn spec_node_entries(path: Seq<char>, node: Node) -> Seq<
    (Seq<char>, Option<Seq<u8>>),
>
    decreases node, 0nat,
{
    match node {
        Node::File { data, .. } => seq![(path, Some(data@))],
        Node::Folder { children, .. } => seq![(path, None::<Seq<u8>>)] + spec_children_entries(
            path,
            children@,
            children@.len(),
        ),
    }
}

/// What a plugin library at `data` adds to the archive below the plugins
/// folder at `base`: the library under its own name, in the folder for its
/// architecture. A library for another machine, or a file that is no PE
/// image, is an error.
pub open spec fn spec_plugin_entry(base: Seq<char>, name: Seq<char>, data: Seq<u8>) -> Result<
    (Seq<char>, Option<Seq<u8>>),
    ArchiveError,
> {
    match spec_get_dll_bitness(data) {
        Err(e) => Err(ArchiveError::Binary(e)),
        Ok(Bitness::Bit32()) => Ok((spec_join(spec_join(base, DIR_32BIT@), name), Some(data))),
        Ok(Bitness::Bit64()) => Ok((spec_join(spec_join(base, DIR_64BIT@), name), Some(data))),
        Ok(Bitness::Unknown(machine)) => Err(ArchiveError::InvalidPlugin(machine)),
    }
}

/// The entries for the files among the first `n` children of one plugin's
/// folder, or the error of the first file that has one. Folders inside a
/// plugin's folder are passed over.
pub open spec fn spec_plugin_files(base: Seq<char>, files: Seq<Node>, n: nat) -> Result<
    Seq<(Seq<char>, Option<Seq<u8>>)>,
    ArchiveError,
>
    decreases n,
{
    if n == 0 || n > files.len() {
        Ok(Seq::empty())
    } else {
        match spec_plugin_files(base, files, (n - 1) as nat) {
            Err(e) => Err(e),
            Ok(before) => match files[n - 1] {
                Node::Folder { .. } => Ok(before),
                Node::File { name, data } => match spec_plugin_entry(base, name@, data@) {
                    Err(e) => Err(e),
                    Ok(entry) => Ok(before.push(entry)),
                },
            },
        }
    }
}

/// The entries for the first `n` children of the plugins folder: for each
/// that is a folder, those of its files. Files directly in the plugins
/// folder are passed over.
pub open spec fn spec_plugin_folders(base: Seq<char>, plugins: Seq<Node>, n: nat) -> Result<
    Seq<(Seq<char>, Option<Seq<u8>>)>,
    ArchiveError,
>
    decreases n,
{
    if n == 0 || n > plugins.len() {
        Ok(Seq::empty())
    } else {
        match spec_plugin_folders(base, plugins, (n - 1) as nat) {
            Err(e) => Err(e),
            Ok(before) => match plugins[n - 1] {
                Node::File { .. } => Ok(before),
                Node::Folder { children, .. } => match spec_plugin_files(
                    base,
                    children@,
                    children@.len(),
                ) {
                    Err(e) => Err(e),
                    Ok(files) => Ok(before + files),
                },
            },
        }
    }
}

/// The entries for the plugins folder at `base`: the folder itself, the
/// two folders for the architectures, then every plugin's libraries.
pub open spec fn spec_plugins_entries(base: Seq<char>, plugins: Seq<Node>) -> Result<
    Seq<(Seq<char>, Option<Seq<u8>>)>,
    ArchiveError,
> {
    match spec_plugin_folders(base, plugins, plugins.len()) {
        Err(e) => Err(e),
        Ok(files) => Ok(
            seq![
                (base, None::<Seq<u8>>),
                (spec_join(base, DIR_32BIT@), None::<Seq<u8>>),
                (spec_join(base, DIR_64BIT@), None::<Seq<u8>>),
            ] + files,
        ),
    }
}

/// The entries for the first `n` entries of a project's root folder.
///
/// The folders of skins, layouts and shared resources are taken as they
/// are, the plugins folder by architecture; every other entry, and every
/// file, adds nothing.
pub open spec fn spec_root_entries(root: Seq<Node>, n: nat) -> Result<
    Seq<(Seq<char>, Option<Seq<u8>>)>,
    ArchiveError,
>
    decreases n,
{
    if n == 0 || n > root.len() {
        Ok(Seq::empty())
    } else {
        match spec_root_entries(root, (n - 1) as nat) {
            Err(e) => Err(e),
            Ok(before) => match root[n - 1] {
                Node::File { .. } => Ok(before),
                Node::Folder { name, children } => match spec_component(name@) {
                    Component::Skins | Component::Layouts | Component::Vault => Ok(
                        before + spec_node_entries(name@, root[n - 1]),
                    ),
                    Component::Plugins => match spec_plugins_entries(name@, children@) {
                        Err(e) => Err(e),
                        Ok(plugins) => Ok(before + plugins),
                    },
                    _ => Ok(before),
                },
            },
        }
    }
}

/// The entries of the archive for a project, in their order: the
/// manifest, the header image if there is one, then what the root folder
/// gives.
pub open spec fn spec_plan(root: Seq<Node>, manifest: Seq<u8>, header: Option<Seq<u8>>) -> Result<
    Seq<(Seq<char>, Option<Seq<u8>>)>,
    ArchiveError,
> {
    match spec_root_entries(root, root.len()) {
        Err(e) => Err(e),
        Ok(entries) => Ok(
            seq![(RMSKIN_INI_NAME@, Some(manifest))] + match header {
                Some(image) => seq![(RMSKIN_BMP_NAME@, Some(image))],
                None => Seq::empty(),
            } + entries,
        ),
    }
}

/// Appends one entry to a plan.
fn push_entry<'a>(plan: &mut Vec<ArchiveEntry<'a>>, path: String, data: Option<&'a [u8]>)
    ensures
        entries_view(final(plan)@) == entries_view(old(plan)@).push(
            (
                path@,
                match data {
                    Some(d) => Some(d@),
                    None => None,
                },
            ),
        ),
{
    let entry = ArchiveEntry { path, data };
    plan.push(entry);
}

/// Appends the entry for a file with the path `dest`.
fn compress_file<'a>(plan: &mut Vec<ArchiveEntry<'a>>, dest: String, data: &'a [u8])
    ensures
        entries_view(final(plan)@) == entries_view(old(plan)@).push((dest@, Some(data@))),
{
    push_entry(plan, dest, Some(data));
}

/// Appends the entries for the folder at `path` and for all that is in it.
fn compress_folder<'a>(plan: &mut Vec<ArchiveEntry<'a>>, path: &str, children: &'a Vec<Node>)
    ensures
        entries_view(final(plan)@) == entries_view(old(plan)@) + seq![(path@, None::<Seq<u8>>)]
            + spec_children_entries(path@, children@, children@.len()),
    decreases children,
{
    push_entry(plan, String::from_str(path), None);
    let mut i: usize = 0;
    while i < children.len()
        invariant
            i <= children.len(),
            entries_view(plan@) == entries_view(old(plan)@) + seq![(path@, None::<Seq<u8>>)]
                + spec_children_entries(path@, children@, i as nat),
        decreases children.len() - i,
    {
        let child_path = join(path, children[i].name());
        let ghost before = entries_view(plan@);
        match &children[i] {
            Node::File { data, .. } => {
                compress_file(plan, child_path, data.as_slice());
            },
            Node::Folder { children: inner, .. } => {
                compress_folder(plan, child_path.as_str(), inner);
            },
        }
        assert(entries_view(plan@) =~= before + spec_node_entries(child_path@, children@[i as int]));
        i += 1;
    }
}

/// A plan that has met an error keeps it, whatever follows.
proof fn lemma_plugin_files_stay_failed(base: Seq<char>, files: Seq<Node>, n: nat, m: nat)
    requires
        n <= m <= files.len(),
        spec_plugin_files(base, files, n) is Err,
    ensures
        spec_plugin_files(base, files, m) == spec_plugin_files(base, files, n),
    decreases m,
{
    if n < m {
        lemma_plugin_files_stay_failed(base, files, n, (m - 1) as nat);
    }
}

/// The same, of the folders of the plugins.
proof fn lemma_plugin_folders_stay_failed(base: Seq<char>, plugins: Seq<Node>, n: nat, m: nat)
    requires
        n <= m <= plugins.len(),
        spec_plugin_folders(base, plugins, n) is Err,
    ensures
        spec_plugin_folders(base, plugins, m) == spec_plugin_folders(base, plugins, n),
    decreases m,
{
    if n < m {
        lemma_plugin_folders_stay_failed(base, plugins, n, (m - 1) as nat);
    }
}

/// The same, of the entries of the root folder.
proof fn lemma_root_entries_stay_failed(root: Seq<Node>, n: nat, m: nat)
    requires
        n <= m <= root.len(),
        spec_root_entries(root, n) is Err,
    ensures
        spec_root_entries(root, m) == spec_root_entries(root, n),
    decreases m,
{
    if n < m {
        lemma_root_entries_stay_failed(root, n, (m - 1) as nat);
    }
}

/// Appends the entries for the libraries in one plugin's folder.
fn compress_plugin_files<'a>(
    plan: &mut Vec<ArchiveEntry<'a>>,
    base: &str,
    files: &'a Vec<Node>,
) -> (r: Result<(), ArchiveError>)
    ensures
        match spec_plugin_files(base@, files@, files@.len()) {
            Err(e) => r == Err::<(), ArchiveError>(e),
            Ok(entries) => r is Ok && entries_view(final(plan)@) == entries_view(old(plan)@)
                + entries,
        },
{
    let mut i: usize = 0;
    while i < files.len()
        invariant
            i <= files.len(),
            spec_plugin_files(base@, files@, i as nat) is Ok,
            entries_view(plan@) == entries_view(old(plan)@) + spec_plugin_files(
                base@,
                files@,
                i as nat,
            )->Ok_0,
        decreases files.len() - i,
    {
        match &files[i] {
            Node::Folder { .. } => {},
            Node::File { name, data } => {
                let dest_sub_path = match get_dll_bitness(data.as_slice()) {
                    Err(e) => {
                        proof {
                            lemma_plugin_files_stay_failed(
                                base@,
                                files@,
                                (i + 1) as nat,
                                files@.len(),
                            );
                        }
                        return Err(ArchiveError::Binary(e));
                    },
                    Ok(Bitness::Bit32()) => DIR_32BIT,
                    Ok(Bitness::Bit64()) => DIR_64BIT,
                    Ok(Bitness::Unknown(machine_type)) => {
                        proof {
                            lemma_plugin_files_stay_failed(
                                base@,
                                files@,
                                (i + 1) as nat,
                                files@.len(),
                            );
                        }
                        return Err(ArchiveError::InvalidPlugin(machine_type));
                    },
                };
                let folder = join(base, dest_sub_path);
                let dest = join(folder.as_str(), name.as_str());
                compress_file(plan, dest, data.as_slice());
            },
        }
        i += 1;
    }
    Ok(())
}

/// Appends the entries for the plugins folder at `base`.
fn compress_plugins<'a>(plan: &mut Vec<ArchiveEntry<'a>>, base: &str, plugins: &'a Vec<Node>) -> (r:
    Result<(), ArchiveError>)
    ensures
        match spec_plugins_entries(base@, plugins@) {
            Err(e) => r == Err::<(), ArchiveError>(e),
            Ok(entries) => r is Ok && entries_view(final(plan)@) == entries_view(old(plan)@)
                + entries,
        },
{
    push_entry(plan, String::from_str(base), None);
    push_entry(plan, join(base, DIR_32BIT), None);
    push_entry(plan, join(base, DIR_64BIT), None);
    let ghost head = seq![
        (base@, None::<Seq<u8>>),
        (spec_join(base@, DIR_32BIT@), None::<Seq<u8>>),
        (spec_join(base@, DIR_64BIT@), None::<Seq<u8>>),
    ];
    let mut i: usize = 0;
    while i < plugins.len()
        invariant
            i <= plugins.len(),
            spec_plugin_folders(base@, plugins@, i as nat) is Ok,
            entries_view(plan@) == entries_view(old(plan)@) + head + spec_plugin_folders(
                base@,
                plugins@,
                i as nat,
            )->Ok_0,
        decreases plugins.len() - i,
    {
        match &plugins[i] {
            Node::File { .. } => {},
            Node::Folder { children, .. } => {
                match compress_plugin_files(plan, base, children) {
                    Err(e) => {
                        proof {
                            lemma_plugin_folders_stay_failed(
                                base@,
                                plugins@,
                                (i + 1) as nat,
                                plugins@.len(),
                            );
                        }
                        return Err(e);
                    },
                    Ok(()) => {},
                }
            },
        }
        i += 1;
    }
    Ok(())
}

/// Lists the entries of the archive for a project, in their order.
///
/// `root` lists the project's root folder, `manifest` is the resolved
/// manifest and `header` the normalized header image, if the project has one.
pub fn plan_archive<'a>(root: &'a Vec<Node>, manifest: &'a [u8], header: Option<&'a [u8]>) -> (r:
    Result<Vec<ArchiveEntry<'a>>, ArchiveError>)
    ensures
        match spec_plan(
            root@,
            manifest@,
            match header {
                Some(image) => Some(image@),
                None => None,
            },
        ) {
            Err(e) => r == Err::<Vec<ArchiveEntry<'a>>, ArchiveError>(e),
            Ok(entries) => r is Ok && entries_view(r->Ok_0@) == entries,
        },
{
    let mut plan: Vec<ArchiveEntry<'a>> = Vec::new();
    compress_file(&mut plan, String::from_str(RMSKIN_INI_NAME), manifest);
    match header {
        Some(image) => {
            compress_file(&mut plan, String::from_str(RMSKIN_BMP_NAME), image);
        },
        None => {},
    }
    let ghost head = seq![(RMSKIN_INI_NAME@, Some(manifest@))] + match header {
        Some(image) => seq![(RMSKIN_BMP_NAME@, Some(image@))],
        None => Seq::empty(),
    };
    let mut i: usize = 0;
    while i < root.len()
        invariant
            i <= root.len(),
            spec_root_entries(root@, i as nat) is Ok,
            entries_view(plan@) == head + spec_root_entries(root@, i as nat)->Ok_0,
        decreases root.len() - i,
    {
        match &root[i] {
            Node::File { .. } => {},
            Node::Folder { name, children } => {
                match component(name.as_str()) {
                    Component::Skins | Component::Layouts | Component::Vault => {
                        compress_folder(&mut plan, name.as_str(), children);
                    },
                    Component::Plugins => {
                        match compress_plugins(&mut plan, name.as_str(), children) {
                            Err(e) => {
                                proof {
                                    lemma_root_entries_stay_failed(
                                        root@,
                                        (i + 1) as nat,
                                        root@.len(),
                                    );
                                }
                                return Err(e);
                            },
                            Ok(()) => {},
                        }
                    },
                    _ => {},
                }
            },
        }
        i += 1;
    }
    Ok(plan)
}

/// `zip::CompressionMethod`: how the contents of an entry are packed.
#[verifier::external_type_specification]
pub struct ExCompressionMethod(zip::CompressionMethod);

/// An archive that is being written to memory: a `zip::ZipWriter` over a
/// `std::io::Cursor`.
#[verifier::external_body]
pub struct Archive {
    writer: zip::ZipWriter<std::io::Cursor<Vec<u8>>>,
}

/// The entries of an archive, in the order in which they were added:
/// the name that each was added under, and the bytes that were written
/// to a file, `None` for a folder. A folder's name stands here as it was
/// given; the archive itself holds it with a `/` behind it, unless the
/// name ends in `/` or `\` already.
pub uninterp spec fn archive_entries(archive: Archive) -> Seq<(Seq<char>, Option<Seq<u8>>)>;

/// The method and the level that each entry of an archive was added
/// with, in the entries' order. A folder has no contents, and is stored
/// whatever the method.
pub uninterp spec fn archive_written(archive: Archive) -> Seq<(zip::CompressionMethod, i64)>;

/// Whether every call on an archive has succeeded so far.
pub uninterp spec fn archive_intact(archive: Archive) -> bool;

/// The bytes of an archive once it is finished.
pub uninterp spec fn archive_bytes(archive: Archive) -> Seq<u8>;

/// Whether an archive that holds `entries`, added as `written` says,
/// takes one more file under the name `path`.
pub uninterp spec fn spec_takes_file(
    entries: Seq<(Seq<char>, Option<Seq<u8>>)>,
    written: Seq<(zip::CompressionMethod, i64)>,
    path: Seq<char>,
    method: zip::CompressionMethod,
    level: i64,
) -> bool;

/// Whether an archive that holds `entries`, added as `written` says,
/// takes `data` behind what its last entry holds.
pub uninterp spec fn spec_takes_data(
    entries: Seq<(Seq<char>, Option<Seq<u8>>)>,
    written: Seq<(zip::CompressionMethod, i64)>,
    data: Seq<u8>,
) -> bool;

/// Whether an archive that holds `entries`, added as `written` says,
/// takes one more folder under the name `path`.
pub uninterp spec fn spec_takes_directory(
    entries: Seq<(Seq<char>, Option<Seq<u8>>)>,
    written: Seq<(zip::CompressionMethod, i64)>,
    path: Seq<char>,
    method: zip::CompressionMethod,
    level: i64,
) -> bool;

/// Whether an archive that holds `entries`, added as `written` says,
/// can be finished.
pub uninterp spec fn spec_finishes(
    entries: Seq<(Seq<char>, Option<Seq<u8>>)>,
    written: Seq<(zip::CompressionMethod, i64)>,
) -> bool;

/// The level at which every file is compressed: the highest of deflate.
pub const COMPRESSION_LEVEL: i64 = 9;

/// `ZipWriter::new` on an empty buffer in memory: an archive without entries.
#[verifier::external_body]
fn archive_new() -> (archive: Archive)
    ensures
        archive_entries(archive) == Seq::<(Seq<char>, Option<Seq<u8>>)>::empty(),
        archive_written(archive) == Seq::<(zip::CompressionMethod, i64)>::empty(),
        archive_intact(archive),
{
    Archive { writer: zip::ZipWriter::new(std::io::Cursor::new(Vec::new())) }
}

/// `ZipWriter::start_file` with the method and the level: whether it
/// succeeds depends on what the archive holds and on the arguments
/// alone. Where it does, the archive has one more entry, a file under
/// the name `path` as it is given, empty so far.
#[verifier::external_body]
fn archive_start_file(
    archive: &mut Archive,
    path: &str,
    method: zip::CompressionMethod,
    level: i64,
) -> (r: Result<(), zip::result::ZipError>)
    requires
        archive_intact(*old(archive)),
    ensures
        r is Ok <==> spec_takes_file(
            archive_entries(*old(archive)),
            archive_written(*old(archive)),
            path@,
            method,
            level,
        ),
        r is Ok ==> archive_intact(*final(archive)),
        r is Ok ==> archive_entries(*final(archive)) == archive_entries(*old(archive)).push(
            (path@, Some(Seq::<u8>::empty())),
        ),
        r is Ok ==> archive_written(*final(archive)) == archive_written(*old(archive)).push(
            (method, level),
        ),
{
    let options = zip::write::SimpleFileOptions::default().compression_method(
        method,
    ).compression_level(Some(level));
    archive.writer.start_file(path, options)
}

/// `Write::write_all` of `ZipWriter`, on an archive whose last entry is
/// a file: whether it succeeds depends on what the archive holds and on
/// the data alone. Where it does, `data` stands behind what that file
/// held before.
#[verifier::external_body]
fn archive_write_all(archive: &mut Archive, data: &[u8]) -> (r: Result<(), std::io::Error>)
    requires
        archive_intact(*old(archive)),
        archive_entries(*old(archive)).len() > 0,
        archive_entries(*old(archive)).last().1 is Some,
    ensures
        r is Ok <==> spec_takes_data(
            archive_entries(*old(archive)),
            archive_written(*old(archive)),
            data@,
        ),
        r is Ok ==> archive_intact(*final(archive)),
        r is Ok ==> archive_entries(*final(archive)) == archive_entries(
            *old(archive),
        ).drop_last().push(
            (
                archive_entries(*old(archive)).last().0,
                Some(archive_entries(*old(archive)).last().1->Some_0 + data@),
            ),
        ),
        r is Ok ==> archive_written(*final(archive)) == archive_written(*old(archive)),
{
    std::io::Write::write_all(&mut archive.writer, data)
}

/// `ZipWriter::add_directory` with the method and the level: whether it
/// succeeds depends on what the archive holds and on the arguments
/// alone. Where it does, the archive has one more entry, a folder under
/// the name `path`.
#[verifier::external_body]
fn archive_add_directory(
    archive: &mut Archive,
    path: &str,
    method: zip::CompressionMethod,
    level: i64,
) -> (r: Result<(), zip::result::ZipError>)
    requires
        archive_intact(*old(archive)),
    ensures
        r is Ok <==> spec_takes_directory(
            archive_entries(*old(archive)),
            archive_written(*old(archive)),
            path@,
            method,
            level,
        ),
        r is Ok ==> archive_intact(*final(archive)),
        r is Ok ==> archive_entries(*final(archive)) == archive_entries(*old(archive)).push(
            (path@, None::<Seq<u8>>),
        ),
        r is Ok ==> archive_written(*final(archive)) == archive_written(*old(archive)).push(
            (method, level),
        ),
{
    let options = zip::write::SimpleFileOptions::default().compression_level(
        Some(level),
    ).compression_method(method);
    archive.writer.add_directory(path, options)
}

/// `ZipWriter::finish`: whether it succeeds depends on what the archive
/// holds alone; the bytes that it gives depend on nothing but the
/// archive.
#[verifier::external_body]
fn archive_finish(archive: Archive) -> (r: Result<Vec<u8>, zip::result::ZipError>)
    requires
        archive_intact(archive),
    ensures
        r is Ok <==> spec_finishes(archive_entries(archive), archive_written(archive)),
        r matches Ok(container) ==> container@ == archive_bytes(archive),
{
    Ok(archive.writer.finish()?.into_inner())
}

/// How the first `n` entries of a plan are added: each with the deflate
/// method at the highest level.
pub open spec fn spec_written(n: nat) -> Seq<(zip::CompressionMethod, i64)> {
    Seq::new(n, |i: int| (zip::CompressionMethod::Deflated, COMPRESSION_LEVEL))
}

/// Whether an archive that holds the entries `before` takes `entry`: a
/// folder as it is, a file with all of its contents.
pub open spec fn spec_takes_entry(
    before: Seq<(Seq<char>, Option<Seq<u8>>)>,
    entry: (Seq<char>, Option<Seq<u8>>),
) -> bool {
    match entry.1 {
        None => spec_takes_directory(
            before,
            spec_written(before.len()),
            entry.0,
            zip::CompressionMethod::Deflated,
            COMPRESSION_LEVEL,
        ),
        Some(data) => spec_takes_file(
            before,
            spec_written(before.len()),
            entry.0,
            zip::CompressionMethod::Deflated,
            COMPRESSION_LEVEL,
        ) && spec_takes_data(
            before.push((entry.0, Some(Seq::<u8>::empty()))),
            spec_written(before.len() + 1),
            data,
        ),
    }
}

/// Whether a new archive takes the first `n` entries of a plan, one
/// after the other.
pub open spec fn spec_takes_all(plan: Seq<(Seq<char>, Option<Seq<u8>>)>, n: nat) -> bool
    decreases n,
{
    n == 0 || (n <= plan.len() && spec_takes_all(plan, (n - 1) as nat) && spec_takes_entry(
        plan.take(n - 1),
        plan[n - 1],
    ))
}

/// A plan of which the archive refuses an entry is refused as a whole.
pub proof fn lemma_refused_stays_refused(plan: Seq<(Seq<char>, Option<Seq<u8>>)>, n: nat, m: nat)
    requires
        n <= m <= plan.len(),
        !spec_takes_all(plan, n),
    ensures
        !spec_takes_all(plan, m),
    decreases m,
{
    if n < m {
        lemma_refused_stays_refused(plan, n, (m - 1) as nat);
    }
}

/// Writes the entries of a plan to a new archive, in their order, each
/// with the deflate method at the highest level. The archive refuses
/// the plan where it refuses one of the entries.
pub fn write_entries(plan: &Vec<ArchiveEntry>) -> (r: Result<Archive, ArchiveError>)
    ensures
        r is Ok <==> spec_takes_all(entries_view(plan@), plan@.len()),
        r matches Ok(archive) ==> {
            &&& archive_intact(archive)
            &&& archive_entries(archive) == entries_view(plan@)
            &&& archive_written(archive) == spec_written(plan@.len())
        },
        r matches Err(e) ==> e is ZipError || e is Io,
{
    let mut archive = archive_new();
    let mut i: usize = 0;
    while i < plan.len()
        invariant
            i <= plan.len(),
            archive_intact(archive),
            archive_entries(archive) == entries_view(plan@).take(i as int),
            archive_written(archive) == spec_written(i as nat),
            spec_takes_all(entries_view(plan@), i as nat),
        decreases plan.len() - i,
    {
        let entry = &plan[i];
        match entry.data {
            None => {
                match archive_add_directory(
                    &mut archive,
                    entry.path.as_str(),
                    zip::CompressionMethod::Deflated,
                    COMPRESSION_LEVEL,
                ) {
                    Err(e) => {
                        proof {
                            lemma_refused_stays_refused(
                                entries_view(plan@),
                                (i + 1) as nat,
                                plan@.len(),
                            );
                        }
                        return Err(ArchiveError::ZipError(e));
                    },
                    Ok(()) => {},
                }
            },
            Some(data) => {
                match archive_start_file(
                    &mut archive,
                    entry.path.as_str(),
                    zip::CompressionMethod::Deflated,
                    COMPRESSION_LEVEL,
                ) {
                    Err(e) => {
                        proof {
                            lemma_refused_stays_refused(
                                entries_view(plan@),
                                (i + 1) as nat,
                                plan@.len(),
                            );
                        }
                        return Err(ArchiveError::ZipError(e));
                    },
                    Ok(()) => {},
                }
                assert(archive_written(archive) =~= spec_written((i + 1) as nat));
                match archive_write_all(&mut archive, data) {
                    Err(e) => {
                        proof {
                            lemma_refused_stays_refused(
                                entries_view(plan@),
                                (i + 1) as nat,
                                plan@.len(),
                            );
                        }
                        return Err(ArchiveError::Io(e));
                    },
                    Ok(()) => {},
                }
            },
        }
        i += 1;
    }
    Ok(archive)
}

/// Length of the footer behind the archive.
pub const FOOTER_LEN: usize = 16;

/// The tag that ends the footer: `RMSKIN` between two zero bytes.
pub open spec fn spec_footer_tag() -> Seq<u8> {
    seq![0u8, 0x52u8, 0x4du8, 0x53u8, 0x4bu8, 0x49u8, 0x4eu8, 0u8]
}

/// The `width` low bytes of `n`, the lowest first.
pub open spec fn spec_le_bytes(n: nat, width: nat) -> Seq<u8>
    decreases width,
{
    if width == 0 {
        Seq::empty()
    } else {
        seq![(n % 256) as u8] + spec_le_bytes(n / 256, (width - 1) as nat)
    }
}

/// The number that bytes stand for when the lowest comes first.
pub open spec fn spec_le_value(bytes: Seq<u8>) -> nat
    decreases bytes.len(),
{
    if bytes.len() == 0 {
        0
    } else {
        bytes[0] as nat + 256 * spec_le_value(bytes.drop_first())
    }
}

/// Whether `n` can be written in `width` bytes.
pub open spec fn fits_in_bytes(n: nat, width: nat) -> bool
    decreases width,
{
    if width == 0 {
        n == 0
    } else {
        fits_in_bytes(n / 256, (width - 1) as nat)
    }
}

/// The footer for an archive of `len` bytes: `len` in eight bytes, the
/// lowest first, then the tag.
pub open spec fn spec_footer(len: nat) -> Seq<u8> {
    spec_le_bytes(len, 8) + spec_footer_tag()
}

/// An rmskin file: the bytes of an archive and the footer for them.
pub open spec fn spec_sealed(container: Seq<u8>) -> Seq<u8> {
    container + spec_footer(container.len())
}

/// Whether `file` ends with the footer for the bytes before it.
pub open spec fn has_footer(file: Seq<u8>) -> bool {
    file.len() >= FOOTER_LEN && file.subrange(file.len() - FOOTER_LEN, file.len() as int)
        == spec_footer((file.len() - FOOTER_LEN) as nat)
}

/// The bytes of a number have the width that was asked for.
pub proof fn lemma_le_bytes_len(n: nat, width: nat)
    ensures
        spec_le_bytes(n, width).len() == width,
    decreases width,
{
    if width > 0 {
        lemma_le_bytes_len(n / 256, (width - 1) as nat);
    }
}

/// A number that fits in `width` bytes is read back from its bytes.
pub proof fn lemma_le_bytes_read_back(n: nat, width: nat)
    requires
        fits_in_bytes(n, width),
    ensures
        spec_le_value(spec_le_bytes(n, width)) == n,
    decreases width,
{
    if width > 0 {
        let rest = spec_le_bytes(n / 256, (width - 1) as nat);
        lemma_le_bytes_read_back(n / 256, (width - 1) as nat);
        assert(spec_le_bytes(n, width).drop_first() =~= rest);
    }
}

/// Every `u64` fits in eight bytes.
pub proof fn lemma_u64_fits(n: u64)
    ensures
        fits_in_bytes(n as nat, 8),
{
    reveal_with_fuel(fits_in_bytes, 10);
}

/// The last sixteen bytes of a sealed archive are the length of all
/// that precedes them, in eight bytes with the lowest first, and the tag.
pub proof fn lemma_footer_reads_back(container: Seq<u8>)
    requires
        container.len() <= u64::MAX,
    ensures
        ({
            let file = container + spec_footer(container.len());
            &&& file.len() == container.len() + FOOTER_LEN
            &&& has_footer(file)
            &&& spec_le_value(file.subrange(file.len() - 16, file.len() - 8)) == file.len() - 16
            &&& file.subrange(file.len() - 8, file.len() as int) == spec_footer_tag()
            &&& file.subrange(0, file.len() - 16) == container
        }),
{
    let len = container.len();
    let file = container + spec_footer(len);
    lemma_le_bytes_len(len, 8);
    lemma_u64_fits(len as u64);
    lemma_le_bytes_read_back(len, 8);
    assert(file.subrange(file.len() - 16, file.len() as int) =~= spec_footer(len));
    assert(file.subrange(file.len() - 16, file.len() - 8) =~= spec_le_bytes(len, 8));
}

/// Appends the footer to the bytes of a finished archive.
pub fn seal(container: Vec<u8>) -> (file: Vec<u8>)
    ensures
        file@ == spec_sealed(container@),
        has_footer(file@),
{
    let mut file = container;
    let len: u64 = file.len() as u64;
    let mut rest: u64 = len;
    let mut i: usize = 0;
    while i < 8
        invariant
            i <= 8,
            file@.len() == container@.len() + i,
            file@ + spec_le_bytes(rest as nat, (8 - i) as nat) == container@ + spec_le_bytes(
                len as nat,
                8,
            ),
        decreases 8 - i,
    {
        file.push((rest % 256) as u8);
        rest = rest / 256;
        i += 1;
    }
    file.push(0);
    file.push(0x52);
    file.push(0x4d);
    file.push(0x53);
    file.push(0x4b);
    file.push(0x49);
    file.push(0x4e);
    file.push(0);
    proof {
        lemma_footer_reads_back(container@);
    }
    file
}

/// Finishes an archive and appends the footer to its bytes.
pub fn finish_archive(archive: Archive) -> (r: Result<Vec<u8>, ArchiveError>)
    requires
        archive_intact(archive),
    ensures
        r is Ok <==> spec_finishes(archive_entries(archive), archive_written(archive)),
        r matches Ok(file) ==> file@ == spec_sealed(archive_bytes(archive)) && has_footer(file@),
        r matches Err(e) ==> e is ZipError,
{
    match archive_finish(archive) {
        Err(e) => Err(ArchiveError::ZipError(e)),
        Ok(container) => Ok(seal(container)),
    }
}

/// Whether the archive takes every entry of a plan, each with the
/// deflate method at the highest level, and can then be finished.
pub open spec fn spec_archives(plan: Seq<(Seq<char>, Option<Seq<u8>>)>) -> bool {
    spec_takes_all(plan, plan.len()) && spec_finishes(plan, spec_written(plan.len()))
}

/// Generate the bytes of the rmskin file for a project: an archive of
/// the entries that are planned for it, each added with the deflate
/// method at the highest level, and the footer.
///
/// `root` lists the project's root folder, `manifest` is the resolved
/// manifest and `header` the normalized header image, if the project has
/// one. All applicable contents of `root` are included. A project whose
/// plan fails has the plan's error; one whose entries the archive
/// refuses has the archive's.
///
/// Note, the rmskin file is basically a zip file with
/// custom data appended to the compressed binary data.
pub fn init_zip_for_package(root: &Vec<Node>, manifest: &[u8], header: Option<&[u8]>) -> (r: Result<
    Vec<u8>,
    ArchiveError,
>)
    ensures
        match spec_plan(
            root@,
            manifest@,
            match header {
                Some(image) => Some(image@),
                None => None,
            },
        ) {
            Err(e) => r == Err::<Vec<u8>, ArchiveError>(e),
            Ok(entries) => {
                &&& r is Ok <==> spec_archives(entries)
                &&& match r {
                    Ok(file) => has_footer(file@) && exists|archive: Archive|
                        {
                            &&& #[trigger] archive_entries(archive) == entries
                            &&& archive_written(archive) == spec_written(entries.len())
                            &&& file@ == spec_sealed(archive_bytes(archive))
                        },
                    Err(e) => e is ZipError || e is Io,
                }
            },
        },
{
    let plan = match plan_archive(root, manifest, header) {
        Err(e) => {
            return Err(e);
        },
        Ok(plan) => plan,
    };
    let archive = match write_entries(&plan) {
        Err(e) => {
            return Err(e);
        },
        Ok(archive) => archive,
    };
    finish_archive(archive)
}

} // verus!
