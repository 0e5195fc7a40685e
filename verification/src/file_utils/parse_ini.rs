//! Resolution of a project's manifest: the author, version and name of
//! the release, and the file that is loaded on install.
use crate::cli::CliError;
use crate::error::IniError;
use crate::text::{concat_str, join, spec_join, str_eq};
use vstd::prelude::*;

verus! {

/// `ini::Ini`: sections of keys and values.
#[verifier::external_type_specification]
#[verifier::external_body]
pub struct ExIni(ini::Ini);

/// Name of the section that describes the release.
pub const ROOT_SECTION_KEY: &'static str = "rmskin";

/// Key of the version of the release.
pub const VERSION_KEY: &'static str = "Version";

/// Key of the author of the release.
pub const AUTHOR_KEY: &'static str = "Author";

/// Key of the name of the release.
pub const NAME_KEY: &'static str = "Name";

/// Key of the kind of what is loaded on install.
pub const LOAD_TYPE_KEY: &'static str = "LoadType";

/// The kind of what is loaded on install where the manifest names none.
pub const DEFAULT_LOAD_TYPE: &'static str = "Skin";

/// Key of the file that is loaded on install.
pub const LOAD_KEY: &'static str = "Load";

/// The version that stands for "take the default".
pub const AUTO_VERSION: &'static str = "auto";

/// The names of the named sections of a manifest.
pub uninterp spec fn ini_sections(ini: ini::Ini) -> Set<Seq<char>>;

/// The values of a manifest's named sections: for a section and a key,
/// the first value that the section gives the key.
pub uninterp spec fn ini_values(ini: ini::Ini) -> Map<(Seq<char>, Seq<char>), Seq<char>>;

/// The sections and values that the text of a manifest holds, where the
/// text is an INI file in UTF-8.
pub uninterp spec fn spec_parsed(text: Seq<u8>) -> Option<
    (Set<Seq<char>>, Map<(Seq<char>, Seq<char>), Seq<char>>),
>;

/// `Ini::read_from` on bytes in memory: whether they can be read, and
/// what they hold, depends on the bytes alone.
#[verifier::external_body]
fn ini_read_from(text: &[u8]) -> (r: Result<ini::Ini, ini::Error>)
    ensures
        r is Ok <==> spec_parsed(text@) is Some,
        r matches Ok(ini) ==> spec_parsed(text@) == Some((ini_sections(ini), ini_values(ini))),
{
    let mut reader = text;
    ini::Ini::read_from(&mut reader)
}

/// `Ini::section`: whether the manifest has a section of this name.
#[verifier::external_body]
fn ini_has_section(ini: &ini::Ini, section: &str) -> (r: bool)
    ensures
        r == ini_sections(*ini).contains(section@),
{
    ini.section(Some(section)).is_some()
}

/// `Ini::get_from`: the first value of a key in a named section.
#[verifier::external_body]
fn ini_get_from(ini: &ini::Ini, section: &str, key: &str) -> (r: Option<String>)
    ensures
        r is Some <==> ini_values(*ini).contains_key((section@, key@)),
        r matches Some(value) ==> value@ == ini_values(*ini)[(section@, key@)],
{
    ini.get_from(Some(section), key).map(str::to_owned)
}

/// `Ini::set_to`: the key has the one value in the section, which is
/// there afterwards; nothing else changes.
#[verifier::external_body]
fn ini_set_to(ini: &mut ini::Ini, section: &str, key: &str, value: &str)
    ensures
        ini_sections(*final(ini)) == ini_sections(*old(ini)).insert(section@),
        ini_values(*final(ini)) == ini_values(*old(ini)).insert((section@, key@), value@),
{
    ini.set_to(Some(section), key.to_owned(), value.to_owned())
}

/// The text of a manifest with all its sections, each line ended by a
/// line feed, or by a carriage return and a line feed where `crlf` is
/// set.
pub uninterp spec fn ini_text(ini: ini::Ini, crlf: bool) -> Seq<u8>;

/// `Ini::write_to` into memory, which cannot fail: the manifest as text,
/// with the line ends of the host, which are one of the two.
#[verifier::external_body]
fn ini_write_to(ini: &ini::Ini) -> (r: Result<Vec<u8>, std::io::Error>)
    ensures
        r is Ok,
        r matches Ok(text) ==> text@ == ini_text(*ini, false) || text@ == ini_text(*ini, true),
{
    let mut text: Vec<u8> = Vec::new();
    ini.write_to(&mut text)?;
    Ok(text)
}

/// What `str::escape_default` makes of a string.
pub uninterp spec fn spec_escape_default(text: Seq<char>) -> Seq<char>;

/// Whether a text is left as it is when it is escaped: it holds
/// printable characters of ASCII only, and among them no backslash and
/// no quote.
pub open spec fn spec_unescaped(text: Seq<char>) -> bool {
    forall|i: int|
        0 <= i < text.len() ==> 0x20 <= (#[trigger] text[i]) as u32 <= 0x7e && text[i] != '\\'
            && text[i] != '\'' && text[i] != '"'
}

/// `str::escape_default`, collected into a string. Printable characters
/// of ASCII other than the backslash and the two quotes are not escaped.
#[verifier::external_body]
fn escape_default(text: &str) -> (r: String)
    ensures
        r@ == spec_escape_default(text@),
        spec_unescaped(text@) ==> r@ == text@,
{
    text.escape_default().to_string()
}

/// `String::push`: the character stands at the end of the string.
pub assume_specification[ String::push ](text: &mut String, ch: char)
    ensures
        final(text)@ == old(text)@.push(ch),
;

/// `text` with `/` in place of every backslash.
pub open spec fn spec_slashes(text: Seq<char>) -> Seq<char> {
    text.map_values(|c: char| if c == '\\' { '/' } else { c })
}

/// `text` with `/` in place of every backslash.
pub fn slashes(text: &str) -> (r: String)
    ensures
        r@ == spec_slashes(text@),
{
    let mut out = String::new();
    for c in it: text.chars()
        invariant
            it.seq() == text@,
            out@ == spec_slashes(text@.take(it.index() as int)),
    {
        out.push(if c == '\\' { '/' } else { c });
    }
    out
}

/// The value of a key in the section that describes the release.
pub open spec fn root_value(values: Map<(Seq<char>, Seq<char>), Seq<char>>, key: Seq<char>)
    -> Option<Seq<char>> {
    if values.contains_key((ROOT_SECTION_KEY@, key)) {
        Some(values[(ROOT_SECTION_KEY@, key)])
    } else {
        None
    }
}

/// Whether the author comes from the default: the manifest names none.
pub open spec fn needs_author(values: Map<(Seq<char>, Seq<char>), Seq<char>>) -> bool {
    root_value(values, AUTHOR_KEY@) is None
}

/// Whether the version comes from the default: the manifest names none,
/// or names `auto`.
pub open spec fn needs_version(values: Map<(Seq<char>, Seq<char>), Seq<char>>) -> bool {
    root_value(values, VERSION_KEY@) is None || root_value(values, VERSION_KEY@) == Some(
        AUTO_VERSION@,
    )
}

/// Whether the name comes from the default: the manifest names none.
pub open spec fn needs_title(values: Map<(Seq<char>, Seq<char>), Seq<char>>) -> bool {
    root_value(values, NAME_KEY@) is None
}

/// The author of the release: the manifest's, else the default.
pub open spec fn spec_author(values: Map<(Seq<char>, Seq<char>), Seq<char>>, default: Seq<char>)
    -> Seq<char> {
    if needs_author(values) {
        default
    } else {
        root_value(values, AUTHOR_KEY@)->Some_0
    }
}

/// The version of the release: the manifest's unless it is `auto`, else
/// the default.
pub open spec fn spec_version(values: Map<(Seq<char>, Seq<char>), Seq<char>>, default: Seq<char>)
    -> Seq<char> {
    if needs_version(values) {
        default
    } else {
        root_value(values, VERSION_KEY@)->Some_0
    }
}

/// The name of the release: the manifest's, else the default.
pub open spec fn spec_name(values: Map<(Seq<char>, Seq<char>), Seq<char>>, default: Seq<char>)
    -> Seq<char> {
    if needs_title(values) {
        default
    } else {
        root_value(values, NAME_KEY@)->Some_0
    }
}

/// The values of a manifest after author, version and name were resolved
/// and written back.
pub open spec fn spec_resolved(
    values: Map<(Seq<char>, Seq<char>), Seq<char>>,
    author: Seq<char>,
    version: Seq<char>,
    title: Seq<char>,
) -> Map<(Seq<char>, Seq<char>), Seq<char>> {
    values.insert((ROOT_SECTION_KEY@, AUTHOR_KEY@), spec_author(values, author)).insert(
        (ROOT_SECTION_KEY@, VERSION_KEY@),
        spec_version(values, version),
    ).insert((ROOT_SECTION_KEY@, NAME_KEY@), spec_name(values, title))
}

/// Whether escaping leaves the target of a manifest as it is, where
/// the target is such a text.
pub open spec fn spec_plain_target_kept(values: Map<(Seq<char>, Seq<char>), Seq<char>>) -> bool {
    match root_value(values, LOAD_KEY@) {
        Some(target) => spec_unescaped(target) ==> spec_escape_default(target) == target,
        None => true,
    }
}

/// The path, below the project's root, of the file that is loaded on
/// install: the folder of its kind, then the target with every backslash
/// of its escaped form turned into `/`. `None` where the manifest names
/// no target.
pub open spec fn spec_on_load(values: Map<(Seq<char>, Seq<char>), Seq<char>>) -> Option<
    Seq<char>,
> {
    match root_value(values, LOAD_KEY@) {
        None => None,
        Some(target) => Some(
            spec_join(
                match root_value(values, LOAD_TYPE_KEY@) {
                    Some(kind) => kind,
                    None => DEFAULT_LOAD_TYPE@,
                } + seq!['s'],
                spec_slashes(spec_escape_default(target)),
            ),
        ),
    }
}

/// A project's manifest, with the section that describes the release.
#[derive(Debug)]
pub struct Manifest {
    ini: ini::Ini,
}

/// The values that stand in for what a manifest leaves open.
#[derive(Debug, Clone)]
pub struct Defaults {
    /// The author, where the manifest names none.
    pub author: Option<String>,
    /// The version, where the manifest names none or `auto`.
    pub version: Option<String>,
    /// The name, where the manifest names none.
    pub title: Option<String>,
}

/// Which of the defaults a manifest asks for.
#[derive(Debug, PartialEq, Eq, Clone, Copy)]
pub struct Missing {
    /// The manifest names no author.
    pub author: bool,
    /// The manifest names no version, or `auto`.
    pub version: bool,
    /// The manifest names no name.
    pub title: bool,
}

/// A release as its manifest describes it.
#[derive(Debug, Clone)]
pub struct Release {
    /// The name of the release.
    pub name: String,
    /// The version of the release.
    pub version: String,
    /// The author of the release.
    pub author: String,
    /// The path, below the project's root, of the file that is loaded on
    /// install, where the manifest names one.
    pub on_load: Option<String>,
}

/// The bytes that may stand before the text of a file in UTF-8.
pub open spec fn spec_bom() -> Seq<u8> {
    seq![0xEFu8, 0xBBu8, 0xBFu8]
}

/// The contents of a file without the byte order mark, if it starts with one.
pub open spec fn spec_strip_bom(text: Seq<u8>) -> Seq<u8> {
    if text.len() >= 3 && text.subrange(0, 3) == spec_bom() {
        text.subrange(3, text.len() as int)
    } else {
        text
    }
}

/// The contents of a file without the byte order mark, if it starts with one.
pub fn strip_bom(text: &[u8]) -> (r: &[u8])
    ensures
        r@ == spec_strip_bom(text@),
{
    if text.len() >= 3 && text[0] == 0xEF && text[1] == 0xBB && text[2] == 0xBF {
        assert(text@.subrange(0, 3) =~= spec_bom());
        vstd::slice::slice_subrange(text, 3, text.len())
    } else {
        text
    }
}

impl Manifest {
    /// The names of the manifest's named sections.
    pub closed spec fn sections(&self) -> Set<Seq<char>> {
        ini_sections(self.ini)
    }

    /// For a named section and a key, the first value that the section
    /// gives the key.
    pub closed spec fn values(&self) -> Map<(Seq<char>, Seq<char>), Seq<char>> {
        ini_values(self.ini)
    }

    /// The text of the manifest with all its sections, each line ended
    /// by a line feed, or by a carriage return and a line feed where
    /// `crlf` is set.
    pub closed spec fn spec_text(&self, crlf: bool) -> Seq<u8> {
        ini_text(self.ini, crlf)
    }

    /// Reads a manifest from the contents of its file.
    ///
    /// A byte order mark at the start is passed over. The text must be an
    /// INI file and have the section that describes the release.
    pub fn parse(text: &[u8]) -> (r: Result<Manifest, IniError>)
        ensures
            match spec_parsed(spec_strip_bom(text@)) {
                None => r matches Err(IniError::ParseError(_)),
                Some(parsed) => if parsed.0.contains(ROOT_SECTION_KEY@) {
                    r matches Ok(manifest) && manifest.sections() == parsed.0 && manifest.values()
                        == parsed.1
                } else {
                    r matches Err(IniError::MissingSection(name)) && name@ == ROOT_SECTION_KEY@
                },
            },
    {
        match ini_read_from(strip_bom(text)) {
            Err(e) => Err(IniError::ParseError(e)),
            Ok(ini) => {
                if ini_has_section(&ini, ROOT_SECTION_KEY) {
                    Ok(Manifest { ini })
                } else {
                    Err(IniError::MissingSection(String::from_str(ROOT_SECTION_KEY)))
                }
            },
        }
    }

    /// The value of a key in the section that describes the release.
    pub fn get(&self, key: &str) -> (r: Option<String>)
        ensures
            r is Some <==> root_value(self.values(), key@) is Some,
            r matches Some(value) ==> Some(value@) == root_value(self.values(), key@),
    {
        ini_get_from(&self.ini, ROOT_SECTION_KEY, key)
    }

    /// Which of the defaults this manifest asks for.
    pub fn missing(&self) -> (r: Missing)
        ensures
            r.author == needs_author(self.values()),
            r.version == needs_version(self.values()),
            r.title == needs_title(self.values()),
    {
        let author = self.get(AUTHOR_KEY).is_none();
        let version = match self.get(VERSION_KEY) {
            None => true,
            Some(ver) => str_eq(ver.as_str(), AUTO_VERSION),
        };
        let title = self.get(NAME_KEY).is_none();
        Missing { author, version, title }
    }

    /// The path, below the project's root, of the file that is loaded on
    /// install, where the manifest names one.
    pub fn on_load(&self) -> (r: Option<String>)
        ensures
            r is Some <==> spec_on_load(self.values()) is Some,
            r matches Some(path) ==> Some(path@) == spec_on_load(self.values()),
            spec_plain_target_kept(self.values()),
    {
        match self.get(LOAD_KEY) {
            None => None,
            Some(target) => {
                let load_t = match self.get(LOAD_TYPE_KEY) {
                    Some(kind) => kind,
                    None => String::from_str(DEFAULT_LOAD_TYPE),
                };
                proof {
                    reveal_strlit("s");
                }
                let folder = concat_str(load_t.as_str(), "s");
                let escaped = escape_default(target.as_str());
                let sanitized = slashes(escaped.as_str());
                Some(join(folder.as_str(), sanitized.as_str()))
            },
        }
    }

    /// Resolves author, version and name of the release and writes them
    /// back into the manifest.
    ///
    /// Each is the manifest's own value where it has one (for the version:
    /// one other than `auto`), else the default.
    pub fn resolve(&mut self, defaults: &Defaults) -> (r: Release)
        requires
            needs_author(old(self).values()) ==> defaults.author is Some,
            needs_version(old(self).values()) ==> defaults.version is Some,
            needs_title(old(self).values()) ==> defaults.title is Some,
        ensures
            r.author@ == spec_author(old(self).values(), defaults.author->Some_0@),
            r.version@ == spec_version(old(self).values(), defaults.version->Some_0@),
            r.name@ == spec_name(old(self).values(), defaults.title->Some_0@),
            final(self).values() == spec_resolved(
                old(self).values(),
                defaults.author->Some_0@,
                defaults.version->Some_0@,
                defaults.title->Some_0@,
            ),
            final(self).sections() == old(self).sections().insert(ROOT_SECTION_KEY@),
            r.on_load is Some <==> spec_on_load(old(self).values()) is Some,
            r.on_load matches Some(path) ==> Some(path@) == spec_on_load(old(self).values()),
            spec_plain_target_kept(old(self).values()),
    {
        let needs = self.missing();
        let author = match self.get(AUTHOR_KEY) {
            Some(auth) => auth,
            None => match &defaults.author {
                Some(auth) => auth.clone(),
                None => String::new(),
            },
        };
        let version = if needs.version {
            match &defaults.version {
                Some(ver) => ver.clone(),
                None => String::new(),
            }
        } else {
            match self.get(VERSION_KEY) {
                Some(ver) => ver,
                None => String::new(),
            }
        };
        let name = match self.get(NAME_KEY) {
            Some(name) => name,
            None => match &defaults.title {
                Some(title) => title.clone(),
                None => String::new(),
            },
        };
        let on_load = self.on_load();
        ini_set_to(&mut self.ini, ROOT_SECTION_KEY, AUTHOR_KEY, author.as_str());
        ini_set_to(&mut self.ini, ROOT_SECTION_KEY, VERSION_KEY, version.as_str());
        ini_set_to(&mut self.ini, ROOT_SECTION_KEY, NAME_KEY, name.as_str());
        Release { name, version, author, on_load }
    }
}

/// The keys of author, version and name differ from one another.
pub proof fn lemma_keys_differ()
    ensures
        AUTHOR_KEY@ != VERSION_KEY@,
        AUTHOR_KEY@ != NAME_KEY@,
        VERSION_KEY@ != NAME_KEY@,
{
    reveal_strlit("Author");
    reveal_strlit("Version");
    reveal_strlit("Name");
    assert(VERSION_KEY@.len() == 7);
    assert(NAME_KEY@.len() == 4);
}

/// A manifest that names its author, a version other than `auto` and its
/// name is resolved to these three, whatever the defaults are, and is
/// left as it was.
pub proof fn lemma_resolve_populated(
    values: Map<(Seq<char>, Seq<char>), Seq<char>>,
    author: Seq<char>,
    version: Seq<char>,
    title: Seq<char>,
)
    requires
        !needs_author(values),
        !needs_version(values),
        !needs_title(values),
    ensures
        Some(spec_author(values, author)) == root_value(values, AUTHOR_KEY@),
        Some(spec_version(values, version)) == root_value(values, VERSION_KEY@),
        Some(spec_name(values, title)) == root_value(values, NAME_KEY@),
        spec_resolved(values, author, version, title) == values,
{
}

/// Resolving a resolved manifest once more yields the same author,
/// version and name, whatever the defaults of the second time, and
/// changes nothing; the one exception is a default version of `auto`,
/// which the manifest then holds and which asks for the default again.
pub proof fn lemma_resolve_idempotent(
    values: Map<(Seq<char>, Seq<char>), Seq<char>>,
    author: Seq<char>,
    version: Seq<char>,
    title: Seq<char>,
    author_again: Seq<char>,
    version_again: Seq<char>,
    title_again: Seq<char>,
)
    requires
        spec_version(values, version) != AUTO_VERSION@,
    ensures
        ({
            let once = spec_resolved(values, author, version, title);
            &&& !needs_author(once) && !needs_version(once) && !needs_title(once)
            &&& spec_author(once, author_again) == spec_author(values, author)
            &&& spec_version(once, version_again) == spec_version(values, version)
            &&& spec_name(once, title_again) == spec_name(values, title)
            &&& spec_resolved(once, author_again, version_again, title_again) == once
        }),
{
    lemma_keys_differ();
}

impl Manifest {
    /// The text of the manifest, to be written where the archive is put
    /// together, with the line ends of the host.
    ///
    /// `on_load_error` is the error of looking up the file that is loaded
    /// on install, where the manifest names one and it was not found: the
    /// manifest is then not written.
    pub fn write(&self, on_load_error: Option<std::io::Error>) -> (r: Result<Vec<u8>, IniError>)
        ensures
            on_load_error matches Some(e) ==> r == Err::<Vec<u8>, IniError>(IniError::Io(e)),
            on_load_error is None ==> r is Ok,
            on_load_error is None ==> r->Ok_0@ == self.spec_text(false) || r->Ok_0@
                == self.spec_text(true),
    {
        match on_load_error {
            Some(e) => Err(IniError::Io(e)),
            None => match ini_write_to(&self.ini) {
                Ok(text) => Ok(text),
                Err(e) => Err(IniError::Io(e)),
            },
        }
    }
}

/// Whether a source of defaults may give a string of these characters.
pub open spec fn gives<F: FnOnce() -> Result<String, CliError>>(source: F, value: Seq<char>)
    -> bool {
    exists|text: String| #[trigger]
        source.ensures((), Ok::<String, CliError>(text)) && text@ == value
}

/// Whether a source of defaults may give a string at all.
pub open spec fn may_give<F: FnOnce() -> Result<String, CliError>>(source: F) -> bool {
    exists|text: String| #[trigger] source.ensures((), Ok::<String, CliError>(text))
}

/// Parses a RMSKIN.ini file and resolves author, version and name of
/// the release.
///
/// `text` is the contents of the file. `author`, `version` and `title`
/// give the defaults; each is called only where the manifest asks for
/// it, in this order, and the first that fails ends the resolution.
pub fn parse_rmskin_ini<A, V, T>(text: &[u8], author: A, version: V, title: T) -> (r: Result<
    (Manifest, Release),
    IniError,
>) where
    A: FnOnce() -> Result<String, CliError>,
    V: FnOnce() -> Result<String, CliError>,
    T: FnOnce() -> Result<String, CliError>,

    requires
        author.requires(()),
        version.requires(()),
        title.requires(()),
    ensures
        match spec_parsed(spec_strip_bom(text@)) {
            None => r matches Err(IniError::ParseError(_)),
            Some(parsed) => if !parsed.0.contains(ROOT_SECTION_KEY@) {
                r matches Err(IniError::MissingSection(name)) && name@ == ROOT_SECTION_KEY@
            } else {
                match r {
                    Ok((manifest, release)) => {
                        &&& needs_author(parsed.1) ==> gives(author, release.author@)
                        &&& needs_version(parsed.1) ==> gives(version, release.version@)
                        &&& needs_title(parsed.1) ==> gives(title, release.name@)
                        &&& release.author@ == spec_author(parsed.1, release.author@)
                        &&& release.version@ == spec_version(parsed.1, release.version@)
                        &&& release.name@ == spec_name(parsed.1, release.name@)
                        &&& manifest.values() == spec_resolved(
                            parsed.1,
                            release.author@,
                            release.version@,
                            release.name@,
                        )
                        &&& manifest.sections() == parsed.0
                        &&& release.on_load is Some <==> spec_on_load(parsed.1) is Some
                        &&& release.on_load matches Some(path) ==> Some(path@) == spec_on_load(
                            parsed.1,
                        )
                        &&& spec_plain_target_kept(parsed.1)
                    },
                    Err(IniError::CliError(e)) => {
                        ||| needs_author(parsed.1) && author.ensures((), Err::<String, CliError>(e))
                        ||| {
                            &&& needs_version(parsed.1)
                            &&& version.ensures((), Err::<String, CliError>(e))
                            &&& needs_author(parsed.1) ==> may_give(author)
                        }
                        ||| {
                            &&& needs_title(parsed.1)
                            &&& title.ensures((), Err::<String, CliError>(e))
                            &&& needs_author(parsed.1) ==> may_give(author)
                            &&& needs_version(parsed.1) ==> may_give(version)
                        }
                    },
                    Err(_) => false,
                }
            },
        },
{
    let mut manifest = match Manifest::parse(text) {
        Err(e) => {
            return Err(e);
        },
        Ok(manifest) => manifest,
    };
    let needs = manifest.missing();
    let mut defaults = Defaults { author: None, version: None, title: None };
    if needs.author {
        match author() {
            Err(e) => {
                return Err(IniError::CliError(e));
            },
            Ok(value) => {
                defaults.author = Some(value);
            },
        }
    }
    if needs.version {
        match version() {
            Err(e) => {
                return Err(IniError::CliError(e));
            },
            Ok(value) => {
                defaults.version = Some(value);
            },
        }
    }
    if needs.title {
        match title() {
            Err(e) => {
                return Err(IniError::CliError(e));
            },
            Ok(value) => {
                defaults.title = Some(value);
            },
        }
    }
    let release = manifest.resolve(&defaults);
    Ok((manifest, release))
}

/// A target of printable characters of ASCII without backslash and
/// quote is looked up as it stands, in the folder of its kind.
pub proof fn lemma_on_load_plain(values: Map<(Seq<char>, Seq<char>), Seq<char>>)
    requires
        spec_plain_target_kept(values),
        root_value(values, LOAD_KEY@) matches Some(target) && spec_unescaped(target),
    ensures
        spec_on_load(values) == Some(
            spec_join(
                match root_value(values, LOAD_TYPE_KEY@) {
                    Some(kind) => kind,
                    None => DEFAULT_LOAD_TYPE@,
                } + seq!['s'],
                root_value(values, LOAD_KEY@)->Some_0,
            ),
        ),
{
}

} // verus!
