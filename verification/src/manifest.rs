//! The manifest model: the plugins a project asks for, and the rules a
//! manifest must meet before anything is fetched.

use crate::text::{after_last, last_position, same_text};
use relative_path::RelativePath;
use vstd::prelude::*;
use vstd::string::*;

verus! {

/// Name of the manifest file, looked up in the working directory.
pub const FILE_NAME: &'static str = "drillbit.toml";

/// Where a plugin comes from.
#[derive(Debug, PartialEq, Eq)]
pub enum Plugin {
    /// A file, by its path relative to the manifest's directory.
    Local(String),
    /// An asset of the authenticated asset API, by its numeric id.
    Cloud(u64),
    /// A release asset, by its URL.
    GitHub(String),
}

/// Mathematical model of a [`Plugin`].
pub enum PluginView {
    Local(Seq<char>),
    Cloud(u64),
    GitHub(Seq<char>),
}

impl View for Plugin {
    type V = PluginView;

    open spec fn view(&self) -> PluginView {
        match self {
            Plugin::Local(path) => PluginView::Local(path@),
            Plugin::Cloud(id) => PluginView::Cloud(*id),
            Plugin::GitHub(url) => PluginView::GitHub(url@),
        }
    }
}

impl Plugin {
    /// An independent copy of this plugin source.
    pub fn duplicate(&self) -> (copy: Plugin)
        ensures
            copy@ == self@,
    {
        match self {
            Plugin::Local(path) => Plugin::Local(path.clone()),
            Plugin::Cloud(id) => Plugin::Cloud(*id),
            Plugin::GitHub(url) => Plugin::GitHub(url.clone()),
        }
    }
}

/// One manifest entry: the name the author chose, and the plugin's source.
#[derive(Debug, PartialEq, Eq)]
pub struct Entry {
    pub key: String,
    pub plugin: Plugin,
}

/// Mathematical model of an [`Entry`].
pub struct EntryView {
    pub key: Seq<char>,
    pub plugin: PluginView,
}

impl View for Entry {
    type V = EntryView;

    open spec fn view(&self) -> EntryView {
        EntryView { key: self.key@, plugin: self.plugin@ }
    }
}

/// Why a manifest is refused.
#[derive(Debug, PartialEq, Eq)]
pub enum ConfigError {
    /// A local plugin's path has an extension outside the allowed set.
    InvalidExtension { key: String, extension: String },
    /// A local plugin's path has no extension.
    MissingExtension { key: String },
    /// Two entries share a key.
    DuplicateKey { key: String },
}

/// Mathematical model of a [`ConfigError`].
pub enum ConfigFault {
    InvalidExtension { key: Seq<char>, extension: Seq<char> },
    MissingExtension { key: Seq<char> },
    DuplicateKey { key: Seq<char> },
}

impl View for ConfigError {
    type V = ConfigFault;

    open spec fn view(&self) -> ConfigFault {
        match self {
            ConfigError::InvalidExtension { key, extension } => ConfigFault::InvalidExtension {
                key: key@,
                extension: extension@,
            },
            ConfigError::MissingExtension { key } => ConfigFault::MissingExtension { key: key@ },
            ConfigError::DuplicateKey { key } => ConfigFault::DuplicateKey { key: key@ },
        }
    }
}

/// The characters of an optional string.
pub open spec fn text_of(s: Option<String>) -> Option<Seq<char>> {
    match s {
        Some(t) => Some(t@),
        None => None,
    }
}

/// The file name of a relative path: its last component, where the
/// components are the pieces between `/` that are neither empty nor `.`.
/// A path without components has no file name, nor has one whose last
/// component is `..`.
pub open spec fn relative_file_name(path: Seq<char>) -> Option<Seq<char>>
    decreases path.len(),
{
    if path.len() == 0 {
        None
    } else if path.last() == '/' {
        relative_file_name(path.drop_last())
    } else {
        let component = after_last(path, '/');
        if component == seq!['.'] {
            relative_file_name(path.drop_last())
        } else if component == seq!['.', '.'] {
            None
        } else {
            Some(component)
        }
    }
}

/// The extension of a file name: what follows its last `.`. A name without
/// `.`, or with its only `.` in front, has none.
pub open spec fn name_extension(name: Seq<char>) -> Option<Seq<char>> {
    if last_position(name, '.') <= 0 || name == seq!['.', '.'] {
        None
    } else {
        Some(after_last(name, '.'))
    }
}

/// The extension of a relative path: that of its file name.
pub open spec fn relative_extension(path: Seq<char>) -> Option<Seq<char>> {
    match relative_file_name(path) {
        Some(name) => name_extension(name),
        None => None,
    }
}

/// Calls `RelativePath::extension` on `path`. Taken from the outside crate:
/// that the extension is cut from the file name behind its last `.`, and is
/// absent where there is no file name, where the name holds no `.`, and
/// where its only `.` stands in front.
#[verifier::external_body]
pub(crate) fn path_extension(path: &str) -> (extension: Option<String>)
    ensures
        text_of(extension) == relative_extension(path@),
{
    match RelativePath::new(path).extension() {
        Some(extension) => Some(extension.to_owned()),
        None => None,
    }
}

/// Calls `RelativePath::file_name` on `path`. Taken from the outside crate:
/// that the path is cut at `/`, that empty pieces and `.` are passed over
/// from the back, and that the first other piece is the file name unless it
/// is `..`.
#[verifier::external_body]
pub(crate) fn path_file_name(path: &str) -> (name: Option<String>)
    ensures
        text_of(name) == relative_file_name(path@),
{
    match RelativePath::new(path).file_name() {
        Some(name) => Some(name.to_owned()),
        None => None,
    }
}

/// The extensions a local plugin may have.
pub open spec fn is_allowed_extension(extension: Seq<char>) -> bool {
    ||| extension == "rbxm"@
    ||| extension == "rbxmx"@
    ||| extension == "lua"@
    ||| extension == "luau"@
}

/// The allowed extensions as error messages list them.
pub open spec fn allowed_list() -> Seq<char> {
    "rbxm, rbxmx, lua, luau"@
}

/// What is wrong with a local plugin whose path has the extension
/// `extension`, if anything.
pub open spec fn extension_fault(key: Seq<char>, extension: Option<Seq<char>>) -> Option<
    ConfigFault,
> {
    match extension {
        None => Some(ConfigFault::MissingExtension { key }),
        Some(e) => if is_allowed_extension(e) {
            None
        } else {
            Some(ConfigFault::InvalidExtension { key, extension: e })
        },
    }
}

/// Whether entry `i` has the key of an earlier entry.
pub open spec fn repeats_earlier(entries: Seq<EntryView>, i: int) -> bool {
    exists|j: int| 0 <= j < i && #[trigger] entries[j].key == entries[i].key
}

/// What is wrong with entry `i`, if anything: a repeated key first, then
/// the extension of a local path.
pub open spec fn fault_at(entries: Seq<EntryView>, i: int) -> Option<ConfigFault> {
    if repeats_earlier(entries, i) {
        Some(ConfigFault::DuplicateKey { key: entries[i].key })
    } else {
        match entries[i].plugin {
            PluginView::Local(path) => extension_fault(entries[i].key, relative_extension(path)),
            _ => None,
        }
    }
}

/// A manifest is valid when no entry has a fault.
pub open spec fn valid_entries(entries: Seq<EntryView>) -> bool {
    forall|i: int| 0 <= i < entries.len() ==> (#[trigger] fault_at(entries, i)) is None
}

/// Whether a plugin can be named: a local plugin can if its path has a file
/// name, any other can.
pub open spec fn has_name(plugin: PluginView) -> bool {
    plugin matches PluginView::Local(path) ==> relative_file_name(path) is Some
}

/// Whether every plugin can be named.
pub open spec fn named_entries(entries: Seq<EntryView>) -> bool {
    forall|i: int| 0 <= i < entries.len() ==> has_name((#[trigger] entries[i]).plugin)
}

/// The models of a list of entries.
pub open spec fn entry_views(entries: Seq<Entry>) -> Seq<EntryView> {
    entries.map_values(|e: Entry| e@)
}

/// Whether `extension` is one a local plugin may have.
pub fn allowed_extension(extension: &str) -> (allowed: bool)
    ensures
        allowed == is_allowed_extension(extension@),
{
    same_text(extension, "rbxm") || same_text(extension, "rbxmx") || same_text(extension, "lua")
        || same_text(extension, "luau")
}

/// Judges a local plugin by the extension of its path.
pub fn check_extension(key: &str, extension: Option<String>) -> (verdict: Result<(), ConfigError>)
    ensures
        match verdict {
            Ok(_) => extension_fault(key@, text_of(extension)) is None,
            Err(e) => extension_fault(key@, text_of(extension)) == Some(e@),
        },
{
    match extension {
        None => Err(ConfigError::MissingExtension { key: String::from_str(key) }),
        Some(e) => {
            if allowed_extension(e.as_str()) {
                Ok(())
            } else {
                Err(ConfigError::InvalidExtension { key: String::from_str(key), extension: e })
            }
        },
    }
}

impl ConfigError {
    /// The message for this error, as a spec.
    pub open spec fn message_text(fault: ConfigFault) -> Seq<char> {
        match fault {
            ConfigFault::InvalidExtension { key, extension } => "Plugin '"@ + key
                + "' has invalid file extension '"@ + extension + "'. Allowed extensions: "@
                + allowed_list(),
            ConfigFault::MissingExtension { key } => "Plugin '"@ + key
                + "' must have a file extension. Allowed extensions: "@ + allowed_list(),
            ConfigFault::DuplicateKey { key } => "Plugin '"@ + key + "' is listed more than once"@,
        }
    }

    /// A message that names the offending plugin and, for an extension
    /// error, the allowed set.
    pub fn message(&self) -> (text: String)
        ensures
            text@ == Self::message_text(self@),
    {
        let mut text = String::from_str("Plugin '");
        match self {
            ConfigError::InvalidExtension { key, extension } => {
                text.append(key.as_str());
                text.append("' has invalid file extension '");
                text.append(extension.as_str());
                text.append("'. Allowed extensions: ");
                text.append("rbxm, rbxmx, lua, luau");
            },
            ConfigError::MissingExtension { key } => {
                text.append(key.as_str());
                text.append("' must have a file extension. Allowed extensions: ");
                text.append("rbxm, rbxmx, lua, luau");
            },
            ConfigError::DuplicateKey { key } => {
                text.append(key.as_str());
                text.append("' is listed more than once");
            },
        }
        text
    }
}

/// The plugins of one project, validated.
#[derive(Debug)]
pub struct Manifest {
    plugins: Vec<Entry>,
}

impl View for Manifest {
    type V = Seq<EntryView>;

    closed spec fn view(&self) -> Seq<EntryView> {
        entry_views(self.plugins@)
    }
}

/// Whether an earlier entry of `plugins` has the key of entry `i`.
fn key_seen_before(plugins: &Vec<Entry>, i: usize) -> (seen: bool)
    requires
        i < plugins.len(),
    ensures
        seen == repeats_earlier(entry_views(plugins@), i as int),
{
    let ghost entries = entry_views(plugins@);
    let mut j: usize = 0;
    while j < i
        invariant
            j <= i,
            i < plugins.len(),
            entries == entry_views(plugins@),
            forall|k: int| 0 <= k < j ==> (#[trigger] entries[k]).key != entries[i as int].key,
        decreases i - j,
    {
        if same_text(plugins[j].key.as_str(), plugins[i].key.as_str()) {
            assert(entries[j as int].key == entries[i as int].key);
            return true;
        }
        j += 1;
    }
    false
}

impl Manifest {
    /// Every key occurs once, and every local path has an allowed extension
    /// and, with it, a file name.
    pub open spec fn wf(&self) -> bool {
        valid_entries(self@) && named_entries(self@)
    }

    /// Checks `plugins` and makes a manifest of them. The first faulty
    /// entry, if there is one, decides the error.
    pub fn read(plugins: Vec<Entry>) -> (manifest: Result<Manifest, ConfigError>)
        ensures
            manifest is Ok <==> valid_entries(entry_views(plugins@)),
            match manifest {
                Ok(m) => m@ == entry_views(plugins@) && m.wf(),
                Err(e) => exists|i: int|
                    0 <= i < plugins.len() && fault_at(entry_views(plugins@), i) == Some(e@)
                        && forall|j: int|
                        0 <= j < i ==> (#[trigger] fault_at(entry_views(plugins@), j)) is None,
            },
    {
        let ghost entries = entry_views(plugins@);
        let n: usize = plugins.len();
        let mut i: usize = 0;
        while i < n
            invariant
                i <= n,
                n == plugins.len(),
                entries == entry_views(plugins@),
                forall|j: int| 0 <= j < i ==> (#[trigger] fault_at(entries, j)) is None,
                forall|j: int| 0 <= j < i ==> has_name((#[trigger] entries[j]).plugin),
            decreases n - i,
        {
            let entry = &plugins[i];
            assert(entries[i as int] == entry@);
            if key_seen_before(&plugins, i) {
                let e = ConfigError::DuplicateKey { key: entry.key.clone() };
                assert(fault_at(entries, i as int) == Some(e@));
                return Err(e);
            }
            match &entry.plugin {
                Plugin::Local(path) => {
                    let extension = path_extension(path.as_str());
                    match check_extension(entry.key.as_str(), extension) {
                        Ok(_) => {},
                        Err(e) => {
                            assert(fault_at(entries, i as int) == Some(e@));
                            return Err(e);
                        },
                    }
                },
                _ => {},
            }
            i += 1;
        }
        Ok(Manifest { plugins })
    }

    /// Number of plugins.
    pub fn len(&self) -> (n: usize)
        ensures
            n == self@.len(),
    {
        self.plugins.len()
    }

    /// The entry at position `i`, in the order the entries were given.
    pub fn entry(&self, i: usize) -> (entry: &Entry)
        requires
            i < self@.len(),
        ensures
            entry@ == self@[i as int],
    {
        &self.plugins[i]
    }
}

} // verus!
