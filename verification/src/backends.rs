//! The backend set: one fetch strategy per kind of plugin source.
//!
//! A backend never performs I/O. A download is a conversation: the backend
//! names the next [`Action`], the caller performs it and reports the
//! [`Event`] that came of it, until the backend delivers the bytes or aborts.

use crate::manifest::{
    path_extension, path_file_name, relative_extension, relative_file_name, text_of, Plugin,
    PluginView,
};
use crate::text::{
    after_last, decimal, decimal_digits, find_last, last_position, lemma_last_position,
    lemma_last_position_unique, same_text, tail_after,
};
use vstd::prelude::*;
use vstd::string::*;

verus! {

/// The kinds of plugin source, each with a backend of its own.
#[derive(Clone, Copy, Debug, PartialEq, Eq, Structural)]
pub enum Kind {
    Local,
    Cloud,
    GitHub,
}

impl Kind {
    /// The name of the kind.
    pub open spec fn name_text(self) -> Seq<char> {
        match self {
            Kind::Local => "Local"@,
            Kind::Cloud => "Cloud"@,
            Kind::GitHub => "GitHub"@,
        }
    }

    /// The name of the kind.
    pub fn name(&self) -> (name: &'static str)
        ensures
            name@ == self.name_text(),
    {
        match self {
            Kind::Local => "Local",
            Kind::Cloud => "Cloud",
            Kind::GitHub => "GitHub",
        }
    }
}

/// Why a download was given up.
#[derive(Clone, Copy, Debug, PartialEq, Eq, Structural)]
pub enum FetchError {
    /// The backend of this kind was handed a plugin of another kind.
    WrongKind(Kind),
    /// The local file could not be read.
    Read,
    /// The session credential could not be obtained.
    Credential,
    /// A request could not be sent, or its answer could not be read.
    Transport,
    /// The metadata request was answered with this status.
    RequestStatus(u16),
    /// The request for the asset's bytes was answered with this status.
    DownloadStatus(u16),
    /// The request for a release asset was answered with this status.
    ReleaseStatus(u16),
    /// The metadata named no download location.
    NoLocations,
    /// The caller reported something the backend had not asked for.
    OutOfTurn,
}

impl FetchError {
    /// The status code an error carries, if it carries one.
    pub open spec fn status(self) -> Option<u16> {
        match self {
            FetchError::RequestStatus(status) => Some(status),
            FetchError::DownloadStatus(status) => Some(status),
            FetchError::ReleaseStatus(status) => Some(status),
            _ => None,
        }
    }

    /// The fixed part of the message for an error.
    pub open spec fn headline(self) -> Seq<char> {
        match self {
            FetchError::WrongKind(kind) => kind.name_text() + "Backend can only handle "@
                + kind.name_text() + " plugins"@,
            FetchError::Read => "Failed to read plugin"@,
            FetchError::Credential => "Couldn't get Roblox cookie"@,
            FetchError::Transport => "Request could not be completed"@,
            FetchError::RequestStatus(_) => "Request failed with status: "@,
            FetchError::DownloadStatus(_) => "Download failed with status: "@,
            FetchError::ReleaseStatus(_) => "GitHub release download failed with status: "@,
            FetchError::NoLocations => "No download locations found"@,
            FetchError::OutOfTurn => "Unexpected event"@,
        }
    }

    /// The message for an error: its headline, followed by the status code
    /// in decimal where it carries one.
    pub open spec fn message_text(self) -> Seq<char> {
        match self.status() {
            Some(status) => self.headline() + decimal_digits(status as nat),
            None => self.headline(),
        }
    }

    /// A message that says what went wrong.
    pub fn message(&self) -> (text: String)
        ensures
            text@ == self.message_text(),
    {
        match self {
            FetchError::WrongKind(kind) => {
                let mut text = String::from_str(kind.name());
                text.append("Backend can only handle ");
                text.append(kind.name());
                text.append(" plugins");
                text
            },
            FetchError::Read => String::from_str("Failed to read plugin"),
            FetchError::Credential => String::from_str("Couldn't get Roblox cookie"),
            FetchError::Transport => String::from_str("Request could not be completed"),
            FetchError::RequestStatus(status) => with_status(
                "Request failed with status: ",
                *status,
            ),
            FetchError::DownloadStatus(status) => with_status(
                "Download failed with status: ",
                *status,
            ),
            FetchError::ReleaseStatus(status) => with_status(
                "GitHub release download failed with status: ",
                *status,
            ),
            FetchError::NoLocations => String::from_str("No download locations found"),
            FetchError::OutOfTurn => String::from_str("Unexpected event"),
        }
    }
}

/// A headline followed by a status code in decimal.
fn with_status(headline: &str, status: u16) -> (text: String)
    ensures
        text@ == headline@ + decimal_digits(status as nat),
{
    let mut text = String::from_str(headline);
    let digits = decimal(status as u64);
    text.append(digits.as_str());
    text
}

/// Where a download stands: what the backend is waiting for.
#[derive(Clone, Copy, Debug, PartialEq, Eq, Structural)]
pub enum Stage {
    /// Nothing has been asked yet.
    Start,
    /// The session credential.
    Credential,
    /// The status of the metadata request.
    Metadata,
    /// The download locations decoded from the metadata.
    Locations,
    /// The status of the request for the bytes.
    File,
    /// The bytes of the response.
    Body,
    /// The bytes of the local file.
    Reading,
}

/// What the caller is to do next.
#[derive(Debug, PartialEq, Eq)]
pub enum Action {
    /// Obtain the session credential.
    ObtainCredential,
    /// Read the file at this path, relative to the manifest's directory.
    ReadFile { path: String },
    /// Send a GET request, with the cookie if there is one.
    Get { url: String, cookie: Option<String> },
    /// Decode the response as the list of download locations.
    DecodeLocations,
    /// Read the bytes of the response.
    ReadBody,
    /// The download is complete.
    Deliver { data: Vec<u8>, extension: Option<String> },
    /// The download has failed.
    Abort { error: FetchError },
}

/// Mathematical model of an [`Action`].
pub enum ActionView {
    ObtainCredential,
    ReadFile { path: Seq<char> },
    Get { url: Seq<char>, cookie: Option<Seq<char>> },
    DecodeLocations,
    ReadBody,
    Deliver { data: Seq<u8>, extension: Option<Seq<char>> },
    Abort { error: FetchError },
}

impl View for Action {
    type V = ActionView;

    open spec fn view(&self) -> ActionView {
        match self {
            Action::ObtainCredential => ActionView::ObtainCredential,
            Action::ReadFile { path } => ActionView::ReadFile { path: path@ },
            Action::Get { url, cookie } => ActionView::Get { url: url@, cookie: text_of(*cookie) },
            Action::DecodeLocations => ActionView::DecodeLocations,
            Action::ReadBody => ActionView::ReadBody,
            Action::Deliver { data, extension } => ActionView::Deliver {
                data: data@,
                extension: text_of(*extension),
            },
            Action::Abort { error } => ActionView::Abort { error: *error },
        }
    }
}

/// What came of the last action.
#[derive(Debug, PartialEq, Eq)]
pub enum Event {
    /// Nothing yet: the download starts.
    Begin,
    /// The session credential.
    Credential(String),
    /// No session credential could be had.
    CredentialUnavailable,
    /// The status code of the response.
    Status(u16),
    /// The download locations the metadata lists, in order.
    Locations(Vec<String>),
    /// The bytes that were read.
    Contents(Vec<u8>),
    /// The bytes were written.
    Written,
    /// The action failed.
    Failed,
}

/// Mathematical model of an [`Event`].
pub enum EventView {
    Begin,
    Credential(Seq<char>),
    CredentialUnavailable,
    Status(u16),
    Locations(Seq<Seq<char>>),
    Contents(Seq<u8>),
    Written,
    Failed,
}

impl View for Event {
    type V = EventView;

    open spec fn view(&self) -> EventView {
        match self {
            Event::Begin => EventView::Begin,
            Event::Credential(cookie) => EventView::Credential(cookie@),
            Event::CredentialUnavailable => EventView::CredentialUnavailable,
            Event::Status(code) => EventView::Status(*code),
            Event::Locations(urls) => EventView::Locations(urls@.map_values(|u: String| u@)),
            Event::Contents(data) => EventView::Contents(data@),
            Event::Written => EventView::Written,
            Event::Failed => EventView::Failed,
        }
    }
}

/// One turn of a download: the action to perform, and the stage to report
/// its outcome at.
#[derive(Debug, PartialEq, Eq)]
pub struct Step {
    pub stage: Stage,
    pub action: Action,
}

/// Mathematical model of a [`Step`].
pub struct StepView {
    pub stage: Stage,
    pub action: ActionView,
}

impl View for Step {
    type V = StepView;

    open spec fn view(&self) -> StepView {
        StepView { stage: self.stage, action: self.action@ }
    }
}

/// A step that gives the download up.
pub open spec fn abort(error: FetchError) -> StepView {
    StepView { stage: Stage::Start, action: ActionView::Abort { error } }
}

/// Whether a status code is of the 2xx class.
pub open spec fn is_success(status: u16) -> bool {
    200 <= status < 300
}

/// Whether a status code is of the 2xx class.
pub fn status_ok(status: u16) -> (ok: bool)
    ensures
        ok == is_success(status),
{
    200 <= status && status < 300
}

/// The extension a local file is installed under in place of its own:
/// `lua` for a `luau` file, none for any other.
pub open spec fn local_override(extension: Option<Seq<char>>) -> Option<Seq<char>> {
    if extension == Some("luau"@) {
        Some("lua"@)
    } else {
        None
    }
}

/// The extension of a release asset: what follows the last `.` in the
/// final path segment of its URL, none where that segment holds no `.`.
pub open spec fn url_extension(url: Seq<char>) -> Option<Seq<char>> {
    let name = after_last(url, '/');
    if last_position(name, '.') < 0 {
        None
    } else {
        Some(after_last(name, '.'))
    }
}

/// Where a release asset has an extension, it is the final `.`-delimited
/// segment of the whole URL.
pub proof fn lemma_url_extension(url: Seq<char>)
    ensures
        url_extension(url) matches Some(e) ==> e == after_last(url, '.'),
{
    let name = after_last(url, '/');
    if last_position(name, '.') >= 0 {
        lemma_last_position(url, '/');
        lemma_last_position(name, '.');
        let start = last_position(url, '/') + 1;
        let dot = last_position(name, '.');
        assert forall|j: int| start + dot < j < url.len() implies url[j] != '.' by {
            assert(name[j - start] == url[j]);
        }
        assert(name[dot] == url[start + dot]);
        lemma_last_position_unique(url, '.', start + dot);
        assert(after_last(name, '.') =~= after_last(url, '.'));
    }
}

/// The address of the metadata of asset `id`.
pub open spec fn metadata_url(id: u64) -> Seq<char> {
    "https://assetdelivery.roblox.com/v2/asset?id="@ + decimal_digits(id as nat)
}

/// The stem `{cwd}_{name}`.
pub open spec fn scoped(cwd: Seq<char>, name: Seq<char>) -> Seq<char> {
    cwd + "_"@ + name
}

/// The destination stem of a local plugin whose path has the file name
/// `file_name`.
pub open spec fn local_stem(cwd: Seq<char>, file_name: Seq<char>) -> Seq<char> {
    scoped(cwd, file_name)
}

/// The destination stem of a cloud plugin: `{cwd}_{key}_{id}`.
pub open spec fn cloud_stem(cwd: Seq<char>, key: Seq<char>, id: u64) -> Seq<char> {
    cwd + "_"@ + key + "_"@ + decimal_digits(id as nat)
}

/// Whether a URL has a path segment. The segments are the pieces between
/// its `/`, empty ones too; only the empty URL has none.
pub open spec fn has_segment(url: Seq<char>) -> bool {
    url.len() > 0
}

/// The basename of a release asset: the final path segment of its URL,
/// which is what follows the last `/`; the placeholder `unknown` for a URL
/// without segments.
pub open spec fn url_basename(url: Seq<char>) -> Seq<char> {
    if has_segment(url) {
        after_last(url, '/')
    } else {
        "unknown"@
    }
}

/// The destination stem of a release asset: `{cwd}_{basename}`.
pub open spec fn github_stem(cwd: Seq<char>, url: Seq<char>) -> Seq<char> {
    scoped(cwd, url_basename(url))
}

/// The turn of a local download.
pub open spec fn local_reply(plugin: PluginView, stage: Stage, event: EventView) -> StepView {
    match plugin {
        PluginView::Local(path) => match (stage, event) {
            (Stage::Start, EventView::Begin) => StepView {
                stage: Stage::Reading,
                action: ActionView::ReadFile { path },
            },
            (Stage::Reading, EventView::Contents(data)) => StepView {
                stage: Stage::Start,
                action: ActionView::Deliver {
                    data,
                    extension: local_override(relative_extension(path)),
                },
            },
            (Stage::Reading, EventView::Failed) => abort(FetchError::Read),
            _ => abort(FetchError::OutOfTurn),
        },
        _ => abort(FetchError::WrongKind(Kind::Local)),
    }
}

/// The turn of a release download.
pub open spec fn github_reply(plugin: PluginView, stage: Stage, event: EventView) -> StepView {
    match plugin {
        PluginView::GitHub(url) => match (stage, event) {
            (Stage::Start, EventView::Begin) => StepView {
                stage: Stage::File,
                action: ActionView::Get { url, cookie: None },
            },
            (Stage::File, EventView::Status(status)) => if is_success(status) {
                StepView { stage: Stage::Body, action: ActionView::ReadBody }
            } else {
                abort(FetchError::ReleaseStatus(status))
            },
            (Stage::Body, EventView::Contents(data)) => StepView {
                stage: Stage::Start,
                action: ActionView::Deliver { data, extension: url_extension(url) },
            },
            (Stage::File, EventView::Failed) => abort(FetchError::Transport),
            (Stage::Body, EventView::Failed) => abort(FetchError::Transport),
            _ => abort(FetchError::OutOfTurn),
        },
        _ => abort(FetchError::WrongKind(Kind::GitHub)),
    }
}

/// The turn of a cloud download, for a backend that holds `cookie`.
pub open spec fn cloud_reply(
    cookie: Option<Seq<char>>,
    plugin: PluginView,
    stage: Stage,
    event: EventView,
) -> StepView {
    match plugin {
        PluginView::Cloud(id) => match (stage, event) {
            (Stage::Start, EventView::Begin) => match cookie {
                Some(c) => StepView {
                    stage: Stage::Metadata,
                    action: ActionView::Get { url: metadata_url(id), cookie: Some(c) },
                },
                None => StepView { stage: Stage::Credential, action: ActionView::ObtainCredential },
            },
            (Stage::Credential, EventView::Credential(c)) => StepView {
                stage: Stage::Metadata,
                action: ActionView::Get { url: metadata_url(id), cookie: Some(c) },
            },
            (Stage::Credential, EventView::CredentialUnavailable) => abort(FetchError::Credential),
            (Stage::Credential, EventView::Failed) => abort(FetchError::Credential),
            (Stage::Metadata, EventView::Status(status)) => if is_success(status) {
                StepView { stage: Stage::Locations, action: ActionView::DecodeLocations }
            } else {
                abort(FetchError::RequestStatus(status))
            },
            (Stage::Locations, EventView::Locations(urls)) => if urls.len() > 0 {
                StepView { stage: Stage::File, action: ActionView::Get { url: urls[0], cookie } }
            } else {
                abort(FetchError::NoLocations)
            },
            (Stage::File, EventView::Status(status)) => if is_success(status) {
                StepView { stage: Stage::Body, action: ActionView::ReadBody }
            } else {
                abort(FetchError::DownloadStatus(status))
            },
            (Stage::Body, EventView::Contents(data)) => StepView {
                stage: Stage::Start,
                action: ActionView::Deliver { data, extension: Some("rbxm"@) },
            },
            (Stage::Metadata, EventView::Failed) => abort(FetchError::Transport),
            (Stage::Locations, EventView::Failed) => abort(FetchError::Transport),
            (Stage::File, EventView::Failed) => abort(FetchError::Transport),
            (Stage::Body, EventView::Failed) => abort(FetchError::Transport),
            _ => abort(FetchError::OutOfTurn),
        },
        _ => abort(FetchError::WrongKind(Kind::Cloud)),
    }
}

/// The cookie a cloud backend holds after a turn: the one it is handed
/// while it waits for it, else the one it held.
pub open spec fn cloud_cookie_after(
    cookie: Option<Seq<char>>,
    plugin: PluginView,
    stage: Stage,
    event: EventView,
) -> Option<Seq<char>> {
    match (plugin, stage, event) {
        (PluginView::Cloud(_), Stage::Credential, EventView::Credential(c)) => Some(c),
        _ => cookie,
    }
}

/// A fetch strategy for one kind of plugin source.
pub trait Backend: Sized {
    /// The turn this backend takes on `event` at `stage` of a download of
    /// `plugin`.
    spec fn reply(&self, plugin: PluginView, stage: Stage, event: EventView) -> StepView;

    /// Whether this backend can name `plugin`.
    spec fn names(plugin: PluginView) -> bool;

    /// The destination stem of `plugin`, scoped by the working directory's
    /// name.
    spec fn stem(plugin: PluginView, key: Seq<char>, cwd: Seq<char>) -> Seq<char>;

    /// A backend that has fetched nothing yet.
    fn new() -> Self;

    /// Takes one turn of a download of `plugin`.
    fn download(&mut self, plugin: &Plugin, stage: Stage, event: Event) -> (step: Step)
        ensures
            step@ == old(self).reply(plugin@, stage, event@),
    ;

    /// The stem of the file that `plugin` is installed as.
    fn plugin_id(&self, plugin: &Plugin, key: &str, cwd: &str) -> (id: String)
        requires
            Self::names(plugin@),
        ensures
            id@ == Self::stem(plugin@, key@, cwd@),
    ;
}

/// A step that gives the download up.
fn give_up(error: FetchError) -> (step: Step)
    ensures
        step@ == abort(error),
{
    Step { stage: Stage::Start, action: Action::Abort { error } }
}

/// Joins the working directory's name and a name into a stem.
fn scope(cwd: &str, name: &str) -> (stem: String)
    ensures
        stem@ == scoped(cwd@, name@),
{
    let mut stem = String::from_str(cwd);
    stem.append("_");
    stem.append(name);
    stem
}

/// Serves plugins that are files beside the manifest.
#[derive(Debug)]
pub struct LocalBackend;

impl LocalBackend {
    /// The extension override for a file whose path has the extension
    /// `extension`.
    pub fn extension_override(extension: Option<String>) -> (replacement: Option<String>)
        ensures
            text_of(replacement) == local_override(text_of(extension)),
    {
        match extension {
            Some(e) => {
                if same_text(e.as_str(), "luau") {
                    Some(String::from_str("lua"))
                } else {
                    None
                }
            },
            None => None,
        }
    }

    /// The stem of a local plugin whose path has the file name `file_name`.
    pub fn stem_of(cwd: &str, file_name: &str) -> (id: String)
        ensures
            id@ == local_stem(cwd@, file_name@),
    {
        scope(cwd, file_name)
    }

    /// The stem of the local plugin `plugin`; none when the plugin is not
    /// local or its path has no file name.
    pub fn try_plugin_id(&self, plugin: &Plugin, key: &str, cwd: &str) -> (id: Option<String>)
        ensures
            match id {
                Some(stem) => Self::names(plugin@) && stem@ == Self::stem(plugin@, key@, cwd@),
                None => !Self::names(plugin@),
            },
    {
        match plugin {
            Plugin::Local(path) => {
                if path_file_name(path.as_str()).is_some() {
                    Some(self.plugin_id(plugin, key, cwd))
                } else {
                    None
                }
            },
            _ => None,
        }
    }
}

impl Backend for LocalBackend {
    open spec fn reply(&self, plugin: PluginView, stage: Stage, event: EventView) -> StepView {
        local_reply(plugin, stage, event)
    }

    open spec fn names(plugin: PluginView) -> bool {
        plugin matches PluginView::Local(path) && relative_file_name(path) is Some
    }

    open spec fn stem(plugin: PluginView, key: Seq<char>, cwd: Seq<char>) -> Seq<char> {
        match plugin {
            PluginView::Local(path) => local_stem(cwd, relative_file_name(path).unwrap()),
            _ => cwd,
        }
    }

    fn new() -> Self {
        LocalBackend
    }

    fn download(&mut self, plugin: &Plugin, stage: Stage, event: Event) -> (step: Step) {
        match plugin {
            Plugin::Local(path) => match stage {
                Stage::Start => match event {
                    Event::Begin => Step {
                        stage: Stage::Reading,
                        action: Action::ReadFile { path: path.clone() },
                    },
                    _ => give_up(FetchError::OutOfTurn),
                },
                Stage::Reading => match event {
                    Event::Contents(data) => {
                        let extension = Self::extension_override(path_extension(path.as_str()));
                        Step { stage: Stage::Start, action: Action::Deliver { data, extension } }
                    },
                    Event::Failed => give_up(FetchError::Read),
                    _ => give_up(FetchError::OutOfTurn),
                },
                _ => give_up(FetchError::OutOfTurn),
            },
            _ => give_up(FetchError::WrongKind(Kind::Local)),
        }
    }

    fn plugin_id(&self, plugin: &Plugin, key: &str, cwd: &str) -> (id: String) {
        match plugin {
            Plugin::Local(path) => {
                match path_file_name(path.as_str()) {
                    Some(name) => Self::stem_of(cwd, name.as_str()),
                    None => String::from_str(cwd),
                }
            },
            _ => String::from_str(cwd),
        }
    }
}

/// Serves release assets, fetched by their URL without a credential.
#[derive(Debug)]
pub struct GitHubBackend;

impl GitHubBackend {
    /// The basename of the asset at `url`.
    pub fn basename_of(url: &str) -> (name: String)
        ensures
            name@ == url_basename(url@),
    {
        if url.unicode_len() == 0 {
            String::from_str("unknown")
        } else {
            tail_after(url, '/')
        }
    }

    /// The extension of the asset at `url`.
    pub fn extension_of(url: &str) -> (extension: Option<String>)
        ensures
            text_of(extension) == url_extension(url@),
    {
        let name = tail_after(url, '/');
        match find_last(name.as_str(), '.') {
            Some(_) => Some(tail_after(name.as_str(), '.')),
            None => None,
        }
    }
}

impl Backend for GitHubBackend {
    open spec fn reply(&self, plugin: PluginView, stage: Stage, event: EventView) -> StepView {
        github_reply(plugin, stage, event)
    }

    open spec fn names(plugin: PluginView) -> bool {
        plugin is GitHub
    }

    open spec fn stem(plugin: PluginView, key: Seq<char>, cwd: Seq<char>) -> Seq<char> {
        match plugin {
            PluginView::GitHub(url) => github_stem(cwd, url),
            _ => cwd,
        }
    }

    fn new() -> Self {
        GitHubBackend
    }

    fn download(&mut self, plugin: &Plugin, stage: Stage, event: Event) -> (step: Step) {
        match plugin {
            Plugin::GitHub(url) => match stage {
                Stage::Start => match event {
                    Event::Begin => Step {
                        stage: Stage::File,
                        action: Action::Get { url: url.clone(), cookie: None },
                    },
                    _ => give_up(FetchError::OutOfTurn),
                },
                Stage::File => match event {
                    Event::Status(status) => {
                        if status_ok(status) {
                            Step { stage: Stage::Body, action: Action::ReadBody }
                        } else {
                            give_up(FetchError::ReleaseStatus(status))
                        }
                    },
                    Event::Failed => give_up(FetchError::Transport),
                    _ => give_up(FetchError::OutOfTurn),
                },
                Stage::Body => match event {
                    Event::Contents(data) => Step {
                        stage: Stage::Start,
                        action: Action::Deliver { data, extension: Self::extension_of(url.as_str()) },
                    },
                    Event::Failed => give_up(FetchError::Transport),
                    _ => give_up(FetchError::OutOfTurn),
                },
                _ => give_up(FetchError::OutOfTurn),
            },
            _ => give_up(FetchError::WrongKind(Kind::GitHub)),
        }
    }

    fn plugin_id(&self, plugin: &Plugin, key: &str, cwd: &str) -> (id: String) {
        match plugin {
            Plugin::GitHub(url) => {
                let name = Self::basename_of(url.as_str());
                scope(cwd, name.as_str())
            },
            _ => String::from_str(cwd),
        }
    }
}

/// Serves assets of the authenticated asset API. The session credential is
/// asked for once, when the first download needs it, and kept.
#[derive(Debug)]
pub struct CloudBackend {
    cookie: Option<String>,
}

impl CloudBackend {
    /// The credential this backend holds.
    pub closed spec fn cookie(&self) -> Option<Seq<char>> {
        text_of(self.cookie)
    }

    /// A backend that holds `cookie` from the start.
    pub fn with_cookie(cookie: String) -> (backend: Self)
        ensures
            backend.cookie() == Some(cookie@),
    {
        CloudBackend { cookie: Some(cookie) }
    }

    /// The address to ask for the metadata of asset `id`.
    pub fn metadata_address(id: u64) -> (url: String)
        ensures
            url@ == metadata_url(id),
    {
        let mut url = String::from_str("https://assetdelivery.roblox.com/v2/asset?id=");
        let digits = decimal(id);
        url.append(digits.as_str());
        url
    }

    /// A copy of the credential.
    fn held_cookie(&self) -> (cookie: Option<String>)
        ensures
            text_of(cookie) == self.cookie(),
    {
        match &self.cookie {
            Some(c) => Some(c.clone()),
            None => None,
        }
    }

    /// The request for the metadata of asset `id`.
    fn ask_metadata(&self, id: u64) -> (step: Step)
        requires
            self.cookie() is Some,
        ensures
            step@ == (StepView {
                stage: Stage::Metadata,
                action: ActionView::Get { url: metadata_url(id), cookie: self.cookie() },
            }),
    {
        Step {
            stage: Stage::Metadata,
            action: Action::Get { url: Self::metadata_address(id), cookie: self.held_cookie() },
        }
    }
}

impl Backend for CloudBackend {
    open spec fn reply(&self, plugin: PluginView, stage: Stage, event: EventView) -> StepView {
        cloud_reply(self.cookie(), plugin, stage, event)
    }

    open spec fn names(plugin: PluginView) -> bool {
        plugin is Cloud
    }

    open spec fn stem(plugin: PluginView, key: Seq<char>, cwd: Seq<char>) -> Seq<char> {
        match plugin {
            PluginView::Cloud(id) => cloud_stem(cwd, key, id),
            _ => cwd,
        }
    }

    fn new() -> (backend: Self)
        ensures
            backend.cookie() is None,
    {
        CloudBackend { cookie: None }
    }

    fn download(&mut self, plugin: &Plugin, stage: Stage, event: Event) -> (step: Step)
        ensures
            final(self).cookie() == cloud_cookie_after(
                old(self).cookie(),
                plugin@,
                stage,
                event@,
            ),
    {
        match plugin {
            Plugin::Cloud(id) => match stage {
                Stage::Start => match event {
                    Event::Begin => {
                        if self.cookie.is_some() {
                            self.ask_metadata(*id)
                        } else {
                            Step { stage: Stage::Credential, action: Action::ObtainCredential }
                        }
                    },
                    _ => give_up(FetchError::OutOfTurn),
                },
                Stage::Credential => match event {
                    Event::Credential(cookie) => {
                        self.cookie = Some(cookie);
                        self.ask_metadata(*id)
                    },
                    Event::CredentialUnavailable => give_up(FetchError::Credential),
                    Event::Failed => give_up(FetchError::Credential),
                    _ => give_up(FetchError::OutOfTurn),
                },
                Stage::Metadata => match event {
                    Event::Status(status) => {
                        if status_ok(status) {
                            Step { stage: Stage::Locations, action: Action::DecodeLocations }
                        } else {
                            give_up(FetchError::RequestStatus(status))
                        }
                    },
                    Event::Failed => give_up(FetchError::Transport),
                    _ => give_up(FetchError::OutOfTurn),
                },
                Stage::Locations => match event {
                    Event::Locations(urls) => {
                        if urls.len() > 0 {
                            Step {
                                stage: Stage::File,
                                action: Action::Get {
                                    url: urls[0].clone(),
                                    cookie: self.held_cookie(),
                                },
                            }
                        } else {
                            give_up(FetchError::NoLocations)
                        }
                    },
                    Event::Failed => give_up(FetchError::Transport),
                    _ => give_up(FetchError::OutOfTurn),
                },
                Stage::File => match event {
                    Event::Status(status) => {
                        if status_ok(status) {
                            Step { stage: Stage::Body, action: Action::ReadBody }
                        } else {
                            give_up(FetchError::DownloadStatus(status))
                        }
                    },
                    Event::Failed => give_up(FetchError::Transport),
                    _ => give_up(FetchError::OutOfTurn),
                },
                Stage::Body => match event {
                    Event::Contents(data) => Step {
                        stage: Stage::Start,
                        action: Action::Deliver { data, extension: Some(String::from_str("rbxm")) },
                    },
                    Event::Failed => give_up(FetchError::Transport),
                    _ => give_up(FetchError::OutOfTurn),
                },
                Stage::Reading => give_up(FetchError::OutOfTurn),
            },
            _ => give_up(FetchError::WrongKind(Kind::Cloud)),
        }
    }

    fn plugin_id(&self, plugin: &Plugin, key: &str, cwd: &str) -> (id: String) {
        match plugin {
            Plugin::Cloud(id) => {
                let mut stem = String::from_str(cwd);
                stem.append("_");
                stem.append(key);
                stem.append("_");
                let digits = decimal(*id);
                stem.append(digits.as_str());
                stem
            },
            _ => String::from_str(cwd),
        }
    }
}

} // verus!
