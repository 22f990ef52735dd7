//! The installer: one pass over the manifest that fetches each plugin,
//! hashes what came, and writes it unless the destination directory already
//! holds that content.
//!
//! Like a backend, the installer performs no I/O. [`Installer::step`] takes
//! what came of the last [`Directive`] and names the next one.

use crate::backends::{
    cloud_cookie_after, cloud_reply, cloud_stem, github_reply, github_stem, local_reply,
    local_stem, Action, ActionView, Backend, CloudBackend, Event, EventView, FetchError,
    GitHubBackend, LocalBackend, Stage, Step, StepView,
};
use crate::digest::{blake3_hash, Digest};
use crate::index::{scanned, DedupIndex, ExistingFile};
use crate::manifest::{
    has_name, relative_file_name, text_of, EntryView, Manifest, Plugin, PluginView,
};
use vstd::prelude::*;
use vstd::string::*;

verus! {

/// Why a run was given up.
#[derive(Clone, Copy, Debug, PartialEq, Eq, Structural)]
pub enum InstallError {
    /// The download of the plugin failed.
    Fetch(FetchError),
    /// The file could not be written.
    Write,
    /// The caller reported something the installer had not asked for.
    OutOfTurn,
}

impl InstallError {
    /// The message for an error.
    pub open spec fn message_text(self) -> Seq<char> {
        match self {
            InstallError::Fetch(error) => error.message_text(),
            InstallError::Write => "Failed to write plugin"@,
            InstallError::OutOfTurn => "Unexpected event"@,
        }
    }

    /// A message that says what went wrong.
    pub fn message(&self) -> (text: String)
        ensures
            text@ == self.message_text(),
    {
        match self {
            InstallError::Fetch(error) => error.message(),
            InstallError::Write => String::from_str("Failed to write plugin"),
            InstallError::OutOfTurn => String::from_str("Unexpected event"),
        }
    }
}

/// What the installer is waiting for.
#[derive(Clone, Copy, Debug, PartialEq, Eq, Structural)]
enum Phase {
    Ready,
    Fetching(Stage),
    Writing,
    Finished,
    Aborted,
}

/// Mathematical model of what the installer is waiting for.
pub enum PhaseView {
    /// The word to go on with the next plugin.
    Ready,
    /// The outcome of a backend's action, for the plugin named `stem`.
    Fetching { stage: Stage, stem: Seq<char> },
    /// Confirmation that the content with `digest` was written to `path`.
    Writing { digest: Seq<u8>, path: Seq<char> },
    /// Nothing: every plugin was handled.
    Finished,
    /// Nothing: the run was given up.
    Aborted,
}

/// Which backends a run has created so far.
pub struct Created {
    pub local: bool,
    pub cloud: bool,
    pub github: bool,
}

/// What the caller is to do next.
#[derive(Debug, PartialEq, Eq)]
pub enum Directive {
    /// Perform `action` for the plugin `key` and report what came of it.
    Fetch { key: String, action: Action },
    /// Write `data` to `path`, then report `Written` or `Failed`.
    Write { key: String, path: String, data: Vec<u8> },
    /// The content of plugin `key` is already present at `existing`: nothing
    /// is written. Report `Begin` to go on.
    Skip { key: String, existing: String },
    /// Plugin `key` is installed at `path`. Report `Begin` to go on.
    Installed { key: String, path: String },
    /// Every plugin was handled.
    Finished,
    /// The run is given up, because of `plugin` where one is to blame.
    Abort { plugin: Option<String>, error: InstallError },
}

/// Mathematical model of a [`Directive`].
pub enum DirectiveView {
    Fetch { key: Seq<char>, action: ActionView },
    Write { key: Seq<char>, path: Seq<char>, data: Seq<u8> },
    Skip { key: Seq<char>, existing: Seq<char> },
    Installed { key: Seq<char>, path: Seq<char> },
    Finished,
    Abort { plugin: Option<Seq<char>>, error: InstallError },
}

impl View for Directive {
    type V = DirectiveView;

    open spec fn view(&self) -> DirectiveView {
        match self {
            Directive::Fetch { key, action } => DirectiveView::Fetch { key: key@, action: action@ },
            Directive::Write { key, path, data } => DirectiveView::Write {
                key: key@,
                path: path@,
                data: data@,
            },
            Directive::Skip { key, existing } => DirectiveView::Skip {
                key: key@,
                existing: existing@,
            },
            Directive::Installed { key, path } => DirectiveView::Installed {
                key: key@,
                path: path@,
            },
            Directive::Finished => DirectiveView::Finished,
            Directive::Abort { plugin, error } => DirectiveView::Abort {
                plugin: text_of(*plugin),
                error: *error,
            },
        }
    }
}

/// The line that reports a directive to the user, for a directive that
/// has one.
pub open spec fn notice_text(directive: DirectiveView) -> Option<Seq<char>> {
    match directive {
        DirectiveView::Write { path, .. } => Some("Writing \""@ + path + "\"..."@),
        DirectiveView::Skip { key, existing } => Some(
            "\""@ + key + "\" already exists at \""@ + existing + "\", skipping..."@,
        ),
        DirectiveView::Finished => Some("Plugins installed successfully!"@),
        DirectiveView::Abort { plugin: Some(key), error } => Some(
            "Plugin '"@ + key + "': "@ + error.message_text(),
        ),
        DirectiveView::Abort { plugin: None, error } => Some(error.message_text()),
        _ => None,
    }
}

impl Directive {
    /// The line that reports this directive to the user: a skip names the
    /// plugin and the path that already holds its content, a failure names
    /// the plugin that is to blame.
    pub fn notice(&self) -> (line: Option<String>)
        ensures
            text_of(line) == notice_text(self@),
    {
        match self {
            Directive::Write { path, .. } => {
                let mut line = String::from_str("Writing \"");
                line.append(path.as_str());
                line.append("\"...");
                Some(line)
            },
            Directive::Skip { key, existing } => {
                let mut line = String::from_str("\"");
                line.append(key.as_str());
                line.append("\" already exists at \"");
                line.append(existing.as_str());
                line.append("\", skipping...");
                Some(line)
            },
            Directive::Finished => Some(String::from_str("Plugins installed successfully!")),
            Directive::Abort { plugin, error } => {
                let message = error.message();
                match plugin {
                    Some(key) => {
                        let mut line = String::from_str("Plugin '");
                        line.append(key.as_str());
                        line.append("': ");
                        line.append(message.as_str());
                        Some(line)
                    },
                    None => Some(message),
                }
            },
            _ => None,
        }
    }
}

/// Mathematical model of an [`Installer`].
pub struct InstallerView {
    /// The manifest's entries, in the order they are installed.
    pub entries: Seq<EntryView>,
    /// Name of the working directory.
    pub cwd: Seq<char>,
    /// The destination directory.
    pub destination: Seq<char>,
    /// The content known to be in the destination directory.
    pub index: Map<Seq<u8>, Seq<char>>,
    /// The credential the cloud backend holds.
    pub cookie: Option<Seq<char>>,
    /// The backends created so far.
    pub created: Created,
    /// Position of the plugin being installed.
    pub cursor: nat,
    /// What the installer is waiting for.
    pub phase: PhaseView,
}

/// The destination path `{destination}/{stem}`, with `.{extension}`
/// appended where the backend gave one.
pub open spec fn destination_path(
    destination: Seq<char>,
    stem: Seq<char>,
    extension: Option<Seq<char>>,
) -> Seq<char> {
    match extension {
        Some(e) => destination + "/"@ + stem + "."@ + e,
        None => destination + "/"@ + stem,
    }
}

/// The stem a plugin is installed under.
pub open spec fn stem_of(plugin: PluginView, key: Seq<char>, cwd: Seq<char>) -> Seq<char> {
    match plugin {
        PluginView::Local(path) => local_stem(cwd, relative_file_name(path).unwrap()),
        PluginView::Cloud(id) => cloud_stem(cwd, key, id),
        PluginView::GitHub(url) => github_stem(cwd, url),
    }
}

/// The turn the backend of `plugin`'s kind takes.
pub open spec fn backend_reply(
    cookie: Option<Seq<char>>,
    plugin: PluginView,
    stage: Stage,
    event: EventView,
) -> StepView {
    match plugin {
        PluginView::Local(_) => local_reply(plugin, stage, event),
        PluginView::Cloud(_) => cloud_reply(cookie, plugin, stage, event),
        PluginView::GitHub(_) => github_reply(plugin, stage, event),
    }
}

/// The backends that exist once the one for `plugin` is in use.
pub open spec fn created_with(created: Created, plugin: PluginView) -> Created {
    match plugin {
        PluginView::Local(_) => Created { local: true, ..created },
        PluginView::Cloud(_) => Created { cloud: true, ..created },
        PluginView::GitHub(_) => Created { github: true, ..created },
    }
}

/// The key of the plugin being installed, if there is one.
pub open spec fn current_key(s: InstallerView) -> Option<Seq<char>> {
    if s.cursor < s.entries.len() {
        Some(s.entries[s.cursor as int].key)
    } else {
        None
    }
}

/// The run is given up.
pub open spec fn halt(s: InstallerView, error: InstallError) -> (InstallerView, DirectiveView) {
    (
        InstallerView { phase: PhaseView::Aborted, ..s },
        DirectiveView::Abort { plugin: current_key(s), error },
    )
}

/// Fetched content is placed: skipped when the index holds its digest,
/// else sent to be written.
pub open spec fn deliver(
    s: InstallerView,
    stem: Seq<char>,
    data: Seq<u8>,
    extension: Option<Seq<char>>,
) -> (InstallerView, DirectiveView) {
    let key = s.entries[s.cursor as int].key;
    let digest = blake3_hash(data);
    if s.index.contains_key(digest) {
        (
            InstallerView { cursor: s.cursor + 1, phase: PhaseView::Ready, ..s },
            DirectiveView::Skip { key, existing: s.index[digest] },
        )
    } else {
        let path = destination_path(s.destination, stem, extension);
        (
            InstallerView { phase: PhaseView::Writing { digest, path }, ..s },
            DirectiveView::Write { key, path, data },
        )
    }
}

/// A backend's turn is carried out: its action is passed on, its bytes are
/// placed, its failure ends the run.
pub open spec fn forward(s: InstallerView, stem: Seq<char>, step: StepView) -> (
    InstallerView,
    DirectiveView,
) {
    match step.action {
        ActionView::Abort { error } => halt(s, InstallError::Fetch(error)),
        ActionView::Deliver { data, extension } => deliver(s, stem, data, extension),
        action => (
            InstallerView { phase: PhaseView::Fetching { stage: step.stage, stem }, ..s },
            DirectiveView::Fetch { key: s.entries[s.cursor as int].key, action },
        ),
    }
}

/// The backend of the current plugin takes a turn.
pub open spec fn turn(s: InstallerView, stem: Seq<char>, stage: Stage, event: EventView) -> (
    InstallerView,
    DirectiveView,
) {
    let plugin = s.entries[s.cursor as int].plugin;
    let step = backend_reply(s.cookie, plugin, stage, event);
    let cookie = cloud_cookie_after(s.cookie, plugin, stage, event);
    forward(InstallerView { cookie, created: created_with(s.created, plugin), ..s }, stem, step)
}

/// The next plugin is taken up, or the run ends.
pub open spec fn begin(s: InstallerView) -> (InstallerView, DirectiveView) {
    if s.cursor >= s.entries.len() {
        (InstallerView { phase: PhaseView::Finished, ..s }, DirectiveView::Finished)
    } else {
        let entry = s.entries[s.cursor as int];
        turn(s, stem_of(entry.plugin, entry.key, s.cwd), Stage::Start, EventView::Begin)
    }
}

/// One step of a run: the state and directive that follow from state `s`
/// and event `event`.
pub open spec fn step_spec(s: InstallerView, event: EventView) -> (InstallerView, DirectiveView) {
    match s.phase {
        PhaseView::Ready => match event {
            EventView::Begin => begin(s),
            _ => halt(s, InstallError::OutOfTurn),
        },
        PhaseView::Fetching { stage, stem } => turn(s, stem, stage, event),
        PhaseView::Writing { digest, path } => match event {
            EventView::Written => (
                InstallerView {
                    index: s.index.insert(digest, path),
                    cursor: s.cursor + 1,
                    phase: PhaseView::Ready,
                    ..s
                },
                DirectiveView::Installed { key: s.entries[s.cursor as int].key, path },
            ),
            EventView::Failed => halt(s, InstallError::Write),
            _ => halt(s, InstallError::OutOfTurn),
        },
        PhaseView::Finished => (s, DirectiveView::Finished),
        PhaseView::Aborted => halt(s, InstallError::OutOfTurn),
    }
}

/// A run: the state and the directives that follow from state `s` and the
/// events `events`, taken one step after the other.
pub open spec fn run(s: InstallerView, events: Seq<EventView>) -> (
    InstallerView,
    Seq<DirectiveView>,
)
    decreases events.len(),
{
    if events.len() == 0 {
        (s, Seq::empty())
    } else {
        let before = run(s, events.drop_last());
        let last = step_spec(before.0, events.last());
        (last.0, before.1.push(last.1))
    }
}

/// The models of a list of events.
pub open spec fn event_views(events: Seq<Event>) -> Seq<EventView> {
    events.map_values(|e: Event| e@)
}

/// The models of a list of directives.
pub open spec fn directive_views(directives: Seq<Directive>) -> Seq<DirectiveView> {
    directives.map_values(|d: Directive| d@)
}

/// The state a run starts in.
pub open spec fn initial(
    entries: Seq<EntryView>,
    cwd: Seq<char>,
    destination: Seq<char>,
    index: Map<Seq<u8>, Seq<char>>,
) -> InstallerView {
    InstallerView {
        entries,
        cwd,
        destination,
        index,
        cookie: None,
        created: Created { local: false, cloud: false, github: false },
        cursor: 0,
        phase: PhaseView::Ready,
    }
}

/// Joins the destination directory, a stem and an optional extension.
pub fn destination_for(destination: &str, stem: &str, extension: &Option<String>) -> (path: String)
    ensures
        path@ == destination_path(destination@, stem@, text_of(*extension)),
{
    let mut path = String::from_str(destination);
    path.append("/");
    path.append(stem);
    match extension {
        Some(e) => {
            path.append(".");
            path.append(e.as_str());
        },
        None => {},
    }
    path
}

/// One run of the installer over a manifest.
#[derive(Debug)]
pub struct Installer {
    manifest: Manifest,
    cwd: String,
    destination: String,
    index: DedupIndex,
    local: Option<LocalBackend>,
    cloud: Option<CloudBackend>,
    github: Option<GitHubBackend>,
    cursor: usize,
    phase: Phase,
    stem: String,
    digest: Digest,
    path: String,
}

impl View for Installer {
    type V = InstallerView;

    closed spec fn view(&self) -> InstallerView {
        InstallerView {
            entries: self.manifest@,
            cwd: self.cwd@,
            destination: self.destination@,
            index: self.index@,
            cookie: match self.cloud {
                Some(backend) => backend.cookie(),
                None => None,
            },
            created: Created {
                local: self.local is Some,
                cloud: self.cloud is Some,
                github: self.github is Some,
            },
            cursor: self.cursor as nat,
            phase: match self.phase {
                Phase::Ready => PhaseView::Ready,
                Phase::Fetching(stage) => PhaseView::Fetching { stage, stem: self.stem@ },
                Phase::Writing => PhaseView::Writing { digest: self.digest@, path: self.path@ },
                Phase::Finished => PhaseView::Finished,
                Phase::Aborted => PhaseView::Aborted,
            },
        }
    }
}

impl Installer {
    /// The manifest and the index are valid, and a plugin is at hand while
    /// one is being fetched or written.
    pub closed spec fn wf(&self) -> bool {
        &&& self.manifest.wf()
        &&& self.index.wf()
        &&& self.cursor <= self.manifest@.len()
        &&& (self.phase is Fetching || self.phase is Writing) ==> self.cursor < self.manifest@.len()
    }

    /// An installer at the start of a run, with the index of what the
    /// destination directory holds.
    pub fn new(manifest: Manifest, cwd: &str, destination: &str, index: DedupIndex) -> (installer:
        Installer)
        requires
            manifest.wf(),
            index.wf(),
        ensures
            installer.wf(),
            installer@ == initial(manifest@, cwd@, destination@, index@),
    {
        Installer {
            manifest,
            cwd: String::from_str(cwd),
            destination: String::from_str(destination),
            index,
            local: None,
            cloud: None,
            github: None,
            cursor: 0,
            phase: Phase::Ready,
            stem: String::new(),
            digest: Digest::from_bytes([0u8; 32]),
            path: String::new(),
        }
    }

    /// An installer at the start of a run, with the index built from the
    /// files found in the destination directory.
    pub fn with_files(
        manifest: Manifest,
        cwd: &str,
        destination: &str,
        files: &Vec<ExistingFile>,
    ) -> (installer: Installer)
        requires
            manifest.wf(),
        ensures
            installer.wf(),
            installer@ == initial(manifest@, cwd@, destination@, scanned(files@)),
    {
        Self::new(manifest, cwd, destination, DedupIndex::build(files))
    }

    /// The index as the run has left it.
    pub fn index(&self) -> (index: &DedupIndex)
        requires
            self.wf(),
        ensures
            index.wf(),
            index@ == self@.index,
    {
        &self.index
    }

    /// Whether every plugin was handled.
    pub fn is_finished(&self) -> (finished: bool)
        ensures
            finished == (self@.phase is Finished),
    {
        match self.phase {
            Phase::Finished => true,
            _ => false,
        }
    }

    /// Whether the run was given up.
    pub fn is_aborted(&self) -> (aborted: bool)
        ensures
            aborted == (self@.phase is Aborted),
    {
        match self.phase {
            Phase::Aborted => true,
            _ => false,
        }
    }

    /// The key of the plugin being installed.
    fn key(&self) -> (key: Option<String>)
        requires
            self.wf(),
        ensures
            text_of(key) == current_key(self@),
    {
        if self.cursor < self.manifest.len() {
            Some(self.manifest.entry(self.cursor).key.clone())
        } else {
            None
        }
    }

    /// Gives the run up.
    fn halt(&mut self, error: InstallError) -> (directive: Directive)
        requires
            old(self).wf(),
        ensures
            final(self).wf(),
            (final(self)@, directive@) == halt(old(self)@, error),
    {
        let plugin = self.key();
        self.phase = Phase::Aborted;
        Directive::Abort { plugin, error }
    }

    /// Places fetched content.
    fn deliver(&mut self, data: Vec<u8>, extension: Option<String>) -> (directive: Directive)
        requires
            old(self).wf(),
            old(self).cursor < old(self).manifest@.len(),
        ensures
            final(self).wf(),
            (final(self)@, directive@) == deliver(
                old(self)@,
                old(self).stem@,
                data@,
                text_of(extension),
            ),
    {
        let key = self.manifest.entry(self.cursor).key.clone();
        let count: usize = self.manifest.len();
        let digest = Digest::of(data.as_slice());
        match self.index.get(&digest) {
            Some(existing) => {
                let existing = existing.clone();
                self.cursor = self.cursor + 1;
                self.phase = Phase::Ready;
                Directive::Skip { key, existing }
            },
            None => {
                let path = destination_for(self.destination.as_str(), self.stem.as_str(), &extension);
                self.digest = digest;
                self.path = path.clone();
                self.phase = Phase::Writing;
                Directive::Write { key, path, data }
            },
        }
    }

    /// Carries out a backend's turn.
    fn forward(&mut self, step: Step) -> (directive: Directive)
        requires
            old(self).wf(),
            old(self).cursor < old(self).manifest@.len(),
        ensures
            final(self).wf(),
            (final(self)@, directive@) == forward(old(self)@, old(self).stem@, step@),
    {
        match step.action {
            Action::Abort { error } => self.halt(InstallError::Fetch(error)),
            Action::Deliver { data, extension } => self.deliver(data, extension),
            action => {
                let key = self.manifest.entry(self.cursor).key.clone();
                self.phase = Phase::Fetching(step.stage);
                Directive::Fetch { key, action }
            },
        }
    }

    /// Lets the backend of the current plugin take a turn, creating it if
    /// this is its first use.
    fn turn(&mut self, stage: Stage, event: Event) -> (directive: Directive)
        requires
            old(self).wf(),
            old(self).cursor < old(self).manifest@.len(),
        ensures
            final(self).wf(),
            (final(self)@, directive@) == turn(old(self)@, old(self).stem@, stage, event@),
    {
        let plugin = self.manifest.entry(self.cursor).plugin.duplicate();
        let step = match plugin {
            Plugin::Local(_) => {
                let mut backend = match self.local.take() {
                    Some(backend) => backend,
                    None => LocalBackend::new(),
                };
                let step = backend.download(&plugin, stage, event);
                self.local = Some(backend);
                step
            },
            Plugin::Cloud(_) => {
                let mut backend = match self.cloud.take() {
                    Some(backend) => backend,
                    None => CloudBackend::new(),
                };
                let step = backend.download(&plugin, stage, event);
                self.cloud = Some(backend);
                step
            },
            Plugin::GitHub(_) => {
                let mut backend = match self.github.take() {
                    Some(backend) => backend,
                    None => GitHubBackend::new(),
                };
                let step = backend.download(&plugin, stage, event);
                self.github = Some(backend);
                step
            },
        };
        self.forward(step)
    }

    /// The stem of the current plugin, from the backend of its kind, which
    /// is created if this is its first use.
    fn name_current(&mut self) -> (stem: String)
        requires
            old(self).wf(),
            old(self).cursor < old(self).manifest@.len(),
        ensures
            final(self).wf(),
            final(self)@ == (InstallerView {
                created: created_with(
                    old(self)@.created,
                    old(self)@.entries[old(self)@.cursor as int].plugin,
                ),
                ..old(self)@
            }),
            final(self).stem == old(self).stem,
            final(self).cursor == old(self).cursor,
            stem@ == stem_of(
                old(self)@.entries[old(self)@.cursor as int].plugin,
                old(self)@.entries[old(self)@.cursor as int].key,
                old(self)@.cwd,
            ),
    {
        let entry = self.manifest.entry(self.cursor);
        let plugin = entry.plugin.duplicate();
        let key = entry.key.clone();
        assert(has_name(self.manifest@[self.cursor as int].plugin));
        match plugin {
            Plugin::Local(_) => {
                let backend = match self.local.take() {
                    Some(backend) => backend,
                    None => LocalBackend::new(),
                };
                let stem = backend.plugin_id(&plugin, key.as_str(), self.cwd.as_str());
                self.local = Some(backend);
                stem
            },
            Plugin::Cloud(_) => {
                let backend = match self.cloud.take() {
                    Some(backend) => backend,
                    None => CloudBackend::new(),
                };
                let stem = backend.plugin_id(&plugin, key.as_str(), self.cwd.as_str());
                self.cloud = Some(backend);
                stem
            },
            Plugin::GitHub(_) => {
                let backend = match self.github.take() {
                    Some(backend) => backend,
                    None => GitHubBackend::new(),
                };
                let stem = backend.plugin_id(&plugin, key.as_str(), self.cwd.as_str());
                self.github = Some(backend);
                stem
            },
        }
    }

    /// Takes up the next plugin, or ends the run.
    fn begin(&mut self) -> (directive: Directive)
        requires
            old(self).wf(),
        ensures
            final(self).wf(),
            (final(self)@, directive@) == begin(old(self)@),
    {
        if self.cursor >= self.manifest.len() {
            self.phase = Phase::Finished;
            Directive::Finished
        } else {
            self.stem = self.name_current();
            self.turn(Stage::Start, Event::Begin)
        }
    }

    /// Records that the pending content was written.
    fn confirm(&mut self) -> (directive: Directive)
        requires
            old(self).wf(),
            old(self).phase is Writing,
        ensures
            final(self).wf(),
            (final(self)@, directive@) == step_spec(old(self)@, EventView::Written),
    {
        let key = self.manifest.entry(self.cursor).key.clone();
        let count: usize = self.manifest.len();
        self.index.insert(self.digest, self.path.clone());
        self.cursor = self.cursor + 1;
        self.phase = Phase::Ready;
        Directive::Installed { key, path: self.path.clone() }
    }

    /// Takes what came of the last directive and names the next one.
    pub fn step(&mut self, event: Event) -> (directive: Directive)
        requires
            old(self).wf(),
        ensures
            final(self).wf(),
            (final(self)@, directive@) == step_spec(old(self)@, event@),
    {
        match self.phase {
            Phase::Ready => match event {
                Event::Begin => self.begin(),
                _ => self.halt(InstallError::OutOfTurn),
            },
            Phase::Fetching(stage) => self.turn(stage, event),
            Phase::Writing => match event {
                Event::Written => self.confirm(),
                Event::Failed => self.halt(InstallError::Write),
                _ => self.halt(InstallError::OutOfTurn),
            },
            Phase::Finished => Directive::Finished,
            Phase::Aborted => self.halt(InstallError::OutOfTurn),
        }
    }

    /// Takes the steps of a recorded run: one for each of `events`, in
    /// order, and returns the directives they gave.
    pub fn replay(&mut self, events: Vec<Event>) -> (directives: Vec<Directive>)
        requires
            old(self).wf(),
        ensures
            final(self).wf(),
            final(self)@ == run(old(self)@, event_views(events@)).0,
            directive_views(directives@) == run(old(self)@, event_views(events@)).1,
    {
        let ghost start = self@;
        let ghost all = event_views(events@);
        let mut directives: Vec<Directive> = Vec::new();
        for event in it: events.into_iter()
            invariant
                self.wf(),
                it.seq() == events@,
                all == event_views(events@),
                self@ == run(start, all.subrange(0, it.index() as int)).0,
                directive_views(directives@) == run(start, all.subrange(0, it.index() as int)).1,
        {
            proof {
                let grown = all.subrange(0, it.index() + 1);
                assert(grown.drop_last() =~= all.subrange(0, it.index() as int));
                assert(grown.last() == event@);
            }
            let ghost before = directive_views(directives@);
            let directive = self.step(event);
            directives.push(directive);
            assert(directive_views(directives@) =~= before.push(directive@));
        }
        assert(all.subrange(0, all.len() as int) =~= all);
        directives
    }
}

} // verus!
