//! The archive run as a state machine.
//!
//! The machine decides; a driver acts. `Pipeline::start` and `Pipeline::step`
//! each hand out the next action. The driver performs it and reports what
//! came of it as an event. The run is over when the action is `Finish`.
//!
//! The order is fixed: open a session, resolve the handle, fetch the thread,
//! create the directories, store the thread as it was received, fetch and
//! store each media content, ask the public web archive for a copy. A failure
//! ends the run at once; only what the web archive answers is never looked at.

use vstd::prelude::*;
use vstd::string::*;
use crate::errors::Errors;
use crate::layout::{
    mirror_address, mirror_url, post_dir, post_directory, raw_file, raw_path, resolve_address,
    resolve_url, root_dir, root_directory, session_address, session_url, thread_address,
    thread_url,
};
use crate::plan::{
    downloads_view, plan_media, planned_downloads, video_reference_missing, Download,
    DownloadView, MediaPlan,
};
use crate::post_information::Post;
use crate::reference::{extract_post_reference, names_post, post_reference_of, PostReference};
use crate::session::{session_body, session_request};
use crate::thread::{ActorIdentifier, Record, SessionCredential, ThreadView};

verus! {

/// What the run waits for.
#[derive(Debug, Clone, Copy, PartialEq, Eq, Structural)]
pub enum Stage {
    /// The session's credential.
    Authenticating,
    /// The actor behind the handle.
    Resolving,
    /// The thread of the post.
    Fetching,
    /// The creation of the root directory.
    CreatingRoot,
    /// The creation of the post's directory.
    CreatingPostDir,
    /// The writing of the thread as received.
    WritingRaw,
    /// The content of the next media.
    FetchingMedia,
    /// The writing of that content.
    WritingMedia,
    /// The answer of the public web archive.
    Mirroring,
    /// Nothing: the run is over.
    Finished,
}

/// What came of the action that the driver performed.
#[derive(Debug, Clone)]
pub enum Event {
    /// The service opened a session.
    Session(SessionCredential),
    /// The service resolved the handle.
    Actor(ActorIdentifier),
    /// The service answered the thread: the bytes as received, and what they say.
    Thread { raw: Vec<u8>, view: ThreadView },
    /// The service answered a media content.
    Content(Vec<u8>),
    /// The directory was created, the file was written, or the web archive was asked.
    Completed,
    /// The directory or file to create exists already.
    AlreadyExists,
    /// The request could not be sent or its answer not received.
    TransportFailed,
    /// The answer did not have the expected shape.
    Malformed,
    /// The directory or file could not be created or written.
    IoFailed,
}

/// What the driver is to do next.
#[derive(Debug, PartialEq, Eq)]
pub enum Action {
    /// Send `body` to `url` and report the session.
    CreateSession { url: String, body: String },
    /// Request `url` and report the actor that it answers.
    ResolveHandle { url: String },
    /// Request `url` with the credential `bearer` and report the thread.
    FetchThread { url: String, bearer: String },
    /// Request `url`, with the credential `bearer` where there is one, and
    /// report the content.
    FetchBlob { url: String, bearer: Option<String> },
    /// Create the directory `path`; report `AlreadyExists` where it exists.
    CreateDir { path: String },
    /// Create the file `path` with `content`; report `AlreadyExists` where it exists.
    CreateNewFile { path: String, content: Vec<u8> },
    /// Write `content` to the file `path`, over what it held.
    WriteFile { path: String, content: Vec<u8> },
    /// Request `url` at the public web archive; whatever comes of it is `Completed`.
    Mirror { url: String },
    /// Stop: the run ended this way.
    Finish(Result<(), Errors>),
}

/// An action as plain texts and bytes.
pub enum ActionView {
    CreateSession { url: Seq<char>, body: Seq<char> },
    ResolveHandle { url: Seq<char> },
    FetchThread { url: Seq<char>, bearer: Seq<char> },
    FetchBlob { url: Seq<char>, bearer: Option<Seq<char>> },
    CreateDir { path: Seq<char> },
    CreateNewFile { path: Seq<char>, content: Seq<u8> },
    WriteFile { path: Seq<char>, content: Seq<u8> },
    Mirror { url: Seq<char> },
    Finish(Result<(), Errors>),
}

impl View for Action {
    type V = ActionView;

    open spec fn view(&self) -> ActionView {
        match *self {
            Action::CreateSession { url, body } => ActionView::CreateSession {
                url: url@,
                body: body@,
            },
            Action::ResolveHandle { url } => ActionView::ResolveHandle { url: url@ },
            Action::FetchThread { url, bearer } => ActionView::FetchThread {
                url: url@,
                bearer: bearer@,
            },
            Action::FetchBlob { url, bearer } => ActionView::FetchBlob {
                url: url@,
                bearer: match bearer {
                    Some(token) => Some(token@),
                    None => None,
                },
            },
            Action::CreateDir { path } => ActionView::CreateDir { path: path@ },
            Action::CreateNewFile { path, content } => ActionView::CreateNewFile {
                path: path@,
                content: content@,
            },
            Action::WriteFile { path, content } => ActionView::WriteFile {
                path: path@,
                content: content@,
            },
            Action::Mirror { url } => ActionView::Mirror { url: url@ },
            Action::Finish(outcome) => ActionView::Finish(outcome),
        }
    }
}

impl ActionView {
    /// Whether the action sends a request over the network.
    pub open spec fn is_request(self) -> bool {
        self is CreateSession || self is ResolveHandle || self is FetchThread || self is FetchBlob
            || self is Mirror
    }

    /// Whether the action creates or writes a directory or file.
    pub open spec fn is_write(self) -> bool {
        self is CreateDir || self is CreateNewFile || self is WriteFile
    }
}

/// The state of a run as plain values.
pub struct Model {
    pub stage: Stage,
    pub url: Seq<char>,
    pub identifier: Seq<char>,
    pub secret: Seq<char>,
    pub root_exists: bool,
    pub handle: Seq<char>,
    pub record_key: Seq<char>,
    pub token: Seq<char>,
    pub did: Seq<char>,
    /// The thread as received, until it is handed out for writing.
    pub raw: Seq<u8>,
    pub downloads: Seq<DownloadView>,
    /// How many of the downloads are stored.
    pub next: nat,
    pub video_missing: bool,
    /// How the run ended, once it is over.
    pub outcome: Result<(), Errors>,
}

/// The state of a run.
#[derive(Debug)]
pub struct Pipeline {
    pub stage: Stage,
    pub post: Post,
    pub reference: PostReference,
    pub token: String,
    pub did: String,
    pub raw: Vec<u8>,
    pub downloads: Vec<Download>,
    pub next: usize,
    pub video_missing: bool,
    pub outcome: Result<(), Errors>,
}

impl View for Pipeline {
    type V = Model;

    open spec fn view(&self) -> Model {
        Model {
            stage: self.stage,
            url: self.post.info.url@,
            identifier: self.post.info.username@,
            secret: self.post.info.password@,
            root_exists: self.post.posts_dir_exists,
            handle: self.reference.handle@,
            record_key: self.reference.record_key@,
            token: self.token@,
            did: self.did@,
            raw: self.raw@,
            downloads: downloads_view(self.downloads@),
            next: self.next as nat,
            video_missing: self.video_missing,
            outcome: self.outcome,
        }
    }
}

/// The downloads that the record `record` of the actor `did` asks for.
pub open spec fn record_downloads(
    did: Seq<char>,
    record_key: Seq<char>,
    record: Record,
) -> Seq<DownloadView> {
    match record.embed {
        Some(embed) => planned_downloads(did, record_key, embed),
        None => Seq::empty(),
    }
}

/// Whether the record embeds a video without a reference.
pub open spec fn record_video_missing(record: Record) -> bool {
    match record.embed {
        Some(embed) => video_reference_missing(embed),
        None => false,
    }
}

impl Model {
    /// The state before anything is known but the request.
    pub open spec fn initial(post: Post) -> Model {
        Model {
            stage: Stage::Finished,
            url: post.info.url@,
            identifier: post.info.username@,
            secret: post.info.password@,
            root_exists: post.posts_dir_exists,
            handle: Seq::empty(),
            record_key: Seq::empty(),
            token: Seq::empty(),
            did: Seq::empty(),
            raw: Seq::empty(),
            downloads: Seq::empty(),
            next: 0,
            video_missing: false,
            outcome: Ok(()),
        }
    }

    /// The run ends with `error`.
    pub open spec fn failed(self, error: Errors) -> (Model, ActionView) {
        (
            Model { stage: Stage::Finished, outcome: Err(error), ..self },
            ActionView::Finish(Err(error)),
        )
    }

    /// The run asks the public web archive for a copy.
    pub open spec fn mirrored(self) -> (Model, ActionView) {
        (
            Model { stage: Stage::Mirroring, ..self },
            ActionView::Mirror { url: mirror_address(self.url) },
        )
    }

    /// The run asks for the post's directory.
    pub open spec fn post_dir_asked(self) -> (Model, ActionView) {
        (
            Model { stage: Stage::CreatingPostDir, ..self },
            ActionView::CreateDir { path: post_dir(self.record_key) },
        )
    }

    /// The run goes on after the stored downloads: with the next download,
    /// or, where none is left, with the failure for want of the video's
    /// reference or with the request to the web archive.
    pub open spec fn advanced(self) -> (Model, ActionView) {
        if self.next < self.downloads.len() {
            let download = self.downloads[self.next as int];
            (
                Model { stage: Stage::FetchingMedia, ..self },
                ActionView::FetchBlob {
                    url: download.url,
                    bearer: if download.authenticated {
                        Some(self.token)
                    } else {
                        None
                    },
                },
            )
        } else if self.video_missing {
            self.failed(Errors::MediaReferenceMissing)
        } else {
            self.mirrored()
        }
    }

    /// The first state and action of the run for `post`: without a post
    /// reference in the address the run is over before any request.
    pub open spec fn start(post: Post) -> (Model, ActionView) {
        match post_reference_of(post.info.url@) {
            None => Self::initial(post).failed(Errors::InputFormat),
            Some((handle, record_key)) => (
                Model {
                    stage: Stage::Authenticating,
                    handle,
                    record_key,
                    ..Self::initial(post)
                },
                ActionView::CreateSession {
                    url: session_address(),
                    body: session_request(post.info.username@, post.info.password@),
                },
            ),
        }
    }

    /// The state and action that follow when the driver reports `event`.
    pub open spec fn step(self, event: Event) -> (Model, ActionView) {
        match self.stage {
            Stage::Authenticating => match event {
                Event::Session(credential) => (
                    Model { stage: Stage::Resolving, token: credential.access_token@, ..self },
                    ActionView::ResolveHandle { url: resolve_address(self.handle) },
                ),
                Event::TransportFailed | Event::Malformed => self.failed(Errors::Authentication),
                _ => self.failed(Errors::UnexpectedEvent),
            },
            Stage::Resolving => match event {
                Event::Actor(actor) => (
                    Model { stage: Stage::Fetching, did: actor.did@, ..self },
                    ActionView::FetchThread {
                        url: thread_address(actor.did@, self.record_key),
                        bearer: self.token,
                    },
                ),
                Event::TransportFailed => self.failed(Errors::Transport),
                Event::Malformed => self.failed(Errors::Resolution),
                _ => self.failed(Errors::UnexpectedEvent),
            },
            Stage::Fetching => match event {
                Event::Thread { raw, view } => match view.spec_record() {
                    None => self.mirrored(),
                    Some(record) => {
                        let planned = Model {
                            raw: raw@,
                            downloads: record_downloads(self.did, self.record_key, record),
                            next: 0,
                            video_missing: record_video_missing(record),
                            ..self
                        };
                        if self.root_exists {
                            planned.post_dir_asked()
                        } else {
                            (
                                Model { stage: Stage::CreatingRoot, ..planned },
                                ActionView::CreateDir { path: root_dir() },
                            )
                        }
                    },
                },
                Event::TransportFailed => self.failed(Errors::Transport),
                Event::Malformed => self.failed(Errors::Deserialization),
                _ => self.failed(Errors::UnexpectedEvent),
            },
            Stage::CreatingRoot => match event {
                Event::Completed => self.post_dir_asked(),
                Event::AlreadyExists | Event::IoFailed => self.failed(Errors::Filesystem),
                _ => self.failed(Errors::UnexpectedEvent),
            },
            Stage::CreatingPostDir => match event {
                Event::Completed => (
                    Model { stage: Stage::WritingRaw, raw: Seq::empty(), ..self },
                    ActionView::CreateNewFile {
                        path: raw_path(self.record_key),
                        content: self.raw,
                    },
                ),
                Event::AlreadyExists => self.failed(Errors::AlreadyArchived),
                Event::IoFailed => self.failed(Errors::Filesystem),
                _ => self.failed(Errors::UnexpectedEvent),
            },
            Stage::WritingRaw => match event {
                Event::Completed => self.advanced(),
                Event::AlreadyExists | Event::IoFailed => self.failed(Errors::Filesystem),
                _ => self.failed(Errors::UnexpectedEvent),
            },
            Stage::FetchingMedia => match event {
                Event::Content(content) => if self.next < self.downloads.len() {
                    (
                        Model { stage: Stage::WritingMedia, ..self },
                        ActionView::WriteFile {
                            path: self.downloads[self.next as int].path,
                            content: content@,
                        },
                    )
                } else {
                    self.failed(Errors::UnexpectedEvent)
                },
                Event::TransportFailed => self.failed(Errors::Transport),
                _ => self.failed(Errors::UnexpectedEvent),
            },
            Stage::WritingMedia => match event {
                Event::Completed => if self.next < self.downloads.len() {
                    Model { next: self.next + 1, ..self }.advanced()
                } else {
                    self.failed(Errors::UnexpectedEvent)
                },
                Event::IoFailed => self.failed(Errors::Filesystem),
                _ => self.failed(Errors::UnexpectedEvent),
            },
            Stage::Mirroring => (
                Model { stage: Stage::Finished, outcome: Ok(()), ..self },
                ActionView::Finish(Ok(())),
            ),
            Stage::Finished => (self, ActionView::Finish(self.outcome)),
        }
    }

    /// The state of the run after the driver reported `events` in turn.
    pub open spec fn after(self, events: Seq<Event>) -> Model
        decreases events.len(),
    {
        if events.len() == 0 {
            self
        } else {
            self.step(events[0]).0.after(events.drop_first())
        }
    }

    /// How many of the planned downloads are not stored yet.
    pub open spec fn left(self) -> nat {
        if self.next < self.downloads.len() {
            (self.downloads.len() - self.next) as nat
        } else {
            0
        }
    }

    /// How many answers of the service the run still needs before it knows
    /// what to store.
    pub open spec fn phase(self) -> nat {
        match self.stage {
            Stage::Authenticating => 3,
            Stage::Resolving => 2,
            Stage::Fetching => 1,
            _ => 0,
        }
    }

    /// A bound on the number of events after which a run that knows what to
    /// store is over.
    pub open spec fn distance(self) -> nat {
        match self.stage {
            Stage::CreatingRoot => 2 * self.left() + 6,
            Stage::CreatingPostDir => 2 * self.left() + 5,
            Stage::WritingRaw => 2 * self.left() + 4,
            Stage::FetchingMedia => 2 * self.left() + 3,
            Stage::WritingMedia => 2 * self.left() + 2,
            Stage::Mirroring => 1,
            _ => 0,
        }
    }

    /// Whether every request of `action` that carries a credential carries `token`.
    pub open spec fn carries_only(action: ActionView, token: Seq<char>) -> bool {
        match action {
            ActionView::FetchThread { url, bearer } => bearer == token,
            ActionView::FetchBlob { url, bearer: Some(credential) } => credential == token,
            _ => true,
        }
    }

    /// The actions that the run hands out, one for each of `events` in turn.
    pub open spec fn run(self, events: Seq<Event>) -> Seq<ActionView>
        decreases events.len(),
    {
        if events.len() == 0 {
            Seq::empty()
        } else {
            let (next, action) = self.step(events[0]);
            seq![action] + next.run(events.drop_first())
        }
    }
}

impl Pipeline {
    fn fail(self, error: Errors) -> (next: (Pipeline, Action))
        ensures
            (next.0@, next.1@) == self@.failed(error),
    {
        let mut pipeline = self;
        pipeline.stage = Stage::Finished;
        pipeline.outcome = Err(error);
        (pipeline, Action::Finish(Err(error)))
    }

    fn mirror(self) -> (next: (Pipeline, Action))
        ensures
            (next.0@, next.1@) == self@.mirrored(),
    {
        let mut pipeline = self;
        pipeline.stage = Stage::Mirroring;
        let url = mirror_url(pipeline.post.info.url.as_str());
        (pipeline, Action::Mirror { url })
    }

    fn ask_post_dir(self) -> (next: (Pipeline, Action))
        ensures
            (next.0@, next.1@) == self@.post_dir_asked(),
    {
        let mut pipeline = self;
        pipeline.stage = Stage::CreatingPostDir;
        let path = post_directory(pipeline.reference.record_key.as_str());
        (pipeline, Action::CreateDir { path })
    }

    fn advance(self) -> (next: (Pipeline, Action))
        ensures
            (next.0@, next.1@) == self@.advanced(),
    {
        if self.next < self.downloads.len() {
            let mut pipeline = self;
            pipeline.stage = Stage::FetchingMedia;
            let url = pipeline.downloads[pipeline.next].url.clone();
            let bearer = if pipeline.downloads[pipeline.next].authenticated {
                Some(pipeline.token.clone())
            } else {
                None
            };
            (pipeline, Action::FetchBlob { url, bearer })
        } else if self.video_missing {
            self.fail(Errors::MediaReferenceMissing)
        } else {
            self.mirror()
        }
    }

    /// Begins the run for `post`. Where the address names no post, the run
    /// ends here with `InputFormat`; else the first action opens the session.
    pub fn start(post: Post) -> (next: (Pipeline, Action))
        ensures
            (next.0@, next.1@) == Model::start(post),
    {
        match extract_post_reference(post.info.url.as_str()) {
            None => {
                let pipeline = Pipeline {
                    stage: Stage::Finished,
                    post,
                    reference: PostReference { handle: String::new(), record_key: String::new() },
                    token: String::new(),
                    did: String::new(),
                    raw: Vec::new(),
                    downloads: Vec::new(),
                    next: 0,
                    video_missing: false,
                    outcome: Ok(()),
                };
                assert(downloads_view(pipeline.downloads@) =~= Seq::empty());
                pipeline.fail(Errors::InputFormat)
            },
            Some(reference) => {
                let action = Action::CreateSession {
                    url: session_url(),
                    body: session_body(post.info.username.as_str(), post.info.password.as_str()),
                };
                let pipeline = Pipeline {
                    stage: Stage::Authenticating,
                    post,
                    reference,
                    token: String::new(),
                    did: String::new(),
                    raw: Vec::new(),
                    downloads: Vec::new(),
                    next: 0,
                    video_missing: false,
                    outcome: Ok(()),
                };
                assert(downloads_view(pipeline.downloads@) =~= Seq::empty());
                (pipeline, action)
            },
        }
    }

    /// Takes what the driver reports and hands out the next action.
    pub fn step(self, event: Event) -> (next: (Pipeline, Action))
        ensures
            (next.0@, next.1@) == self@.step(event),
    {
        match self.stage {
            Stage::Authenticating => match event {
                Event::Session(credential) => {
                    let mut pipeline = self;
                    pipeline.stage = Stage::Resolving;
                    pipeline.token = credential.access_token;
                    let url = resolve_url(pipeline.reference.handle.as_str());
                    (pipeline, Action::ResolveHandle { url })
                },
                Event::TransportFailed | Event::Malformed => self.fail(Errors::Authentication),
                _ => self.fail(Errors::UnexpectedEvent),
            },
            Stage::Resolving => match event {
                Event::Actor(actor) => {
                    let mut pipeline = self;
                    pipeline.stage = Stage::Fetching;
                    pipeline.did = actor.did;
                    let url = thread_url(
                        pipeline.did.as_str(),
                        pipeline.reference.record_key.as_str(),
                    );
                    let bearer = pipeline.token.clone();
                    (pipeline, Action::FetchThread { url, bearer })
                },
                Event::TransportFailed => self.fail(Errors::Transport),
                Event::Malformed => self.fail(Errors::Resolution),
                _ => self.fail(Errors::UnexpectedEvent),
            },
            Stage::Fetching => match event {
                Event::Thread { raw, view } => match view.record() {
                    None => self.mirror(),
                    Some(record) => {
                        let plan = match &record.embed {
                            Some(embed) => plan_media(
                                self.did.as_str(),
                                self.reference.record_key.as_str(),
                                embed,
                            ),
                            None => MediaPlan { downloads: Vec::new(), video_missing: false },
                        };
                        assert(downloads_view(plan.downloads@) =~= record_downloads(
                            self.did@,
                            self.reference.record_key@,
                            *record,
                        ));
                        let mut pipeline = self;
                        pipeline.raw = raw;
                        pipeline.downloads = plan.downloads;
                        pipeline.next = 0;
                        pipeline.video_missing = plan.video_missing;
                        if pipeline.post.posts_dir_exists {
                            pipeline.ask_post_dir()
                        } else {
                            pipeline.stage = Stage::CreatingRoot;
                            (pipeline, Action::CreateDir { path: root_directory() })
                        }
                    },
                },
                Event::TransportFailed => self.fail(Errors::Transport),
                Event::Malformed => self.fail(Errors::Deserialization),
                _ => self.fail(Errors::UnexpectedEvent),
            },
            Stage::CreatingRoot => match event {
                Event::Completed => self.ask_post_dir(),
                Event::AlreadyExists | Event::IoFailed => self.fail(Errors::Filesystem),
                _ => self.fail(Errors::UnexpectedEvent),
            },
            Stage::CreatingPostDir => match event {
                Event::Completed => {
                    let Pipeline {
                        stage: _,
                        post,
                        reference,
                        token,
                        did,
                        raw,
                        downloads,
                        next,
                        video_missing,
                        outcome,
                    } = self;
                    let path = raw_file(reference.record_key.as_str());
                    let pipeline = Pipeline {
                        stage: Stage::WritingRaw,
                        post,
                        reference,
                        token,
                        did,
                        raw: Vec::new(),
                        downloads,
                        next,
                        video_missing,
                        outcome,
                    };
                    (pipeline, Action::CreateNewFile { path, content: raw })
                },
                Event::AlreadyExists => self.fail(Errors::AlreadyArchived),
                Event::IoFailed => self.fail(Errors::Filesystem),
                _ => self.fail(Errors::UnexpectedEvent),
            },
            Stage::WritingRaw => match event {
                Event::Completed => self.advance(),
                Event::AlreadyExists | Event::IoFailed => self.fail(Errors::Filesystem),
                _ => self.fail(Errors::UnexpectedEvent),
            },
            Stage::FetchingMedia => match event {
                Event::Content(content) => {
                    if self.next < self.downloads.len() {
                        let mut pipeline = self;
                        pipeline.stage = Stage::WritingMedia;
                        let path = pipeline.downloads[pipeline.next].path.clone();
                        (pipeline, Action::WriteFile { path, content })
                    } else {
                        self.fail(Errors::UnexpectedEvent)
                    }
                },
                Event::TransportFailed => self.fail(Errors::Transport),
                _ => self.fail(Errors::UnexpectedEvent),
            },
            Stage::WritingMedia => match event {
                Event::Completed => {
                    if self.next < self.downloads.len() {
                        let mut pipeline = self;
                        pipeline.next = pipeline.next + 1;
                        pipeline.advance()
                    } else {
                        self.fail(Errors::UnexpectedEvent)
                    }
                },
                Event::IoFailed => self.fail(Errors::Filesystem),
                _ => self.fail(Errors::UnexpectedEvent),
            },
            Stage::Mirroring => {
                let mut pipeline = self;
                pipeline.stage = Stage::Finished;
                pipeline.outcome = Ok(());
                (pipeline, Action::Finish(Ok(())))
            },
            Stage::Finished => {
                let outcome = self.outcome;
                (self, Action::Finish(outcome))
            },
        }
    }

    /// Whether the run is over.
    pub fn is_finished(&self) -> (over: bool)
        ensures
            over == (self@.stage == Stage::Finished),
    {
        match self.stage {
            Stage::Finished => true,
            _ => false,
        }
    }
}

/// Once a run is over it stays over: whatever is reported to it, it hands
/// out its outcome again, and so neither requests nor writes anything.
pub proof fn finished_run_stays_finished(model: Model, events: Seq<Event>)
    requires
        model.stage == Stage::Finished,
    ensures
        model.run(events).len() == events.len(),
        forall|i: int|
            0 <= i < events.len() ==> #[trigger] model.run(events)[i] == ActionView::Finish(
                model.outcome,
            ),
    decreases events.len(),
{
    if events.len() > 0 {
        finished_run_stays_finished(model, events.drop_first());
    }
}

/// A run for an address that names no post ends at its start with
/// `InputFormat`, and never sends a request or writes a file, whatever is
/// reported to it afterwards.
pub proof fn no_post_no_request(post: Post, events: Seq<Event>)
    requires
        !names_post(post.info.url@),
    ensures
        Model::start(post).1 == ActionView::Finish(Err(Errors::InputFormat)),
        Model::start(post).0.run(events).len() == events.len(),
        forall|i: int|
            0 <= i < events.len() ==> {
                let action = #[trigger] Model::start(post).0.run(events)[i];
                !action.is_request() && !action.is_write()
            },
{
    finished_run_stays_finished(Model::start(post).0, events);
}

/// Where the post's directory exists already, the run ends with
/// `AlreadyArchived`, and nothing is written afterwards: the stored thread
/// of the earlier run stays as it is.
pub proof fn existing_directory_is_conflict(model: Model, events: Seq<Event>)
    requires
        model.stage == Stage::CreatingPostDir,
    ensures
        model.step(Event::AlreadyExists).1 == ActionView::Finish(Err(Errors::AlreadyArchived)),
        model.step(Event::AlreadyExists).0.run(events).len() == events.len(),
        forall|i: int|
            0 <= i < events.len() ==> {
                let action = #[trigger] model.step(Event::AlreadyExists).0.run(events)[i];
                !action.is_request() && !action.is_write()
            },
{
    finished_run_stays_finished(model.step(Event::AlreadyExists).0, events);
}

/// Where the thread has no post, or the post no record, the run goes
/// straight to the public web archive and then ends with success: no
/// directory is created, no file written and no media fetched.
pub proof fn absent_post_writes_nothing(
    model: Model,
    raw: Vec<u8>,
    view: ThreadView,
    events: Seq<Event>,
)
    requires
        model.stage == Stage::Fetching,
        view.spec_record() is None,
    ensures
        model.step(Event::Thread { raw, view }).1 == (ActionView::Mirror {
            url: mirror_address(model.url),
        }),
        model.step(Event::Thread { raw, view }).0.run(events).len() == events.len(),
        forall|i: int|
            0 <= i < events.len() ==> #[trigger] model.step(Event::Thread { raw, view }).0.run(
                events,
            )[i] == ActionView::Finish(Ok(())),
{
    let mirroring = model.step(Event::Thread { raw, view }).0;
    if events.len() > 0 {
        let over = mirroring.step(events[0]).0;
        finished_run_stays_finished(over, events.drop_first());
    }
}

/// Once the thread has a record, the thread is stored as it was received,
/// whatever the record embeds: the post's directory is asked for, and after
/// it the file of the thread with exactly the bytes that came.
pub proof fn present_record_stores_thread(model: Model, raw: Vec<u8>, view: ThreadView)
    requires
        model.stage == Stage::Fetching,
        model.root_exists,
        view.spec_record() is Some,
    ensures
        model.run(seq![Event::Thread { raw, view }, Event::Completed]) == seq![
            ActionView::CreateDir { path: post_dir(model.record_key) },
            ActionView::CreateNewFile { path: raw_path(model.record_key), content: raw@ },
        ],
{
    let events = seq![Event::Thread { raw, view }, Event::Completed];
    let asked = model.step(events[0]).0;
    let rest = events.drop_first();
    assert(rest[0] == Event::Completed);
    let written = asked.step(rest[0]).0;
    assert(rest.drop_first().len() == 0);
    assert(written.run(rest.drop_first()) =~= Seq::empty());
    assert(asked.run(rest) =~= seq![
        ActionView::CreateNewFile { path: raw_path(model.record_key), content: raw@ },
    ]);
    assert(model.run(events) =~= seq![
        ActionView::CreateDir { path: post_dir(model.record_key) },
        ActionView::CreateNewFile { path: raw_path(model.record_key), content: raw@ },
    ]);
}

/// No step goes back: each one brings the run nearer to its end, by one
/// answer of the service or, once the thread is there, by one action on the
/// way through the downloads. Nothing is asked twice.
pub proof fn step_makes_progress(model: Model, event: Event)
    requires
        model.stage != Stage::Finished,
    ensures
        model.step(event).0.phase() < model.phase() || (model.step(event).0.phase()
            == model.phase() && model.step(event).0.distance() < model.distance()),
{
}

/// A run that knows what to store is over after as many events as its
/// distance says, whatever they are.
pub proof fn run_ends(model: Model, events: Seq<Event>)
    requires
        model.phase() == 0,
        events.len() >= model.distance(),
    ensures
        model.after(events).stage == Stage::Finished,
    decreases events.len(),
{
    if events.len() > 0 {
        let next = model.step(events[0]).0;
        if model.stage != Stage::Finished {
            step_makes_progress(model, events[0]);
        }
        run_ends(next, events.drop_first());
    }
}

/// After the session is open, every request that carries a credential
/// carries the one that the session gave.
pub proof fn credential_is_the_sessions(model: Model, events: Seq<Event>)
    requires
        model.stage != Stage::Authenticating,
    ensures
        model.run(events).len() == events.len(),
        forall|i: int|
            0 <= i < events.len() ==> Model::carries_only(
                #[trigger] model.run(events)[i],
                model.token,
            ),
    decreases events.len(),
{
    if events.len() > 0 {
        let next = model.step(events[0]).0;
        credential_is_the_sessions(next, events.drop_first());
    }
}

/// Every failure ends the run: the action that reports it is `Finish`, and
/// the state after it is `Finished` with that failure as the outcome.
pub proof fn failure_ends_run(model: Model, event: Event, error: Errors)
    requires
        model.stage != Stage::Finished,
        model.step(event).1 == ActionView::Finish(Err(error)),
    ensures
        model.step(event).0.stage == Stage::Finished,
        model.step(event).0.outcome == Err::<(), Errors>(error),
{
}

} // verus!
