use vstd::prelude::*;
use vstd::string::{StrSliceExecFns, StringSliceAdditionalSpecFns};

use crate::guard::guard;
use crate::paths::{descends, join, join_spec};
use crate::resolve::{resolve, resolve_spec, ResolvedTarget, TargetView, HTML_CONTENT_TYPE};

verus! {

/// Landing page served for `/` while the pages root has no `index.html`.
pub const DEFAULT_INDEX_PAGE: &'static str = "<!DOCTYPE html>\n<html>\n<head><meta charset=\"utf-8\"><title>Lime</title></head>\n<body>\n<h1>Lime is running</h1>\n<p>Put an <code>index.html</code> in the pages directory to replace this page.</p>\n</body>\n</html>\n";

/// Built-in page for a request that matches no file.
pub const NOT_FOUND_PAGE: &'static str = "<!DOCTYPE html>\n<html>\n<head><meta charset=\"utf-8\"><title>Not found</title></head>\n<body>\n<h1>404</h1>\n<p>The page you asked for does not exist.</p>\n</body>\n</html>\n";

/// Built-in page for a file that exists but could not be served.
pub const INTERNAL_ERROR_PAGE: &'static str = "<!DOCTYPE html>\n<html>\n<head><meta charset=\"utf-8\"><title>Server error</title></head>\n<body>\n<h1>500</h1>\n<p>The server could not serve this page.</p>\n</body>\n</html>\n";

/// Name, under the request's root, of the page that replaces the built-in 404 page.
pub const NOT_FOUND_OVERRIDE: &'static str = "not-found.html";

/// Name, under the request's root, of the page that replaces the built-in 500 page.
pub const INTERNAL_ERROR_OVERRIDE: &'static str = "internal-error.html";

/// The two roots that bound every file access.
pub struct AppState {
    pub pages_dir: String,
    pub static_dir: String,
}

/// Which fallback page a request ends on.
#[derive(Debug, Clone, Copy, PartialEq, Eq, Structural)]
pub enum Fallback {
    NotFound,
    InternalError,
}

/// How a request ends.
pub enum Outcome {
    /// 200 with the file's content.
    Served { content_type: String, body: Vec<u8> },
    /// 200 with the built-in landing page.
    DefaultIndex,
    /// 404 with the override page or the built-in one.
    NotFound { body: Vec<u8> },
    /// 500 with the override page or the built-in one.
    InternalError { body: Vec<u8> },
}

/// `Outcome` with its strings and bodies as sequences.
pub enum OutcomeView {
    Served { content_type: Seq<char>, body: Seq<u8> },
    DefaultIndex,
    NotFound { body: Seq<u8> },
    InternalError { body: Seq<u8> },
}

impl View for Outcome {
    type V = OutcomeView;

    open spec fn view(&self) -> OutcomeView {
        match self {
            Outcome::Served { content_type, body } => OutcomeView::Served {
                content_type: content_type@,
                body: body@,
            },
            Outcome::DefaultIndex => OutcomeView::DefaultIndex,
            Outcome::NotFound { body } => OutcomeView::NotFound { body: body@ },
            Outcome::InternalError { body } => OutcomeView::InternalError { body: body@ },
        }
    }
}

/// What the caller must do next on the request's behalf.
pub enum Action {
    /// Answer `Event::Exists`: whether this file exists.
    Probe(String),
    /// Answer `Event::Canonical`: the canonical form of this path, if any.
    Canonicalize(String),
    /// Answer `Event::IsDir`: whether this path is a directory, if its
    /// metadata could be read.
    Inspect(String),
    /// Answer `Event::Content`: the file read as UTF-8 text, if that worked.
    ReadText(String),
    /// Answer `Event::Content`: the file's bytes, if they could be read.
    ReadBytes(String),
    /// Answer `Event::Content`: an override page read as UTF-8 text, or
    /// nothing when it is absent or unreadable.
    ReadPage(String),
    /// Send this response; the request is over.
    Respond(Outcome),
}

/// `Action` with its paths as character sequences.
pub enum ActionView {
    Probe(Seq<char>),
    Canonicalize(Seq<char>),
    Inspect(Seq<char>),
    ReadText(Seq<char>),
    ReadBytes(Seq<char>),
    ReadPage(Seq<char>),
    Respond(OutcomeView),
}

impl View for Action {
    type V = ActionView;

    open spec fn view(&self) -> ActionView {
        match self {
            Action::Probe(p) => ActionView::Probe(p@),
            Action::Canonicalize(p) => ActionView::Canonicalize(p@),
            Action::Inspect(p) => ActionView::Inspect(p@),
            Action::ReadText(p) => ActionView::ReadText(p@),
            Action::ReadBytes(p) => ActionView::ReadBytes(p@),
            Action::ReadPage(p) => ActionView::ReadPage(p@),
            Action::Respond(o) => ActionView::Respond(o@),
        }
    }
}

/// The filesystem's answer to the last action.
pub enum Event {
    Exists(bool),
    Canonical(Option<String>),
    IsDir(Option<bool>),
    Content(Option<Vec<u8>>),
}

/// `Event` with its strings and contents as sequences.
pub enum EventView {
    Exists(bool),
    Canonical(Option<Seq<char>>),
    IsDir(Option<bool>),
    Content(Option<Seq<u8>>),
}

impl View for Event {
    type V = EventView;

    open spec fn view(&self) -> EventView {
        match self {
            Event::Exists(b) => EventView::Exists(*b),
            Event::Canonical(c) => EventView::Canonical(
                match c {
                    Some(s) => Some(s@),
                    None => None,
                },
            ),
            Event::IsDir(d) => EventView::IsDir(*d),
            Event::Content(c) => EventView::Content(
                match c {
                    Some(b) => Some(b@),
                    None => None,
                },
            ),
        }
    }
}

/// Where a request stands between two actions.
pub enum Stage {
    /// Waiting to learn whether the index page exists.
    IndexProbe { target: ResolvedTarget },
    /// Waiting for the canonical root.
    RootCanon { target: ResolvedTarget },
    /// Waiting for the canonical candidate; `root` is the canonical root.
    TargetCanon { target: ResolvedTarget, root: String },
    /// Waiting to learn whether `file`, inside `root`, is a directory.
    Inspect { target: ResolvedTarget, root: String, file: String },
    /// Waiting for the content of `file`, inside `root`.
    Read { target: ResolvedTarget, root: String, file: String },
    /// Waiting for an override of the fallback page.
    Page { fallback: Fallback },
    /// The response has been handed out.
    Done,
}

/// `Stage` with its strings as character sequences.
pub enum StageView {
    IndexProbe { target: TargetView },
    RootCanon { target: TargetView },
    TargetCanon { target: TargetView, root: Seq<char> },
    Inspect { target: TargetView, root: Seq<char>, file: Seq<char> },
    Read { target: TargetView, root: Seq<char>, file: Seq<char> },
    Page { fallback: Fallback },
    Done,
}

impl View for Stage {
    type V = StageView;

    open spec fn view(&self) -> StageView {
        match self {
            Stage::IndexProbe { target } => StageView::IndexProbe { target: target@ },
            Stage::RootCanon { target } => StageView::RootCanon { target: target@ },
            Stage::TargetCanon { target, root } => StageView::TargetCanon {
                target: target@,
                root: root@,
            },
            Stage::Inspect { target, root, file } => StageView::Inspect {
                target: target@,
                root: root@,
                file: file@,
            },
            Stage::Read { target, root, file } => StageView::Read {
                target: target@,
                root: root@,
                file: file@,
            },
            Stage::Page { fallback } => StageView::Page { fallback: *fallback },
            Stage::Done => StageView::Done,
        }
    }
}

/// The file under a request's root that replaces a built-in fallback page.
pub open spec fn override_name(k: Fallback) -> Seq<char> {
    match k {
        Fallback::NotFound => NOT_FOUND_OVERRIDE@,
        Fallback::InternalError => INTERNAL_ERROR_OVERRIDE@,
    }
}

/// The bytes of a built-in fallback page.
pub open spec fn builtin_body(k: Fallback) -> Seq<u8> {
    match k {
        Fallback::NotFound => NOT_FOUND_PAGE.spec_bytes(),
        Fallback::InternalError => INTERNAL_ERROR_PAGE.spec_bytes(),
    }
}

/// The outcome of a fallback page with the given body.
pub open spec fn fallback_outcome(k: Fallback, body: Seq<u8>) -> OutcomeView {
    match k {
        Fallback::NotFound => OutcomeView::NotFound { body },
        Fallback::InternalError => OutcomeView::InternalError { body },
    }
}

/// Turning to a fallback page: look for its override under the request's root.
pub open spec fn fallback_spec(k: Fallback, root_dir: Seq<char>) -> (StageView, ActionView) {
    (StageView::Page { fallback: k }, ActionView::ReadPage(join_spec(root_dir, override_name(k))))
}

/// An answer that does not fit the question ends the request with the
/// built-in 500 page.
pub open spec fn mismatch_spec() -> (StageView, ActionView) {
    (
        StageView::Done,
        ActionView::Respond(
            fallback_outcome(Fallback::InternalError, builtin_body(Fallback::InternalError)),
        ),
    )
}

/// The response builder: from a stage and the answer to its action, the
/// next stage and action.
pub open spec fn step_spec(s: StageView, e: EventView) -> (StageView, ActionView) {
    match s {
        StageView::IndexProbe { target } => match e {
            EventView::Exists(true) => (
                StageView::RootCanon { target },
                ActionView::Canonicalize(target.root_dir),
            ),
            EventView::Exists(false) => (
                StageView::Done,
                ActionView::Respond(OutcomeView::DefaultIndex),
            ),
            _ => mismatch_spec(),
        },
        StageView::RootCanon { target } => match e {
            EventView::Canonical(Some(root)) => (
                StageView::TargetCanon { target, root },
                ActionView::Canonicalize(target.path),
            ),
            EventView::Canonical(None) => fallback_spec(Fallback::InternalError, target.root_dir),
            _ => mismatch_spec(),
        },
        StageView::TargetCanon { target, root } => match e {
            EventView::Canonical(Some(file)) => if descends(root, file) {
                (StageView::Inspect { target, root, file }, ActionView::Inspect(file))
            } else {
                fallback_spec(Fallback::NotFound, target.root_dir)
            },
            EventView::Canonical(None) => fallback_spec(Fallback::NotFound, target.root_dir),
            _ => mismatch_spec(),
        },
        StageView::Inspect { target, root, file } => match e {
            EventView::IsDir(Some(false)) => (
                StageView::Read { target, root, file },
                if target.is_text {
                    ActionView::ReadText(file)
                } else {
                    ActionView::ReadBytes(file)
                },
            ),
            EventView::IsDir(_) => fallback_spec(Fallback::NotFound, target.root_dir),
            _ => mismatch_spec(),
        },
        StageView::Read { target, root, file } => match e {
            EventView::Content(Some(body)) => (
                StageView::Done,
                ActionView::Respond(
                    OutcomeView::Served { content_type: target.content_type, body },
                ),
            ),
            EventView::Content(None) => fallback_spec(Fallback::InternalError, target.root_dir),
            _ => mismatch_spec(),
        },
        StageView::Page { fallback } => match e {
            EventView::Content(Some(body)) => (
                StageView::Done,
                ActionView::Respond(fallback_outcome(fallback, body)),
            ),
            EventView::Content(None) => (
                StageView::Done,
                ActionView::Respond(fallback_outcome(fallback, builtin_body(fallback))),
            ),
            _ => mismatch_spec(),
        },
        StageView::Done => mismatch_spec(),
    }
}

fn builtin_page(k: Fallback) -> (r: Vec<u8>)
    ensures
        r@ == builtin_body(k),
{
    match k {
        Fallback::NotFound => NOT_FOUND_PAGE.as_bytes_vec(),
        Fallback::InternalError => INTERNAL_ERROR_PAGE.as_bytes_vec(),
    }
}

fn fallback_outcome_of(k: Fallback, body: Vec<u8>) -> (r: Outcome)
    ensures
        r@ == fallback_outcome(k, body@),
{
    match k {
        Fallback::NotFound => Outcome::NotFound { body },
        Fallback::InternalError => Outcome::InternalError { body },
    }
}

fn fallback(k: Fallback, root_dir: &str) -> (r: (Stage, Action))
    ensures
        (r.0@, r.1@) == fallback_spec(k, root_dir@),
{
    let name = match k {
        Fallback::NotFound => NOT_FOUND_OVERRIDE,
        Fallback::InternalError => INTERNAL_ERROR_OVERRIDE,
    };
    (Stage::Page { fallback: k }, Action::ReadPage(join(root_dir, name)))
}

fn mismatch() -> (r: (Stage, Action))
    ensures
        (r.0@, r.1@) == mismatch_spec(),
{
    let body = builtin_page(Fallback::InternalError);
    (Stage::Done, Action::Respond(Outcome::InternalError { body }))
}

/// Advances a request by one answer of the filesystem.
pub fn step(stage: Stage, event: Event) -> (r: (Stage, Action))
    ensures
        (r.0@, r.1@) == step_spec(stage@, event@),
{
    match stage {
        Stage::IndexProbe { target } => match event {
            Event::Exists(true) => {
                let root_dir = target.root_dir.clone();
                (Stage::RootCanon { target }, Action::Canonicalize(root_dir))
            },
            Event::Exists(false) => (Stage::Done, Action::Respond(Outcome::DefaultIndex)),
            _ => mismatch(),
        },
        Stage::RootCanon { target } => match event {
            Event::Canonical(Some(root)) => {
                let path = target.path.clone();
                (Stage::TargetCanon { target, root }, Action::Canonicalize(path))
            },
            Event::Canonical(None) => fallback(Fallback::InternalError, target.root_dir.as_str()),
            _ => mismatch(),
        },
        Stage::TargetCanon { target, root } => match event {
            Event::Canonical(answer) => match guard(Some(root.clone()), answer) {
                Ok(file) => {
                    let inspected = file.clone();
                    (Stage::Inspect { target, root, file }, Action::Inspect(inspected))
                },
                Err(_) => fallback(Fallback::NotFound, target.root_dir.as_str()),
            },
            _ => mismatch(),
        },
        Stage::Inspect { target, root, file } => match event {
            Event::IsDir(Some(false)) => {
                let read = file.clone();
                let action = if target.is_text {
                    Action::ReadText(read)
                } else {
                    Action::ReadBytes(read)
                };
                (Stage::Read { target, root, file }, action)
            },
            Event::IsDir(_) => fallback(Fallback::NotFound, target.root_dir.as_str()),
            _ => mismatch(),
        },
        Stage::Read { target, root, file } => match event {
            Event::Content(Some(body)) => (
                Stage::Done,
                Action::Respond(Outcome::Served { content_type: target.content_type, body }),
            ),
            Event::Content(None) => fallback(Fallback::InternalError, target.root_dir.as_str()),
            _ => mismatch(),
        },
        Stage::Page { fallback } => match event {
            Event::Content(Some(body)) => (
                Stage::Done,
                Action::Respond(fallback_outcome_of(fallback, body)),
            ),
            Event::Content(None) => {
                let body = builtin_page(fallback);
                (Stage::Done, Action::Respond(fallback_outcome_of(fallback, body)))
            },
            _ => mismatch(),
        },
        Stage::Done => mismatch(),
    }
}

/// 200 for content and the landing page, 404 and 500 for the fallbacks.
pub open spec fn status_spec(o: OutcomeView) -> u16 {
    match o {
        OutcomeView::Served { .. } => 200,
        OutcomeView::DefaultIndex => 200,
        OutcomeView::NotFound { .. } => 404,
        OutcomeView::InternalError { .. } => 500,
    }
}

/// The file's content type, or the HTML type for built-in and fallback pages.
pub open spec fn content_type_spec(o: OutcomeView) -> Seq<char> {
    match o {
        OutcomeView::Served { content_type, .. } => content_type,
        _ => HTML_CONTENT_TYPE@,
    }
}

/// The bytes sent as the response body.
pub open spec fn body_spec(o: OutcomeView) -> Seq<u8> {
    match o {
        OutcomeView::Served { body, .. } => body,
        OutcomeView::DefaultIndex => DEFAULT_INDEX_PAGE.spec_bytes(),
        OutcomeView::NotFound { body } => body,
        OutcomeView::InternalError { body } => body,
    }
}

impl Outcome {
    /// The HTTP status of this outcome.
    pub fn status(&self) -> (r: u16)
        ensures
            r == status_spec(self@),
    {
        match self {
            Outcome::Served { .. } => 200,
            Outcome::DefaultIndex => 200,
            Outcome::NotFound { .. } => 404,
            Outcome::InternalError { .. } => 500,
        }
    }

    /// Status, `Content-Type` and body of the response.
    pub fn into_parts(self) -> (r: (u16, String, Vec<u8>))
        ensures
            r.0 == status_spec(self@),
            r.1@ == content_type_spec(self@),
            r.2@ == body_spec(self@),
    {
        let status = self.status();
        match self {
            Outcome::Served { content_type, body } => (status, content_type, body),
            Outcome::DefaultIndex => (
                status,
                String::from_str(HTML_CONTENT_TYPE),
                DEFAULT_INDEX_PAGE.as_bytes_vec(),
            ),
            Outcome::NotFound { body } => (status, String::from_str(HTML_CONTENT_TYPE), body),
            Outcome::InternalError { body } => (
                status,
                String::from_str(HTML_CONTENT_TYPE),
                body,
            ),
        }
    }
}

impl AppState {
    /// The state for a pages root and a static root.
    pub fn new(pages_dir: &str, static_dir: &str) -> (r: AppState)
        ensures
            r.pages_dir@ == pages_dir@,
            r.static_dir@ == static_dir@,
    {
        AppState { pages_dir: String::from_str(pages_dir), static_dir: String::from_str(static_dir) }
    }
}

/// `/` always looks for `index.html` under the pages root first.
pub open spec fn index_start_spec(pages_dir: Seq<char>) -> (StageView, ActionView) {
    let path = join_spec(pages_dir, "index.html"@);
    (
        StageView::IndexProbe {
            target: TargetView {
                root_dir: pages_dir,
                path,
                is_text: true,
                content_type: HTML_CONTENT_TYPE@,
            },
        },
        ActionView::Probe(path),
    )
}

/// Any other path is resolved, then its root canonicalized.
pub open spec fn wildcard_start_spec(p: Seq<char>, pages_dir: Seq<char>, static_dir: Seq<char>) -> (
    StageView,
    ActionView,
) {
    let target = resolve_spec(p, pages_dir, static_dir);
    (StageView::RootCanon { target }, ActionView::Canonicalize(target.root_dir))
}

/// Starts a request for `/`.
pub fn handle_index(state: &AppState) -> (r: (Stage, Action))
    ensures
        (r.0@, r.1@) == index_start_spec(state.pages_dir@),
{
    let path = join(state.pages_dir.as_str(), "index.html");
    let probe = path.clone();
    let target = ResolvedTarget {
        root_dir: state.pages_dir.clone(),
        path,
        is_text: true,
        content_type: String::from_str(HTML_CONTENT_TYPE),
    };
    (Stage::IndexProbe { target }, Action::Probe(probe))
}

/// Starts a request for any path but `/`.
pub fn handle_wildcard(path: &str, state: &AppState) -> (r: (Stage, Action))
    ensures
        (r.0@, r.1@) == wildcard_start_spec(path@, state.pages_dir@, state.static_dir@),
{
    let target = resolve(path, state.pages_dir.as_str(), state.static_dir.as_str());
    let root_dir = target.root_dir.clone();
    (Stage::RootCanon { target }, Action::Canonicalize(root_dir))
}

/// A stage that holds a file to be inspected or read holds it only once it
/// has been found inside the canonical root.
pub open spec fn stage_inv(s: StageView) -> bool {
    match s {
        StageView::Inspect { root, file, .. } => descends(root, file),
        StageView::Read { root, file, .. } => descends(root, file),
        _ => true,
    }
}

/// No request reads a file outside its root: every stage that a request
/// starts in or reaches keeps its file inside the canonical root, a read of
/// the requested file names exactly such a file, and a 200 with file content
/// carries what was read for it. This holds whatever path was requested
/// (`..`, encoded or absolute segments) and whatever the filesystem answers.
pub proof fn lemma_reads_stay_inside_root(s: StageView, e: EventView)
    requires
        stage_inv(s),
    ensures
        stage_inv(step_spec(s, e).0),
        step_spec(s, e).1 is ReadText ==> s is Inspect && step_spec(s, e).1->ReadText_0
            == s->Inspect_file && descends(s->Inspect_root, s->Inspect_file),
        step_spec(s, e).1 is ReadBytes ==> s is Inspect && step_spec(s, e).1->ReadBytes_0
            == s->Inspect_file && descends(s->Inspect_root, s->Inspect_file),
        step_spec(s, e).1 is Respond && step_spec(s, e).1->Respond_0 is Served ==> s is Read
            && e == EventView::Content(Some(step_spec(s, e).1->Respond_0->Served_body)),
{
}

/// Requests start in a stage that holds no file yet.
pub proof fn lemma_start_stages(p: Seq<char>, pages_dir: Seq<char>, static_dir: Seq<char>)
    ensures
        stage_inv(index_start_spec(pages_dir).0),
        stage_inv(wildcard_start_spec(p, pages_dir, static_dir).0),
{
}

} // verus!
