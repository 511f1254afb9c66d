//! The classifier as a state machine. A state says which probe it waits for;
//! the driver performs the probe and hands its answer to `advance`, which
//! gives the messages to show and the next state.
use crate::census::{tallied, tally};
use crate::model::{
    CanonProbe, Category, Deletable, EntryKind, Failure, Fatal, LineProbe, LinkProbe,
    ListingProbe, MetadataProbe, Notice, Outcome, RemovalProbe,
};
use vstd::prelude::*;

verus! {

/// Where the classification stands.
#[derive(Debug, PartialEq, Eq)]
pub enum State {
    /// Nothing is known of the path yet.
    Probing,
    /// The path is a directory.
    ResolvingDirectory,
    /// The path is a directory with this canonical form.
    Listing(String),
    /// The path is a regular file of this many bytes.
    ResolvingFile(u64),
    /// The path is a symbolic link.
    ReadingLink,
    /// The path is a symbolic link with this immediate target.
    ResolvingLink(String),
    /// The question whether to remove the object was put.
    Confirming(Deletable),
    /// The removal of the object was confirmed.
    Removing(Deletable),
    /// The invocation is over.
    Finished(Result<Outcome, Fatal>),
}

/// The work that a state leaves to the driver.
#[derive(Clone, Copy, Debug, PartialEq, Eq, Structural)]
pub enum Request {
    /// Probe the status of the path without following a final symbolic link.
    ProbeMetadata,
    /// Resolve the path to its canonical form.
    Canonicalize,
    /// Read the immediate children of the path, with the kind of each.
    ListChildren,
    /// Read the immediate target of the symbolic link.
    ReadLink,
    /// Read one line of input.
    ReadLine,
    /// Remove the path as an empty directory.
    RemoveDirectory,
    /// Remove the path as a file; a symbolic link is removed, not followed.
    RemoveFile,
}

/// The answer to a request.
#[derive(Clone, Debug, PartialEq, Eq)]
pub enum Event {
    Metadata(MetadataProbe),
    Canonical(CanonProbe),
    Listing(ListingProbe),
    Link(LinkProbe),
    Line(LineProbe),
    Removal(RemovalProbe),
}

/// What one answer leads to: the messages to show, in order, and the state
/// after it.
#[derive(Debug, PartialEq, Eq)]
pub struct Step {
    pub notices: Vec<Notice>,
    pub state: State,
}

impl State {
    /// The state in which every invocation begins.
    pub fn start() -> (state: State)
        ensures
            state == State::Probing,
    {
        State::Probing
    }

    /// The request that the state waits for, none once the invocation is over.
    pub open spec fn awaits(self) -> Option<Request> {
        match self {
            State::Probing => Some(Request::ProbeMetadata),
            State::ResolvingDirectory => Some(Request::Canonicalize),
            State::Listing(_) => Some(Request::ListChildren),
            State::ResolvingFile(_) => Some(Request::Canonicalize),
            State::ReadingLink => Some(Request::ReadLink),
            State::ResolvingLink(_) => Some(Request::Canonicalize),
            State::Confirming(_) => Some(Request::ReadLine),
            State::Removing(Deletable::Directory(_)) => Some(Request::RemoveDirectory),
            State::Removing(_) => Some(Request::RemoveFile),
            State::Finished(_) => None,
        }
    }

    /// The request that the state waits for, none once the invocation is over.
    pub fn request(&self) -> (request: Option<Request>)
        ensures
            request == self.awaits(),
    {
        match self {
            State::Probing => Some(Request::ProbeMetadata),
            State::ResolvingDirectory => Some(Request::Canonicalize),
            State::Listing(_) => Some(Request::ListChildren),
            State::ResolvingFile(_) => Some(Request::Canonicalize),
            State::ReadingLink => Some(Request::ReadLink),
            State::ResolvingLink(_) => Some(Request::Canonicalize),
            State::Confirming(_) => Some(Request::ReadLine),
            State::Removing(Deletable::Directory(_)) => Some(Request::RemoveDirectory),
            State::Removing(_) => Some(Request::RemoveFile),
            State::Finished(_) => None,
        }
    }
}

impl Event {
    /// A listing holds no more children than a count of the census can hold.
    pub open spec fn fits(self) -> bool {
        match self {
            Event::Listing(ListingProbe::Entries(children)) => children@.len() <= u32::MAX,
            _ => true,
        }
    }

    /// Whether a listing holds no more children than a count of the census
    /// can hold. Every other answer does.
    pub fn is_countable(&self) -> (fits: bool)
        ensures
            fits == self.fits(),
    {
        match self {
            Event::Listing(ListingProbe::Entries(children)) => children.len() <= 0xffff_ffff,
            _ => true,
        }
    }
}

/// The one answer that confirms a removal: a lowercase `y` and a line feed.
pub open spec fn confirming(line: Seq<char>) -> bool {
    line == seq!['y', '\n']
}

/// Whether a line of input confirms a removal.
pub fn confirms(line: &String) -> (yes: bool)
    ensures
        yes == confirming(line@),
{
    proof {
        reveal_strlit("y\n");
    }
    let token = String::from_str("y\n");
    assert(token@ =~= seq!['y', '\n']);
    *line == token
}

/// The canonical form that a canonicalization probe comes to: the resolved
/// path, none where the path or what it resolves to does not exist, and an
/// error for any other failure and for a resolved path that is not UTF-8.
pub open spec fn canonical_form(probe: CanonProbe) -> Result<Option<String>, Fatal> {
    match probe {
        CanonProbe::Resolved(Some(path)) => Ok(Some(path)),
        CanonProbe::Resolved(None) => Err(Fatal::CanonicalEncoding),
        CanonProbe::Failed(Failure::NotFound) => Ok(None),
        CanonProbe::Failed(_) => Err(Fatal::Canonicalize),
    }
}

/// The message that goes with a canonical form.
pub open spec fn canonical_notices(form: Result<Option<String>, Fatal>) -> Seq<Notice> {
    match form {
        Ok(Some(path)) => seq![Notice::Canonicalized(path)],
        Ok(None) => seq![Notice::NotCanonicalized],
        Err(_) => seq![],
    }
}

/// What a canonicalization probe comes to, and the message that says so.
pub struct Resolution {
    pub notices: Vec<Notice>,
    pub form: Result<Option<String>, Fatal>,
}

/// Turns the answer of a canonicalization probe into the canonical form,
/// tolerating absence, with the message that reports it.
pub fn canonicalize(probe: CanonProbe) -> (resolution: Resolution)
    ensures
        resolution.form == canonical_form(probe),
        resolution.notices@ == canonical_notices(canonical_form(probe)),
{
    let mut notices: Vec<Notice> = Vec::new();
    let form = match probe {
        CanonProbe::Resolved(Some(path)) => {
            notices.push(Notice::Canonicalized(path.clone()));
            Ok(Some(path))
        },
        CanonProbe::Resolved(None) => Err(Fatal::CanonicalEncoding),
        CanonProbe::Failed(Failure::NotFound) => {
            notices.push(Notice::NotCanonicalized);
            Ok(None)
        },
        CanonProbe::Failed(_) => Err(Fatal::Canonicalize),
    };
    assert(notices@ =~= canonical_notices(canonical_form(probe)));
    Resolution { notices, form }
}

/// The end of an invocation with an outcome: the exit code is announced
/// unless it is zero.
pub open spec fn concluded(said: Seq<Notice>, outcome: Outcome) -> (Seq<Notice>, State) {
    (
        if outcome == Outcome::Success {
            said
        } else {
            said.push(Notice::Exiting(outcome))
        },
        State::Finished(Ok(outcome)),
    )
}

/// The end of an invocation with a fatal error.
pub open spec fn failed(said: Seq<Notice>, fatal: Fatal) -> (Seq<Notice>, State) {
    (said, State::Finished(Err(fatal)))
}

/// What follows the finding that the path is empty: the finding is shown;
/// then, where removal was asked for, the question is put, and else the
/// invocation ends in success.
pub open spec fn offered(
    said: Seq<Notice>,
    category: Category,
    shown: Option<String>,
    subject: Deletable,
    delete_if_empty: bool,
) -> (Seq<Notice>, State) {
    if delete_if_empty {
        (
            said.push(Notice::Classified(category, shown)).push(Notice::Prompt(subject)),
            State::Confirming(subject),
        )
    } else {
        concluded(said.push(Notice::Classified(category, shown)), Outcome::Success)
    }
}

/// After the status probe.
pub open spec fn on_metadata(probe: MetadataProbe) -> (Seq<Notice>, State) {
    match probe {
        MetadataProbe::Failed(Failure::NotFound) => concluded(
            seq![Notice::Missing],
            Outcome::NotFound,
        ),
        MetadataProbe::Failed(Failure::PermissionDenied) => concluded(
            seq![Notice::Denied],
            Outcome::PermissionDenied,
        ),
        MetadataProbe::Failed(Failure::Other) => failed(seq![], Fatal::Probe),
        MetadataProbe::Present(EntryKind::Directory, _) => (seq![], State::ResolvingDirectory),
        MetadataProbe::Present(EntryKind::File, len) => (seq![], State::ResolvingFile(len)),
        MetadataProbe::Present(EntryKind::Symlink, _) => (seq![], State::ReadingLink),
        MetadataProbe::Present(EntryKind::Other, _) => failed(seq![], Fatal::Unsupported),
    }
}

/// After the canonicalization of a directory. The directory was just seen, so
/// its absence now is an error.
pub open spec fn on_directory_resolved(probe: CanonProbe) -> (Seq<Notice>, State) {
    let said = canonical_notices(canonical_form(probe));
    match canonical_form(probe) {
        Ok(Some(canonical)) => (said, State::Listing(canonical)),
        Ok(None) => failed(said, Fatal::DirectoryVanished),
        Err(fatal) => failed(said, fatal),
    }
}

/// After the enumeration of a directory with this canonical form.
pub open spec fn on_listing(canonical: String, probe: ListingProbe, delete_if_empty: bool) -> (
    Seq<Notice>,
    State,
) {
    match probe {
        ListingProbe::Failed => failed(seq![], Fatal::ReadDirectory),
        ListingProbe::Entries(children) => match tallied(children@) {
            Err(fatal) => failed(seq![], fatal),
            Ok(census) => if census.sum() > 0 {
                concluded(
                    seq![
                        Notice::Classified(Category::NonEmptyDirectory(census), Some(canonical)),
                    ],
                    Outcome::NonEmptyDirectory,
                )
            } else {
                offered(
                    seq![],
                    Category::EmptyDirectory,
                    Some(canonical),
                    Deletable::Directory(canonical),
                    delete_if_empty,
                )
            },
        },
    }
}

/// After the canonicalization of a file of `len` bytes. The file was just
/// seen, so its absence now is an error.
pub open spec fn on_file_resolved(len: u64, probe: CanonProbe, delete_if_empty: bool) -> (
    Seq<Notice>,
    State,
) {
    let said = canonical_notices(canonical_form(probe));
    match canonical_form(probe) {
        Ok(Some(canonical)) => if len > 0 {
            concluded(
                said.push(Notice::Classified(Category::NonEmptyFile(len), Some(canonical))),
                Outcome::NonEmptyFile,
            )
        } else {
            offered(
                said,
                Category::EmptyFile,
                Some(canonical),
                Deletable::File(canonical),
                delete_if_empty,
            )
        },
        Ok(None) => failed(said, Fatal::FileVanished),
        Err(fatal) => failed(said, fatal),
    }
}

/// After the reading of a symbolic link's immediate target.
pub open spec fn on_link(probe: LinkProbe) -> (Seq<Notice>, State) {
    match probe {
        LinkProbe::Failed => failed(seq![], Fatal::ReadLink),
        LinkProbe::Undecodable => failed(seq![], Fatal::LinkEncoding),
        LinkProbe::Target(target) => (seq![], State::ResolvingLink(target)),
    }
}

/// After the canonicalization of a symbolic link with this immediate target.
/// That the link resolves to nothing is a finding, not an error; a link that
/// resolves is never offered for removal.
pub open spec fn on_link_resolved(target: String, probe: CanonProbe, delete_if_empty: bool) -> (
    Seq<Notice>,
    State,
) {
    let said = canonical_notices(canonical_form(probe));
    match canonical_form(probe) {
        Ok(Some(resolved)) => concluded(
            said.push(Notice::Classified(Category::LiveSymlink(target, resolved), None)),
            Outcome::LiveSymlink,
        ),
        Ok(None) => offered(
            said,
            Category::DanglingSymlink(target),
            None,
            Deletable::Symlink(target),
            delete_if_empty,
        ),
        Err(fatal) => failed(said, fatal),
    }
}

/// After the line of confirmation was read.
pub open spec fn on_line(subject: Deletable, probe: LineProbe) -> (Seq<Notice>, State) {
    match probe {
        LineProbe::Failed => failed(seq![], Fatal::ReadLine),
        LineProbe::Text(line) => if confirming(line@) {
            (seq![], State::Removing(subject))
        } else {
            concluded(seq![Notice::Kept(subject)], subject.declined())
        },
    }
}

/// After the removal was tried.
pub open spec fn on_removal(subject: Deletable, probe: RemovalProbe) -> (Seq<Notice>, State) {
    match probe {
        RemovalProbe::Failed => failed(seq![], Fatal::Remove),
        RemovalProbe::Removed => concluded(seq![Notice::Deleted(subject)], Outcome::Success),
    }
}

/// The messages and the next state that an answer leads to. A finished
/// invocation stays as it is; an answer to another request than the one the
/// state waits for ends the invocation with an error.
pub open spec fn transition(state: State, event: Event, delete_if_empty: bool) -> (
    Seq<Notice>,
    State,
) {
    match (state, event) {
        (State::Finished(end), _) => (seq![], State::Finished(end)),
        (State::Probing, Event::Metadata(probe)) => on_metadata(probe),
        (State::ResolvingDirectory, Event::Canonical(probe)) => on_directory_resolved(probe),
        (State::Listing(canonical), Event::Listing(probe)) => on_listing(
            canonical,
            probe,
            delete_if_empty,
        ),
        (State::ResolvingFile(len), Event::Canonical(probe)) => on_file_resolved(
            len,
            probe,
            delete_if_empty,
        ),
        (State::ReadingLink, Event::Link(probe)) => on_link(probe),
        (State::ResolvingLink(target), Event::Canonical(probe)) => on_link_resolved(
            target,
            probe,
            delete_if_empty,
        ),
        (State::Confirming(subject), Event::Line(probe)) => on_line(subject, probe),
        (State::Removing(subject), Event::Removal(probe)) => on_removal(subject, probe),
        _ => failed(seq![], Fatal::Protocol),
    }
}

fn conclude(notices: Vec<Notice>, outcome: Outcome) -> (step: Step)
    ensures
        (step.notices@, step.state) == concluded(notices@, outcome),
{
    let mut notices = notices;
    match outcome {
        Outcome::Success => {},
        _ => {
            notices.push(Notice::Exiting(outcome));
        },
    }
    Step { notices, state: State::Finished(Ok(outcome)) }
}

fn fail(notices: Vec<Notice>, fatal: Fatal) -> (step: Step)
    ensures
        (step.notices@, step.state) == failed(notices@, fatal),
{
    Step { notices, state: State::Finished(Err(fatal)) }
}

fn offer(
    notices: Vec<Notice>,
    category: Category,
    shown: Option<String>,
    subject: Deletable,
    delete_if_empty: bool,
) -> (step: Step)
    ensures
        (step.notices@, step.state) == offered(
            notices@,
            category,
            shown,
            subject,
            delete_if_empty,
        ),
{
    let mut notices = notices;
    notices.push(Notice::Classified(category, shown));
    if delete_if_empty {
        notices.push(Notice::Prompt(subject.duplicate()));
        Step { notices, state: State::Confirming(subject) }
    } else {
        conclude(notices, Outcome::Success)
    }
}

fn after_metadata(probe: MetadataProbe) -> (step: Step)
    ensures
        (step.notices@, step.state) == on_metadata(probe),
{
    let mut notices: Vec<Notice> = Vec::new();
    match probe {
        MetadataProbe::Failed(Failure::NotFound) => {
            notices.push(Notice::Missing);
            conclude(notices, Outcome::NotFound)
        },
        MetadataProbe::Failed(Failure::PermissionDenied) => {
            notices.push(Notice::Denied);
            conclude(notices, Outcome::PermissionDenied)
        },
        MetadataProbe::Failed(Failure::Other) => fail(notices, Fatal::Probe),
        MetadataProbe::Present(EntryKind::Directory, _) => Step {
            notices,
            state: State::ResolvingDirectory,
        },
        MetadataProbe::Present(EntryKind::File, len) => Step {
            notices,
            state: State::ResolvingFile(len),
        },
        MetadataProbe::Present(EntryKind::Symlink, _) => Step {
            notices,
            state: State::ReadingLink,
        },
        MetadataProbe::Present(EntryKind::Other, _) => fail(notices, Fatal::Unsupported),
    }
}

fn after_directory_resolved(probe: CanonProbe) -> (step: Step)
    ensures
        (step.notices@, step.state) == on_directory_resolved(probe),
{
    let resolution = canonicalize(probe);
    match resolution.form {
        Ok(Some(canonical)) => Step { notices: resolution.notices, state: State::Listing(canonical) },
        Ok(None) => fail(resolution.notices, Fatal::DirectoryVanished),
        Err(fatal) => fail(resolution.notices, fatal),
    }
}

fn after_listing(canonical: String, probe: ListingProbe, delete_if_empty: bool) -> (step: Step)
    requires
        Event::Listing(probe).fits(),
    ensures
        (step.notices@, step.state) == on_listing(canonical, probe, delete_if_empty),
{
    let mut notices: Vec<Notice> = Vec::new();
    match probe {
        ListingProbe::Failed => fail(notices, Fatal::ReadDirectory),
        ListingProbe::Entries(children) => match tally(&children) {
            Err(fatal) => fail(notices, fatal),
            Ok(census) => if census.total() > 0 {
                notices.push(
                    Notice::Classified(Category::NonEmptyDirectory(census), Some(canonical)),
                );
                conclude(notices, Outcome::NonEmptyDirectory)
            } else {
                let shown = canonical.clone();
                offer(
                    notices,
                    Category::EmptyDirectory,
                    Some(shown),
                    Deletable::Directory(canonical),
                    delete_if_empty,
                )
            },
        },
    }
}

fn after_file_resolved(len: u64, probe: CanonProbe, delete_if_empty: bool) -> (step: Step)
    ensures
        (step.notices@, step.state) == on_file_resolved(len, probe, delete_if_empty),
{
    let resolution = canonicalize(probe);
    let mut notices = resolution.notices;
    match resolution.form {
        Ok(Some(canonical)) => if len > 0 {
            notices.push(Notice::Classified(Category::NonEmptyFile(len), Some(canonical)));
            conclude(notices, Outcome::NonEmptyFile)
        } else {
            let shown = canonical.clone();
            offer(
                notices,
                Category::EmptyFile,
                Some(shown),
                Deletable::File(canonical),
                delete_if_empty,
            )
        },
        Ok(None) => fail(notices, Fatal::FileVanished),
        Err(fatal) => fail(notices, fatal),
    }
}

fn after_link(probe: LinkProbe) -> (step: Step)
    ensures
        (step.notices@, step.state) == on_link(probe),
{
    let notices: Vec<Notice> = Vec::new();
    match probe {
        LinkProbe::Failed => fail(notices, Fatal::ReadLink),
        LinkProbe::Undecodable => fail(notices, Fatal::LinkEncoding),
        LinkProbe::Target(target) => Step { notices, state: State::ResolvingLink(target) },
    }
}

fn after_link_resolved(target: String, probe: CanonProbe, delete_if_empty: bool) -> (step: Step)
    ensures
        (step.notices@, step.state) == on_link_resolved(target, probe, delete_if_empty),
{
    let resolution = canonicalize(probe);
    let mut notices = resolution.notices;
    match resolution.form {
        Ok(Some(resolved)) => {
            notices.push(Notice::Classified(Category::LiveSymlink(target, resolved), None));
            conclude(notices, Outcome::LiveSymlink)
        },
        Ok(None) => {
            let shown = target.clone();
            offer(
                notices,
                Category::DanglingSymlink(shown),
                None,
                Deletable::Symlink(target),
                delete_if_empty,
            )
        },
        Err(fatal) => fail(notices, fatal),
    }
}

fn after_line(subject: Deletable, probe: LineProbe) -> (step: Step)
    ensures
        (step.notices@, step.state) == on_line(subject, probe),
{
    let mut notices: Vec<Notice> = Vec::new();
    match probe {
        LineProbe::Failed => fail(notices, Fatal::ReadLine),
        LineProbe::Text(line) => if confirms(&line) {
            Step { notices, state: State::Removing(subject) }
        } else {
            let outcome = subject.when_declined();
            notices.push(Notice::Kept(subject));
            conclude(notices, outcome)
        },
    }
}

fn after_removal(subject: Deletable, probe: RemovalProbe) -> (step: Step)
    ensures
        (step.notices@, step.state) == on_removal(subject, probe),
{
    let mut notices: Vec<Notice> = Vec::new();
    match probe {
        RemovalProbe::Failed => fail(notices, Fatal::Remove),
        RemovalProbe::Removed => {
            notices.push(Notice::Deleted(subject));
            conclude(notices, Outcome::Success)
        },
    }
}

/// Takes the answer to the request that the state waits for, and gives the
/// messages to show and the state that follows.
pub fn advance(state: State, event: Event, delete_if_empty: bool) -> (step: Step)
    requires
        event.fits(),
    ensures
        (step.notices@, step.state) == transition(state, event, delete_if_empty),
{
    match (state, event) {
        (State::Finished(end), _) => Step { notices: Vec::new(), state: State::Finished(end) },
        (State::Probing, Event::Metadata(probe)) => after_metadata(probe),
        (State::ResolvingDirectory, Event::Canonical(probe)) => after_directory_resolved(probe),
        (State::Listing(canonical), Event::Listing(probe)) => after_listing(
            canonical,
            probe,
            delete_if_empty,
        ),
        (State::ResolvingFile(len), Event::Canonical(probe)) => after_file_resolved(
            len,
            probe,
            delete_if_empty,
        ),
        (State::ReadingLink, Event::Link(probe)) => after_link(probe),
        (State::ResolvingLink(target), Event::Canonical(probe)) => after_link_resolved(
            target,
            probe,
            delete_if_empty,
        ),
        (State::Confirming(subject), Event::Line(probe)) => after_line(subject, probe),
        (State::Removing(subject), Event::Removal(probe)) => after_removal(subject, probe),
        _ => fail(Vec::new(), Fatal::Protocol),
    }
}

} // verus!
