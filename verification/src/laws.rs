//! What holds of every invocation. An invocation is modelled by a scene: the
//! answers that the filesystem and the operator would give to each request.
//! The machine asks each request at most once, so a scene fixes the whole
//! course of an invocation.
use crate::census::{census_of, first_rejected, lemma_census_sums};
use crate::machine::{confirming, transition, Event, Request, State};
use crate::model::{
    exit_code_of, CanonProbe, Category, ChildProbe, Deletable, EntryKind, Failure, Fatal,
    LineProbe, LinkProbe, ListingProbe, MetadataProbe, Notice, Outcome, RemovalProbe,
};
use vstd::prelude::*;

verus! {

/// The answers that an invocation meets.
pub struct Scene {
    pub metadata: MetadataProbe,
    pub canonical: CanonProbe,
    pub listing: ListingProbe,
    pub link: LinkProbe,
    pub line: LineProbe,
    pub removal: RemovalProbe,
}

impl Scene {
    /// The answer to a request.
    pub open spec fn answer(self, request: Request) -> Event {
        match request {
            Request::ProbeMetadata => Event::Metadata(self.metadata),
            Request::Canonicalize => Event::Canonical(self.canonical),
            Request::ListChildren => Event::Listing(self.listing),
            Request::ReadLink => Event::Link(self.link),
            Request::ReadLine => Event::Line(self.line),
            Request::RemoveDirectory => Event::Removal(self.removal),
            Request::RemoveFile => Event::Removal(self.removal),
        }
    }

    /// What is handed to the machine in a state: the answer to the request
    /// that the state waits for. A finished state waits for none and ignores
    /// what it is handed.
    pub open spec fn reply(self, state: State) -> Event {
        match state.awaits() {
            Some(request) => self.answer(request),
            None => Event::Removal(self.removal),
        }
    }

    /// The path is a directory that resolves to `canonical` and has these
    /// children.
    pub open spec fn is_directory(self, canonical: String, children: Vec<ChildProbe>) -> bool {
        &&& self.metadata is Present
        &&& self.metadata->Present_0 == EntryKind::Directory
        &&& self.canonical == CanonProbe::Resolved(Some(canonical))
        &&& self.listing == ListingProbe::Entries(children)
    }

    /// The path is a symbolic link with this immediate target.
    pub open spec fn is_symlink(self, target: String) -> bool {
        &&& self.metadata is Present
        &&& self.metadata->Present_0 == EntryKind::Symlink
        &&& self.link == LinkProbe::Target(target)
    }
}

/// The state after a number of answers.
pub open spec fn reached(scene: Scene, delete_if_empty: bool, steps: nat) -> State
    decreases steps,
{
    if steps == 0 {
        State::Probing
    } else {
        let before = reached(scene, delete_if_empty, (steps - 1) as nat);
        transition(before, scene.reply(before), delete_if_empty).1
    }
}

/// The messages that the answer after `steps` earlier ones brings.
pub open spec fn shown(scene: Scene, delete_if_empty: bool, steps: nat) -> Seq<Notice> {
    let before = reached(scene, delete_if_empty, steps);
    transition(before, scene.reply(before), delete_if_empty).0
}

/// How the invocation ends.
pub open spec fn ending(scene: Scene, delete_if_empty: bool) -> Result<Outcome, Fatal> {
    match reached(scene, delete_if_empty, 5) {
        State::Finished(end) => end,
        _ => Err(Fatal::Protocol),
    }
}

/// No removal is ever requested: the filesystem is left as it was.
pub open spec fn never_removes(scene: Scene, delete_if_empty: bool) -> bool {
    forall|steps: nat| !(#[trigger] reached(scene, delete_if_empty, steps) is Removing)
}

/// The question whether to remove the path is never put.
pub open spec fn never_asks(scene: Scene, delete_if_empty: bool) -> bool {
    forall|steps: nat| !(#[trigger] reached(scene, delete_if_empty, steps) is Confirming)
}

/// No message of the invocation is the question whether to remove the path.
pub open spec fn never_prompts(scene: Scene, delete_if_empty: bool) -> bool {
    forall|steps: nat, at: int|
        0 <= at < shown(scene, delete_if_empty, steps).len() ==> !(#[trigger] shown(
            scene,
            delete_if_empty,
            steps,
        )[at] is Prompt)
}

/// The question is shown only on the way into the state that waits for its
/// answer.
pub proof fn lemma_prompt_is_awaited(state: State, event: Event, delete_if_empty: bool, at: int)
    requires
        0 <= at < transition(state, event, delete_if_empty).0.len(),
        transition(state, event, delete_if_empty).0[at] is Prompt,
    ensures
        transition(state, event, delete_if_empty).1 is Confirming,
{
}

/// An invocation that never waits for the answer never shows the question.
pub proof fn law_no_question_unasked(scene: Scene, delete_if_empty: bool)
    requires
        never_asks(scene, delete_if_empty),
    ensures
        never_prompts(scene, delete_if_empty),
{
    assert forall|steps: nat, at: int|
        0 <= at < shown(scene, delete_if_empty, steps).len() implies !(#[trigger] shown(
        scene,
        delete_if_empty,
        steps,
    )[at] is Prompt) by {
        let before = reached(scene, delete_if_empty, steps);
        if shown(scene, delete_if_empty, steps)[at] is Prompt {
            lemma_prompt_is_awaited(before, scene.reply(before), delete_if_empty, at);
            assert(reached(scene, delete_if_empty, steps + 1) is Confirming);
        }
    }
}

/// A finished invocation stays finished, with the same end.
pub proof fn lemma_finished_stays(scene: Scene, delete_if_empty: bool, at: nat, later: nat)
    requires
        at <= later,
        reached(scene, delete_if_empty, at) is Finished,
    ensures
        reached(scene, delete_if_empty, later) == reached(scene, delete_if_empty, at),
    decreases later,
{
    if at < later {
        lemma_finished_stays(scene, delete_if_empty, at, (later - 1) as nat);
    }
}

/// Every invocation is over after five answers at most, and no finished
/// invocation asks for anything.
pub proof fn law_always_ends(scene: Scene, delete_if_empty: bool)
    ensures
        reached(scene, delete_if_empty, 5) is Finished,
        reached(scene, delete_if_empty, 5) == State::Finished(ending(scene, delete_if_empty)),
        reached(scene, delete_if_empty, 5).awaits() is None,
{
    reveal_with_fuel(reached, 6);
}

/// A path that does not exist ends the invocation with exit code 11 after the
/// first probe, and nothing is removed.
pub proof fn law_missing_path(scene: Scene, delete_if_empty: bool)
    requires
        scene.metadata == MetadataProbe::Failed(Failure::NotFound),
    ensures
        ending(scene, delete_if_empty) == Ok::<Outcome, Fatal>(Outcome::NotFound),
        exit_code_of(ending(scene, delete_if_empty)) == 11,
        reached(scene, delete_if_empty, 1) is Finished,
        never_removes(scene, delete_if_empty),
{
    reveal_with_fuel(reached, 6);
    assert forall|steps: nat| !(#[trigger] reached(scene, delete_if_empty, steps) is Removing) by {
        if steps >= 1 {
            lemma_finished_stays(scene, delete_if_empty, 1, steps);
        }
    }
}

/// An empty regular file, where removal was not asked for, ends the
/// invocation with exit code 0, and nothing is asked or removed.
pub proof fn law_empty_file_untouched(scene: Scene, canonical: String)
    requires
        scene.metadata == MetadataProbe::Present(EntryKind::File, 0),
        scene.canonical == CanonProbe::Resolved(Some(canonical)),
    ensures
        ending(scene, false) == Ok::<Outcome, Fatal>(Outcome::Success),
        exit_code_of(ending(scene, false)) == 0,
        shown(scene, false, 1) == seq![
            Notice::Canonicalized(canonical),
            Notice::Classified(Category::EmptyFile, Some(canonical)),
        ],
        never_asks(scene, false),
        never_prompts(scene, false),
        never_removes(scene, false),
{
    reveal_with_fuel(reached, 6);
    assert(shown(scene, false, 1) =~= seq![
        Notice::Canonicalized(canonical),
        Notice::Classified(Category::EmptyFile, Some(canonical)),
    ]);
    assert forall|steps: nat|
        !(#[trigger] reached(scene, false, steps) is Removing) && !(reached(
            scene,
            false,
            steps,
        ) is Confirming) by {
        if steps >= 2 {
            lemma_finished_stays(scene, false, 2, steps);
        }
    }
    law_no_question_unasked(scene, false);
}

/// A directory with at least one child, each a directory, a file or a
/// symbolic link, ends the invocation with exit code 31, whether removal was
/// asked for or not; the census that is reported sums to the number of
/// children; nothing is asked or removed.
pub proof fn law_non_empty_directory(
    scene: Scene,
    delete_if_empty: bool,
    canonical: String,
    children: Vec<ChildProbe>,
)
    requires
        scene.is_directory(canonical, children),
        1 <= children@.len() <= u32::MAX,
        first_rejected(children@) is None,
    ensures
        ending(scene, delete_if_empty) == Ok::<Outcome, Fatal>(Outcome::NonEmptyDirectory),
        exit_code_of(ending(scene, delete_if_empty)) == 31,
        shown(scene, delete_if_empty, 2) == seq![
            Notice::Classified(
                Category::NonEmptyDirectory(census_of(children@)),
                Some(canonical),
            ),
            Notice::Exiting(Outcome::NonEmptyDirectory),
        ],
        census_of(children@).sum() == children@.len(),
        never_asks(scene, delete_if_empty),
        never_prompts(scene, delete_if_empty),
        never_removes(scene, delete_if_empty),
{
    reveal_with_fuel(reached, 6);
    lemma_census_sums(children@);
    assert(reached(scene, delete_if_empty, 2) == State::Listing(canonical));
    assert(shown(scene, delete_if_empty, 2) =~= seq![
        Notice::Classified(Category::NonEmptyDirectory(census_of(children@)), Some(canonical)),
        Notice::Exiting(Outcome::NonEmptyDirectory),
    ]);
    assert forall|steps: nat|
        !(#[trigger] reached(scene, delete_if_empty, steps) is Removing) && !(reached(
            scene,
            delete_if_empty,
            steps,
        ) is Confirming) by {
        if steps >= 3 {
            lemma_finished_stays(scene, delete_if_empty, 3, steps);
        }
    }
    law_no_question_unasked(scene, delete_if_empty);
}

/// An empty directory whose removal was asked for and confirmed by exactly
/// `y` and a line feed: the removal of a directory is requested, and once it
/// is done the invocation ends with exit code 0.
pub proof fn law_empty_directory_confirmed(
    scene: Scene,
    canonical: String,
    children: Vec<ChildProbe>,
    line: String,
)
    requires
        scene.is_directory(canonical, children),
        children@.len() == 0,
        scene.line == LineProbe::Text(line),
        confirming(line@),
        scene.removal == RemovalProbe::Removed,
    ensures
        reached(scene, true, 4) == State::Removing(Deletable::Directory(canonical)),
        reached(scene, true, 4).awaits() == Some(Request::RemoveDirectory),
        ending(scene, true) == Ok::<Outcome, Fatal>(Outcome::Success),
        exit_code_of(ending(scene, true)) == 0,
{
    reveal_with_fuel(reached, 6);
    assert(reached(scene, true, 2) == State::Listing(canonical));
    assert(reached(scene, true, 3) == State::Confirming(Deletable::Directory(canonical)));
}

/// An empty directory whose removal was asked for and answered by any line
/// but `y` and a line feed: the invocation ends with exit code 32 and nothing
/// is removed.
pub proof fn law_empty_directory_declined(
    scene: Scene,
    canonical: String,
    children: Vec<ChildProbe>,
    line: String,
)
    requires
        scene.is_directory(canonical, children),
        children@.len() == 0,
        scene.line == LineProbe::Text(line),
        !confirming(line@),
    ensures
        ending(scene, true) == Ok::<Outcome, Fatal>(Outcome::DirectoryDeclined),
        exit_code_of(ending(scene, true)) == 32,
        never_removes(scene, true),
{
    reveal_with_fuel(reached, 6);
    assert(reached(scene, true, 2) == State::Listing(canonical));
    assert(reached(scene, true, 3) == State::Confirming(Deletable::Directory(canonical)));
    assert forall|steps: nat| !(#[trigger] reached(scene, true, steps) is Removing) by {
        if steps >= 4 {
            lemma_finished_stays(scene, true, 4, steps);
        }
    }
}

/// A symbolic link that resolves ends the invocation with exit code 41,
/// whether removal was asked for or not; nothing is asked or removed.
pub proof fn law_live_symlink(
    scene: Scene,
    delete_if_empty: bool,
    target: String,
    resolved: String,
)
    requires
        scene.is_symlink(target),
        scene.canonical == CanonProbe::Resolved(Some(resolved)),
    ensures
        ending(scene, delete_if_empty) == Ok::<Outcome, Fatal>(Outcome::LiveSymlink),
        exit_code_of(ending(scene, delete_if_empty)) == 41,
        never_asks(scene, delete_if_empty),
        never_prompts(scene, delete_if_empty),
        never_removes(scene, delete_if_empty),
{
    reveal_with_fuel(reached, 6);
    assert(reached(scene, delete_if_empty, 2) == State::ResolvingLink(target));
    assert forall|steps: nat|
        !(#[trigger] reached(scene, delete_if_empty, steps) is Removing) && !(reached(
            scene,
            delete_if_empty,
            steps,
        ) is Confirming) by {
        if steps >= 3 {
            lemma_finished_stays(scene, delete_if_empty, 3, steps);
        }
    }
    law_no_question_unasked(scene, delete_if_empty);
}

/// A symbolic link that resolves to nothing, whose removal was asked for and
/// declined: the invocation ends with exit code 42 and nothing is removed.
pub proof fn law_dangling_symlink_declined(scene: Scene, target: String, line: String)
    requires
        scene.is_symlink(target),
        scene.canonical == CanonProbe::Failed(Failure::NotFound),
        scene.line == LineProbe::Text(line),
        !confirming(line@),
    ensures
        ending(scene, true) == Ok::<Outcome, Fatal>(Outcome::SymlinkDeclined),
        exit_code_of(ending(scene, true)) == 42,
        never_removes(scene, true),
{
    reveal_with_fuel(reached, 6);
    assert(reached(scene, true, 2) == State::ResolvingLink(target));
    assert(reached(scene, true, 3) == State::Confirming(Deletable::Symlink(target)));
    assert forall|steps: nat| !(#[trigger] reached(scene, true, steps) is Removing) by {
        if steps >= 4 {
            lemma_finished_stays(scene, true, 4, steps);
        }
    }
}

/// A symbolic link that resolves to nothing, whose removal was asked for and
/// confirmed: the path is removed as a file, so the link goes and not what
/// it names, and once that is done the invocation ends with exit code 0.
pub proof fn law_dangling_symlink_confirmed(scene: Scene, target: String, line: String)
    requires
        scene.is_symlink(target),
        scene.canonical == CanonProbe::Failed(Failure::NotFound),
        scene.line == LineProbe::Text(line),
        confirming(line@),
        scene.removal == RemovalProbe::Removed,
    ensures
        reached(scene, true, 4) == State::Removing(Deletable::Symlink(target)),
        reached(scene, true, 4).awaits() == Some(Request::RemoveFile),
        ending(scene, true) == Ok::<Outcome, Fatal>(Outcome::Success),
        exit_code_of(ending(scene, true)) == 0,
{
    reveal_with_fuel(reached, 6);
    assert(reached(scene, true, 2) == State::ResolvingLink(target));
    assert(reached(scene, true, 3) == State::Confirming(Deletable::Symlink(target)));
}

/// Where removal is not asked for, nothing is ever asked or removed, and the
/// course of the invocation depends on the path alone: two invocations that
/// meet the same status, canonical form, children and link target pass
/// through the same states, show the same messages and end alike, whatever
/// the operator would have typed and whatever a removal would have done.
pub proof fn law_classification_repeats(first: Scene, second: Scene)
    requires
        first.metadata == second.metadata,
        first.canonical == second.canonical,
        first.listing == second.listing,
        first.link == second.link,
    ensures
        never_asks(first, false),
        never_prompts(first, false),
        never_removes(first, false),
        forall|steps: nat| #[trigger]
            reached(first, false, steps) == reached(second, false, steps),
        forall|steps: nat| #[trigger] shown(first, false, steps) == shown(second, false, steps),
        ending(first, false) == ending(second, false),
{
    assert forall|steps: nat|
        !(#[trigger] reached(first, false, steps) is Removing) && !(reached(
            first,
            false,
            steps,
        ) is Confirming) && reached(first, false, steps) == reached(second, false, steps) && shown(
            first,
            false,
            steps,
        ) == shown(second, false, steps) by {
        lemma_without_removal(first, second, steps);
    }
    lemma_without_removal(first, second, 5);
    law_no_question_unasked(first, false);
}

/// The induction behind `law_classification_repeats`.
proof fn lemma_without_removal(first: Scene, second: Scene, steps: nat)
    requires
        first.metadata == second.metadata,
        first.canonical == second.canonical,
        first.listing == second.listing,
        first.link == second.link,
    ensures
        !(reached(first, false, steps) is Removing),
        !(reached(first, false, steps) is Confirming),
        reached(first, false, steps) == reached(second, false, steps),
        shown(first, false, steps) == shown(second, false, steps),
    decreases steps,
{
    if steps > 0 {
        lemma_without_removal(first, second, (steps - 1) as nat);
    }
}

} // verus!
