use empd::machine::{advance, canonicalize, confirms, Event, Request, State};
use empd::model::{
    exit_code, CanonProbe, Category, ChildProbe, Deletable, DirectoryCensus, EntryKind, Failure,
    Fatal, LineProbe, LinkProbe, ListingProbe, MetadataProbe, Notice, Outcome, RemovalProbe,
};

struct Scene {
    metadata: MetadataProbe,
    canonical: CanonProbe,
    listing: ListingProbe,
    link: LinkProbe,
    line: LineProbe,
    removal: RemovalProbe,
}

struct Course {
    requests: Vec<Request>,
    notices: Vec<Notice>,
    end: Result<Outcome, Fatal>,
}

fn scene(metadata: MetadataProbe) -> Scene {
    Scene {
        metadata,
        canonical: CanonProbe::Failed(Failure::Other),
        listing: ListingProbe::Failed,
        link: LinkProbe::Failed,
        line: LineProbe::Failed,
        removal: RemovalProbe::Failed,
    }
}

fn directory(children: Vec<ChildProbe>) -> Scene {
    let mut s = scene(MetadataProbe::Present(EntryKind::Directory, 4096));
    s.canonical = CanonProbe::Resolved(Some("/srv/box".to_string()));
    s.listing = ListingProbe::Entries(children);
    s
}

fn file(len: u64) -> Scene {
    let mut s = scene(MetadataProbe::Present(EntryKind::File, len));
    s.canonical = CanonProbe::Resolved(Some("/srv/note".to_string()));
    s
}

fn symlink(canonical: CanonProbe) -> Scene {
    let mut s = scene(MetadataProbe::Present(EntryKind::Symlink, 7));
    s.link = LinkProbe::Target("../else".to_string());
    s.canonical = canonical;
    s
}

fn answered(mut s: Scene, line: &str, removal: RemovalProbe) -> Scene {
    s.line = LineProbe::Text(line.to_string());
    s.removal = removal;
    s
}

fn run(scene: &Scene, delete_if_empty: bool) -> Course {
    let mut state = State::start();
    let mut requests = Vec::new();
    let mut notices = Vec::new();
    loop {
        let request = match state.request() {
            Some(request) => request,
            None => break,
        };
        assert!(requests.len() < 5);
        requests.push(request);
        let event = match request {
            Request::ProbeMetadata => Event::Metadata(scene.metadata),
            Request::Canonicalize => Event::Canonical(scene.canonical.clone()),
            Request::ListChildren => Event::Listing(scene.listing.clone()),
            Request::ReadLink => Event::Link(scene.link.clone()),
            Request::ReadLine => Event::Line(scene.line.clone()),
            Request::RemoveDirectory | Request::RemoveFile => Event::Removal(scene.removal),
        };
        assert!(event.is_countable());
        let step = advance(state, event, delete_if_empty);
        notices.extend(step.notices);
        state = step.state;
    }
    match state {
        State::Finished(end) => Course { requests, notices, end },
        other => panic!("not finished: {:?}", other),
    }
}

fn removes(course: &Course) -> bool {
    course
        .requests
        .iter()
        .any(|r| matches!(r, Request::RemoveDirectory | Request::RemoveFile))
}

fn asks(course: &Course) -> bool {
    course.requests.iter().any(|r| matches!(r, Request::ReadLine))
}

#[test]
fn missing_path_exits_with_11_and_removes_nothing() {
    for delete in [false, true] {
        let course = run(&scene(MetadataProbe::Failed(Failure::NotFound)), delete);
        assert_eq!(course.end, Ok(Outcome::NotFound));
        assert_eq!(exit_code(&course.end), 11);
        assert_eq!(course.requests, vec![Request::ProbeMetadata]);
        assert_eq!(course.notices, vec![Notice::Missing, Notice::Exiting(Outcome::NotFound)]);
    }
}

#[test]
fn denied_path_exits_with_12() {
    let course = run(&scene(MetadataProbe::Failed(Failure::PermissionDenied)), true);
    assert_eq!(exit_code(&course.end), 12);
    assert_eq!(course.notices, vec![Notice::Denied, Notice::Exiting(Outcome::PermissionDenied)]);
    assert_eq!(course.requests, vec![Request::ProbeMetadata]);
}

#[test]
fn other_probe_error_is_fatal() {
    let course = run(&scene(MetadataProbe::Failed(Failure::Other)), false);
    assert_eq!(course.end, Err(Fatal::Probe));
    assert_eq!(exit_code(&course.end), 1);
    assert!(course.notices.is_empty());
}

#[test]
fn unsupported_kind_is_fatal() {
    let course = run(&scene(MetadataProbe::Present(EntryKind::Other, 0)), true);
    assert_eq!(course.end, Err(Fatal::Unsupported));
    assert_eq!(exit_code(&course.end), 1);
    assert_eq!(course.requests, vec![Request::ProbeMetadata]);
}

#[test]
fn empty_file_without_flag_is_left_alone() {
    let course = run(&file(0), false);
    assert_eq!(course.end, Ok(Outcome::Success));
    assert_eq!(exit_code(&course.end), 0);
    assert_eq!(course.requests, vec![Request::ProbeMetadata, Request::Canonicalize]);
    assert_eq!(
        course.notices,
        vec![
            Notice::Canonicalized("/srv/note".to_string()),
            Notice::Classified(Category::EmptyFile, Some("/srv/note".to_string())),
        ]
    );
}

#[test]
fn non_empty_file_exits_with_21() {
    for delete in [false, true] {
        let course = run(&file(1), delete);
        assert_eq!(course.end, Ok(Outcome::NonEmptyFile));
        assert_eq!(exit_code(&course.end), 21);
        assert!(!asks(&course) && !removes(&course));
        assert_eq!(
            course.notices,
            vec![
                Notice::Canonicalized("/srv/note".to_string()),
                Notice::Classified(Category::NonEmptyFile(1), Some("/srv/note".to_string())),
                Notice::Exiting(Outcome::NonEmptyFile),
            ]
        );
    }
}

#[test]
fn empty_file_confirmed_is_removed_as_a_file() {
    let course = run(&answered(file(0), "y\n", RemovalProbe::Removed), true);
    assert_eq!(course.end, Ok(Outcome::Success));
    assert_eq!(
        course.requests,
        vec![
            Request::ProbeMetadata,
            Request::Canonicalize,
            Request::ReadLine,
            Request::RemoveFile
        ]
    );
    assert_eq!(
        course.notices,
        vec![
            Notice::Canonicalized("/srv/note".to_string()),
            Notice::Classified(Category::EmptyFile, Some("/srv/note".to_string())),
            Notice::Prompt(Deletable::File("/srv/note".to_string())),
            Notice::Deleted(Deletable::File("/srv/note".to_string())),
        ]
    );
}

#[test]
fn empty_file_declined_exits_with_22() {
    let course = run(&answered(file(0), "n\n", RemovalProbe::Removed), true);
    assert_eq!(course.end, Ok(Outcome::FileDeclined));
    assert_eq!(exit_code(&course.end), 22);
    assert!(asks(&course) && !removes(&course));
    assert_eq!(
        course.notices[3..],
        [
            Notice::Kept(Deletable::File("/srv/note".to_string())),
            Notice::Exiting(Outcome::FileDeclined)
        ]
    );
}

#[test]
fn vanished_file_is_fatal() {
    let mut s = file(0);
    s.canonical = CanonProbe::Failed(Failure::NotFound);
    let course = run(&s, false);
    assert_eq!(course.end, Err(Fatal::FileVanished));
    assert_eq!(course.notices, vec![Notice::NotCanonicalized]);
}

#[test]
fn vanished_directory_is_fatal() {
    let mut s = directory(vec![]);
    s.canonical = CanonProbe::Failed(Failure::NotFound);
    let course = run(&s, false);
    assert_eq!(course.end, Err(Fatal::DirectoryVanished));
    assert_eq!(course.notices, vec![Notice::NotCanonicalized]);
    assert_eq!(course.requests, vec![Request::ProbeMetadata, Request::Canonicalize]);
}

#[test]
fn non_empty_directory_exits_with_31_and_counts_every_child() {
    let children = vec![
        ChildProbe::Kind(EntryKind::File),
        ChildProbe::Kind(EntryKind::Directory),
        ChildProbe::Kind(EntryKind::Symlink),
        ChildProbe::Kind(EntryKind::File),
        ChildProbe::Kind(EntryKind::File),
        ChildProbe::Kind(EntryKind::Symlink),
    ];
    for delete in [false, true] {
        let course = run(&directory(children.clone()), delete);
        assert_eq!(course.end, Ok(Outcome::NonEmptyDirectory));
        assert_eq!(exit_code(&course.end), 31);
        assert!(!asks(&course) && !removes(&course));
        let census = DirectoryCensus { directories: 1, files: 3, symlinks: 2 };
        assert_eq!(census.total(), 6);
        assert_eq!(
            course.notices,
            vec![
                Notice::Canonicalized("/srv/box".to_string()),
                Notice::Classified(
                    Category::NonEmptyDirectory(census),
                    Some("/srv/box".to_string())
                ),
                Notice::Exiting(Outcome::NonEmptyDirectory),
            ]
        );
    }
}

#[test]
fn directory_of_one_empty_subdirectory_is_not_empty() {
    let course = run(&directory(vec![ChildProbe::Kind(EntryKind::Directory)]), true);
    assert_eq!(exit_code(&course.end), 31);
}

#[test]
fn empty_directory_without_flag_succeeds() {
    let course = run(&directory(vec![]), false);
    assert_eq!(course.end, Ok(Outcome::Success));
    assert_eq!(
        course.requests,
        vec![Request::ProbeMetadata, Request::Canonicalize, Request::ListChildren]
    );
    assert_eq!(
        course.notices,
        vec![
            Notice::Canonicalized("/srv/box".to_string()),
            Notice::Classified(Category::EmptyDirectory, Some("/srv/box".to_string())),
        ]
    );
}

#[test]
fn empty_directory_confirmed_is_removed() {
    let course = run(&answered(directory(vec![]), "y\n", RemovalProbe::Removed), true);
    assert_eq!(course.end, Ok(Outcome::Success));
    assert_eq!(exit_code(&course.end), 0);
    assert_eq!(
        course.requests,
        vec![
            Request::ProbeMetadata,
            Request::Canonicalize,
            Request::ListChildren,
            Request::ReadLine,
            Request::RemoveDirectory
        ]
    );
    assert_eq!(
        course.notices[2..],
        [
            Notice::Prompt(Deletable::Directory("/srv/box".to_string())),
            Notice::Deleted(Deletable::Directory("/srv/box".to_string())),
        ]
    );
}

#[test]
fn empty_directory_any_other_answer_exits_with_32() {
    for line in ["", "y", "Y\n", "yes\n", "y\r\n", " y\n", "n\n", "\n", "y\n\n"] {
        let course = run(&answered(directory(vec![]), line, RemovalProbe::Removed), true);
        assert_eq!(course.end, Ok(Outcome::DirectoryDeclined), "{:?}", line);
        assert_eq!(exit_code(&course.end), 32);
        assert!(!removes(&course));
        assert_eq!(
            course.notices[3..],
            [
                Notice::Kept(Deletable::Directory("/srv/box".to_string())),
                Notice::Exiting(Outcome::DirectoryDeclined)
            ]
        );
    }
}

#[test]
fn failed_removal_is_fatal() {
    let course = run(&answered(directory(vec![]), "y\n", RemovalProbe::Failed), true);
    assert_eq!(course.end, Err(Fatal::Remove));
    assert_eq!(exit_code(&course.end), 1);
}

#[test]
fn unread_line_is_fatal() {
    let course = run(&directory(vec![]), true);
    assert_eq!(course.end, Err(Fatal::ReadLine));
    assert!(!removes(&course));
}

#[test]
fn unreadable_directory_is_fatal() {
    let mut s = directory(vec![]);
    s.listing = ListingProbe::Failed;
    assert_eq!(run(&s, false).end, Err(Fatal::ReadDirectory));
}

#[test]
fn first_bad_child_decides_the_error() {
    let file = ChildProbe::Kind(EntryKind::File);
    let cases = [
        (vec![file, ChildProbe::Unreadable, ChildProbe::Untyped], Fatal::EntryAccess),
        (vec![ChildProbe::Untyped, ChildProbe::Unreadable], Fatal::EntryType),
        (
            vec![file, file, ChildProbe::Kind(EntryKind::Other), ChildProbe::Untyped],
            Fatal::EntryUnsupported,
        ),
    ];
    for (children, fatal) in cases {
        let course = run(&directory(children), true);
        assert_eq!(course.end, Err(fatal));
        assert_eq!(course.notices, vec![Notice::Canonicalized("/srv/box".to_string())]);
    }
}

#[test]
fn live_symlink_exits_with_41_whatever_the_flag() {
    for delete in [false, true] {
        let s = answered(
            symlink(CanonProbe::Resolved(Some("/srv/else".to_string()))),
            "y\n",
            RemovalProbe::Removed,
        );
        let course = run(&s, delete);
        assert_eq!(course.end, Ok(Outcome::LiveSymlink));
        assert_eq!(exit_code(&course.end), 41);
        assert!(!asks(&course) && !removes(&course));
        assert_eq!(
            course.requests,
            vec![Request::ProbeMetadata, Request::ReadLink, Request::Canonicalize]
        );
        assert_eq!(
            course.notices,
            vec![
                Notice::Canonicalized("/srv/else".to_string()),
                Notice::Classified(
                    Category::LiveSymlink("../else".to_string(), "/srv/else".to_string()),
                    None
                ),
                Notice::Exiting(Outcome::LiveSymlink),
            ]
        );
    }
}

#[test]
fn dangling_symlink_without_flag_succeeds() {
    let course = run(&symlink(CanonProbe::Failed(Failure::NotFound)), false);
    assert_eq!(course.end, Ok(Outcome::Success));
    assert_eq!(
        course.notices,
        vec![
            Notice::NotCanonicalized,
            Notice::Classified(Category::DanglingSymlink("../else".to_string()), None),
        ]
    );
}

#[test]
fn dangling_symlink_declined_exits_with_42() {
    let s = answered(symlink(CanonProbe::Failed(Failure::NotFound)), "no\n", RemovalProbe::Removed);
    let course = run(&s, true);
    assert_eq!(course.end, Ok(Outcome::SymlinkDeclined));
    assert_eq!(exit_code(&course.end), 42);
    assert!(asks(&course) && !removes(&course));
}

#[test]
fn dangling_symlink_confirmed_is_removed_as_a_file() {
    let s = answered(symlink(CanonProbe::Failed(Failure::NotFound)), "y\n", RemovalProbe::Removed);
    let course = run(&s, true);
    assert_eq!(course.end, Ok(Outcome::Success));
    assert_eq!(exit_code(&course.end), 0);
    assert_eq!(course.requests.last(), Some(&Request::RemoveFile));
    assert_eq!(
        course.notices[2..],
        [
            Notice::Prompt(Deletable::Symlink("../else".to_string())),
            Notice::Deleted(Deletable::Symlink("../else".to_string())),
        ]
    );
}

#[test]
fn symlink_errors_are_fatal() {
    let mut s = symlink(CanonProbe::Failed(Failure::NotFound));
    s.link = LinkProbe::Failed;
    assert_eq!(run(&s, true).end, Err(Fatal::ReadLink));
    s.link = LinkProbe::Undecodable;
    assert_eq!(run(&s, true).end, Err(Fatal::LinkEncoding));
    assert_eq!(
        run(&symlink(CanonProbe::Failed(Failure::PermissionDenied)), true).end,
        Err(Fatal::Canonicalize)
    );
    assert_eq!(
        run(&symlink(CanonProbe::Resolved(None)), true).end,
        Err(Fatal::CanonicalEncoding)
    );
}

#[test]
fn classification_without_removal_repeats() {
    let scenes = [
        scene(MetadataProbe::Failed(Failure::NotFound)),
        file(0),
        file(9),
        directory(vec![]),
        directory(vec![ChildProbe::Kind(EntryKind::Symlink)]),
        symlink(CanonProbe::Failed(Failure::NotFound)),
        symlink(CanonProbe::Resolved(Some("/x".to_string()))),
    ];
    for s in scenes {
        let first = run(&s, false);
        let second = run(&answered(s, "y\n", RemovalProbe::Removed), false);
        assert_eq!(first.end, second.end);
        assert_eq!(first.notices, second.notices);
        assert_eq!(first.requests, second.requests);
        assert!(!asks(&first) && !removes(&first));
    }
}

#[test]
fn finished_state_stays_and_wrong_answer_is_an_error() {
    let step = advance(
        State::Finished(Ok(Outcome::LiveSymlink)),
        Event::Removal(RemovalProbe::Removed),
        true,
    );
    assert_eq!(step.state, State::Finished(Ok(Outcome::LiveSymlink)));
    assert!(step.notices.is_empty());
    let step = advance(State::Probing, Event::Line(LineProbe::Text("y\n".to_string())), true);
    assert_eq!(step.state, State::Finished(Err(Fatal::Protocol)));
    assert!(step.notices.is_empty());
}

#[test]
fn states_name_their_requests() {
    assert_eq!(State::start(), State::Probing);
    assert_eq!(State::Probing.request(), Some(Request::ProbeMetadata));
    assert_eq!(State::ResolvingDirectory.request(), Some(Request::Canonicalize));
    assert_eq!(State::Listing("/a".to_string()).request(), Some(Request::ListChildren));
    assert_eq!(State::ResolvingFile(3).request(), Some(Request::Canonicalize));
    assert_eq!(State::ReadingLink.request(), Some(Request::ReadLink));
    assert_eq!(State::ResolvingLink("t".to_string()).request(), Some(Request::Canonicalize));
    let dir = Deletable::Directory("/a".to_string());
    let file = Deletable::File("/a".to_string());
    let link = Deletable::Symlink("t".to_string());
    assert_eq!(State::Confirming(dir.duplicate()).request(), Some(Request::ReadLine));
    assert_eq!(State::Removing(dir).request(), Some(Request::RemoveDirectory));
    assert_eq!(State::Removing(file).request(), Some(Request::RemoveFile));
    assert_eq!(State::Removing(link).request(), Some(Request::RemoveFile));
    assert_eq!(State::Finished(Err(Fatal::Probe)).request(), None);
}

#[test]
fn canonicalize_tolerates_absence_only() {
    let r = canonicalize(CanonProbe::Resolved(Some("/a/b".to_string())));
    assert_eq!(r.form, Ok(Some("/a/b".to_string())));
    assert_eq!(r.notices, vec![Notice::Canonicalized("/a/b".to_string())]);
    let r = canonicalize(CanonProbe::Failed(Failure::NotFound));
    assert_eq!(r.form, Ok(None));
    assert_eq!(r.notices, vec![Notice::NotCanonicalized]);
    let r = canonicalize(CanonProbe::Failed(Failure::PermissionDenied));
    assert_eq!(r.form, Err(Fatal::Canonicalize));
    assert!(r.notices.is_empty());
    let r = canonicalize(CanonProbe::Failed(Failure::Other));
    assert_eq!(r.form, Err(Fatal::Canonicalize));
    let r = canonicalize(CanonProbe::Resolved(None));
    assert_eq!(r.form, Err(Fatal::CanonicalEncoding));
    assert!(r.notices.is_empty());
}

#[test]
fn only_y_and_line_feed_confirms() {
    assert!(confirms(&"y\n".to_string()));
    for line in ["", "y", "Y\n", "yes\n", "y\r\n", "\ny", "y\n "] {
        assert!(!confirms(&line.to_string()), "{:?}", line);
    }
}

#[test]
fn exit_codes_are_the_documented_ones() {
    let table = [
        (Outcome::Success, 0),
        (Outcome::NotFound, 11),
        (Outcome::PermissionDenied, 12),
        (Outcome::NonEmptyFile, 21),
        (Outcome::FileDeclined, 22),
        (Outcome::NonEmptyDirectory, 31),
        (Outcome::DirectoryDeclined, 32),
        (Outcome::LiveSymlink, 41),
        (Outcome::SymlinkDeclined, 42),
    ];
    for (outcome, code) in table {
        assert_eq!(outcome.code(), code);
        assert_eq!(exit_code(&Ok(outcome)), code);
    }
    assert_eq!(exit_code(&Err(Fatal::Remove)), 1);
    assert_eq!(Deletable::Directory(String::new()).when_declined(), Outcome::DirectoryDeclined);
    assert_eq!(Deletable::File(String::new()).when_declined(), Outcome::FileDeclined);
    assert_eq!(Deletable::Symlink(String::new()).when_declined(), Outcome::SymlinkDeclined);
}
