//! The wording of the messages, and the stream that each goes to.
use crate::model::{Category, Deletable, DirectoryCensus, Fatal, Notice};
use crate::style::{
    bold, bold_if_greater_than_zero, decimal, digits, emboldened, emphasized, green, greened,
    red, reddened,
};
use vstd::prelude::*;

verus! {

/// Where a message goes.
#[derive(Clone, Copy, Debug, PartialEq, Eq, Structural)]
pub enum Stream {
    /// Standard output: what was found, and what was done about it.
    Output,
    /// Standard error: diagnostics, warnings and the question.
    Diagnostic,
}

/// The stream that a message goes to.
pub open spec fn stream_of(notice: Notice) -> Stream {
    match notice {
        Notice::Classified(_, _) => Stream::Output,
        Notice::Deleted(_) => Stream::Output,
        Notice::Kept(_) => Stream::Output,
        _ => Stream::Diagnostic,
    }
}

/// The stream that a message goes to.
pub fn stream(notice: &Notice) -> (stream: Stream)
    ensures
        stream == stream_of(*notice),
{
    match notice {
        Notice::Classified(_, _) => Stream::Output,
        Notice::Deleted(_) => Stream::Output,
        Notice::Kept(_) => Stream::Output,
        _ => Stream::Diagnostic,
    }
}

/// The mark before a finding that is not "empty".
pub open spec fn cross() -> Seq<char> {
    reddened(emboldened("🗙"@))
}

/// The mark before a finding that is "empty".
pub open spec fn tick() -> Seq<char> {
    greened(emboldened("✔️"@))
}

/// The wording of a finding. `place` is the canonical path of a directory or
/// a file; a symbolic link is shown by `path`, the path as it was given.
pub open spec fn finding_text(category: Category, place: Seq<char>, path: Seq<char>) -> Seq<
    char,
> {
    match category {
        Category::EmptyDirectory => " "@ + tick() + "  Path \""@ + emboldened(place)
            + "\" is an "@ + greened(emboldened("empty directory"@)),
        Category::NonEmptyDirectory(census) => " "@ + cross() + "  Path \""@ + emboldened(place)
            + "\" is a "@ + reddened(emboldened("non-empty directory"@)) + " (directories: "@
            + emphasized(census.directories as nat) + ", files: "@ + emphasized(
            census.files as nat,
        ) + ", symlinks: "@ + emphasized(census.symlinks as nat) + ", total items: "@
            + emphasized(census.sum()) + ")"@,
        Category::EmptyFile => " "@ + tick() + "  Path \""@ + emboldened(place) + "\" is an "@
            + greened(emboldened("empty file"@)),
        Category::NonEmptyFile(len) => " "@ + cross() + "  Path \""@ + emboldened(place)
            + "\" is a "@ + reddened(emboldened("non-empty file"@)) + " (bytes: "@ + emboldened(
            digits(len as nat),
        ) + ")"@,
        Category::DanglingSymlink(target) => " "@ + tick() + "  Path \""@ + emboldened(path)
            + "\" (non-canonicalized) is a symbolic link to non-existent file \""@ + emboldened(
            target@,
        ) + "\" (non-canonicalized)"@,
        Category::LiveSymlink(target, resolved) => " "@ + cross() + "  Path \""@ + emboldened(
            path,
        ) + "\" (non-canonicalized) is a symbolic link to \""@ + emboldened(target@)
            + "\" (resolves to \""@ + resolved@ + "\")"@,
    }
}

/// The wording of the question whether to remove what was found empty, with
/// the warning that its state is not looked at again.
pub open spec fn prompt_text(subject: Deletable, path: Seq<char>) -> Seq<char> {
    match subject {
        Deletable::Directory(place) => "Are you sure you want to delete empty directory \""@
            + emboldened(place@)
            + "\"? (\"y\")\n(Note that no file locking or revalidation is performed, and the directory may be non-empty by the time you respond to this prompt!)"@,
        Deletable::File(place) => "Are you sure you want to delete empty file \""@ + emboldened(
            place@,
        )
            + "\"? (\"y\")\n(Note that no file locking or revalidation is performed, and the file may be non-empty by the time you respond to this prompt!)"@,
        Deletable::Symlink(target) => "Are you sure you want to delete symbolic link \""@
            + emboldened(path) + "\" (non-canonicalized) pointing to non-existent file \""@
            + emboldened(target@)
            + "\"? (non-canonicalized) (\"y\")\n(Note that no file locking or revalidation is performed, and the symbolic link destination may exist by the time you respond to this prompt!)"@,
    }
}

/// The wording of the report that the object was removed.
pub open spec fn deleted_text(subject: Deletable, path: Seq<char>) -> Seq<char> {
    match subject {
        Deletable::Directory(place) => "Deleted empty directory \""@ + emboldened(place@) + "\""@,
        Deletable::File(place) => "Deleted empty file \""@ + emboldened(place@) + "\""@,
        Deletable::Symlink(_) => "Deleted symbolic link \""@ + emboldened(path)
            + "\" (non-canonicalized)"@,
    }
}

/// The wording of the report that the removal was declined.
pub open spec fn kept_text(subject: Deletable) -> Seq<char> {
    match subject {
        Deletable::Directory(_) => "Input was not \"y\", not deleting empty directory"@,
        Deletable::File(_) => "Input was not \"y\", not deleting empty file"@,
        Deletable::Symlink(_) => "Input was not \"y\", not deleting symbolic link"@,
    }
}

/// The path under which a finding is shown: the canonical one where there is
/// one, else the path as it was given.
pub open spec fn place_of(shown: Option<String>, path: Seq<char>) -> Seq<char> {
    match shown {
        Some(canonical) => canonical@,
        None => path,
    }
}

/// The wording of a message about the path that was given as `path`,
/// without the line terminator.
pub open spec fn worded(notice: Notice, path: Seq<char>) -> Seq<char> {
    match notice {
        Notice::Missing => "Path \""@ + emboldened(path) + "\" does not exist"@,
        Notice::Denied => "Permission to path \""@ + emboldened(path) + "\" was denied"@,
        Notice::Canonicalized(canonical) => "Canonicalized input path \""@ + emboldened(path)
            + "\" to \""@ + emboldened(canonical@) + "\""@,
        Notice::NotCanonicalized => "Could not canonicalize input path \""@ + emboldened(path)
            + "\" because it or the file it resolves to does not exist"@,
        Notice::Classified(category, shown) => finding_text(
            category,
            place_of(shown, path),
            path,
        ),
        Notice::Prompt(subject) => prompt_text(subject, path),
        Notice::Deleted(subject) => deleted_text(subject, path),
        Notice::Kept(subject) => kept_text(subject),
        Notice::Exiting(outcome) => "Exiting with non-zero exit code "@ + emboldened(
            digits(outcome.code_of() as nat),
        ),
    }
}

fn put_bold(out: &mut String, text: &str)
    ensures
        final(out)@ == old(out)@ + emboldened(text@),
{
    let styled = bold(text);
    out.append(styled.as_str());
}

fn put_count(out: &mut String, count: u32)
    ensures
        final(out)@ == old(out)@ + emphasized(count as nat),
{
    let styled = bold_if_greater_than_zero(count);
    out.append(styled.as_str());
}

fn put_total(out: &mut String, census: &DirectoryCensus)
    ensures
        final(out)@ == old(out)@ + emphasized(census.sum()),
{
    let total: u64 = census.directories as u64 + census.files as u64 + census.symlinks as u64;
    let plain = decimal(total);
    if total > 0 {
        put_bold(out, plain.as_str());
    } else {
        out.append(plain.as_str());
    }
}

fn put_cross(out: &mut String)
    ensures
        final(out)@ == old(out)@ + cross(),
{
    let strong = bold("🗙");
    let styled = red(strong.as_str());
    out.append(styled.as_str());
}

fn put_tick(out: &mut String)
    ensures
        final(out)@ == old(out)@ + tick(),
{
    let strong = bold("✔️");
    let styled = green(strong.as_str());
    out.append(styled.as_str());
}

fn put_bad(out: &mut String, text: &str)
    ensures
        final(out)@ == old(out)@ + reddened(emboldened(text@)),
{
    let strong = bold(text);
    let styled = red(strong.as_str());
    out.append(styled.as_str());
}

fn put_good(out: &mut String, text: &str)
    ensures
        final(out)@ == old(out)@ + greened(emboldened(text@)),
{
    let strong = bold(text);
    let styled = green(strong.as_str());
    out.append(styled.as_str());
}

fn render_finding(category: &Category, place: &str, path: &str) -> (text: String)
    ensures
        text@ == finding_text(*category, place@, path@),
{
    let mut out = String::from_str(" ");
    match category {
        Category::EmptyDirectory => {
            put_tick(&mut out);
            out.append("  Path \"");
            put_bold(&mut out, place);
            out.append("\" is an ");
            put_good(&mut out, "empty directory");
        },
        Category::NonEmptyDirectory(census) => {
            put_cross(&mut out);
            out.append("  Path \"");
            put_bold(&mut out, place);
            out.append("\" is a ");
            put_bad(&mut out, "non-empty directory");
            out.append(" (directories: ");
            put_count(&mut out, census.directories);
            out.append(", files: ");
            put_count(&mut out, census.files);
            out.append(", symlinks: ");
            put_count(&mut out, census.symlinks);
            out.append(", total items: ");
            put_total(&mut out, census);
            out.append(")");
        },
        Category::EmptyFile => {
            put_tick(&mut out);
            out.append("  Path \"");
            put_bold(&mut out, place);
            out.append("\" is an ");
            put_good(&mut out, "empty file");
        },
        Category::NonEmptyFile(len) => {
            put_cross(&mut out);
            out.append("  Path \"");
            put_bold(&mut out, place);
            out.append("\" is a ");
            put_bad(&mut out, "non-empty file");
            out.append(" (bytes: ");
            let bytes = decimal(*len);
            put_bold(&mut out, bytes.as_str());
            out.append(")");
        },
        Category::DanglingSymlink(target) => {
            put_tick(&mut out);
            out.append("  Path \"");
            put_bold(&mut out, path);
            out.append("\" (non-canonicalized) is a symbolic link to non-existent file \"");
            put_bold(&mut out, target.as_str());
            out.append("\" (non-canonicalized)");
        },
        Category::LiveSymlink(target, resolved) => {
            put_cross(&mut out);
            out.append("  Path \"");
            put_bold(&mut out, path);
            out.append("\" (non-canonicalized) is a symbolic link to \"");
            put_bold(&mut out, target.as_str());
            out.append("\" (resolves to \"");
            out.append(resolved.as_str());
            out.append("\")");
        },
    }
    out
}

fn render_prompt(subject: &Deletable, path: &str) -> (text: String)
    ensures
        text@ == prompt_text(*subject, path@),
{
    match subject {
        Deletable::Directory(place) => {
            let mut out = String::from_str("Are you sure you want to delete empty directory \"");
            put_bold(&mut out, place.as_str());
            out.append(
                "\"? (\"y\")\n(Note that no file locking or revalidation is performed, and the directory may be non-empty by the time you respond to this prompt!)",
            );
            out
        },
        Deletable::File(place) => {
            let mut out = String::from_str("Are you sure you want to delete empty file \"");
            put_bold(&mut out, place.as_str());
            out.append(
                "\"? (\"y\")\n(Note that no file locking or revalidation is performed, and the file may be non-empty by the time you respond to this prompt!)",
            );
            out
        },
        Deletable::Symlink(target) => {
            let mut out = String::from_str("Are you sure you want to delete symbolic link \"");
            put_bold(&mut out, path);
            out.append("\" (non-canonicalized) pointing to non-existent file \"");
            put_bold(&mut out, target.as_str());
            out.append(
                "\"? (non-canonicalized) (\"y\")\n(Note that no file locking or revalidation is performed, and the symbolic link destination may exist by the time you respond to this prompt!)",
            );
            out
        },
    }
}

fn render_deleted(subject: &Deletable, path: &str) -> (text: String)
    ensures
        text@ == deleted_text(*subject, path@),
{
    match subject {
        Deletable::Directory(place) => {
            let mut out = String::from_str("Deleted empty directory \"");
            put_bold(&mut out, place.as_str());
            out.append("\"");
            out
        },
        Deletable::File(place) => {
            let mut out = String::from_str("Deleted empty file \"");
            put_bold(&mut out, place.as_str());
            out.append("\"");
            out
        },
        Deletable::Symlink(_) => {
            let mut out = String::from_str("Deleted symbolic link \"");
            put_bold(&mut out, path);
            out.append("\" (non-canonicalized)");
            out
        },
    }
}

fn render_kept(subject: &Deletable) -> (text: String)
    ensures
        text@ == kept_text(*subject),
{
    match subject {
        Deletable::Directory(_) => String::from_str(
            "Input was not \"y\", not deleting empty directory",
        ),
        Deletable::File(_) => String::from_str("Input was not \"y\", not deleting empty file"),
        Deletable::Symlink(_) => String::from_str(
            "Input was not \"y\", not deleting symbolic link",
        ),
    }
}

/// Words a message about the path that was given as `path`, with the
/// emphasis and the colours of a terminal and without a line terminator.
pub fn render(notice: &Notice, path: &str) -> (text: String)
    ensures
        text@ == worded(*notice, path@),
{
    match notice {
        Notice::Missing => {
            let mut out = String::from_str("Path \"");
            put_bold(&mut out, path);
            out.append("\" does not exist");
            out
        },
        Notice::Denied => {
            let mut out = String::from_str("Permission to path \"");
            put_bold(&mut out, path);
            out.append("\" was denied");
            out
        },
        Notice::Canonicalized(canonical) => {
            let mut out = String::from_str("Canonicalized input path \"");
            put_bold(&mut out, path);
            out.append("\" to \"");
            put_bold(&mut out, canonical.as_str());
            out.append("\"");
            out
        },
        Notice::NotCanonicalized => {
            let mut out = String::from_str("Could not canonicalize input path \"");
            put_bold(&mut out, path);
            out.append("\" because it or the file it resolves to does not exist");
            out
        },
        Notice::Classified(category, shown) => {
            let place = match shown {
                Some(canonical) => canonical.as_str(),
                None => path,
            };
            render_finding(category, place, path)
        },
        Notice::Prompt(subject) => render_prompt(subject, path),
        Notice::Deleted(subject) => render_deleted(subject, path),
        Notice::Kept(subject) => render_kept(subject),
        Notice::Exiting(outcome) => {
            let mut out = String::from_str("Exiting with non-zero exit code ");
            let code = decimal(outcome.code() as u64);
            put_bold(&mut out, code.as_str());
            out
        },
    }
}

/// What is said of a fatal error beside its cause: what was being done when
/// it struck. Nothing is said where the cause, the error of the operating
/// system, is the whole report.
pub open spec fn context_of(fatal: Fatal, path: Seq<char>) -> Option<Seq<char>> {
    match fatal {
        Fatal::Probe => None,
        Fatal::Unsupported => Some(
            "Path \""@ + path + "\" is not a directory, file, or symlink"@,
        ),
        Fatal::Canonicalize => None,
        Fatal::CanonicalEncoding => Some("Could not convert path to a UTF-8 string"@),
        Fatal::DirectoryVanished => Some("Could not canonicalize directory path"@),
        Fatal::FileVanished => Some("Could not canonicalize file path"@),
        Fatal::ReadDirectory => Some("Could not read directory"@),
        Fatal::EntryAccess => Some("Could not access directory entry"@),
        Fatal::EntryType => Some("Could not get the directory entry's file type"@),
        Fatal::EntryUnsupported => Some(
            "Encountered directory entry that is not a directory, file, or symlink"@,
        ),
        Fatal::ReadLink => Some("Could not read symbolic link"@),
        Fatal::LinkEncoding => Some("Could not convert symbolic link path to a UTF-8 string"@),
        Fatal::ReadLine => None,
        Fatal::Remove => None,
        Fatal::Protocol => Some("Could not match the answer to the request"@),
    }
}

/// Words what was being done when a fatal error struck, where there is
/// anything to say beside its cause.
pub fn context(fatal: Fatal, path: &str) -> (text: Option<String>)
    ensures
        text is Some <==> context_of(fatal, path@) is Some,
        text is Some ==> text->Some_0@ == context_of(fatal, path@)->Some_0,
{
    match fatal {
        Fatal::Probe => None,
        Fatal::Unsupported => {
            let mut out = String::from_str("Path \"");
            out.append(path);
            out.append("\" is not a directory, file, or symlink");
            Some(out)
        },
        Fatal::Canonicalize => None,
        Fatal::CanonicalEncoding => Some(
            String::from_str("Could not convert path to a UTF-8 string"),
        ),
        Fatal::DirectoryVanished => Some(String::from_str("Could not canonicalize directory path")),
        Fatal::FileVanished => Some(String::from_str("Could not canonicalize file path")),
        Fatal::ReadDirectory => Some(String::from_str("Could not read directory")),
        Fatal::EntryAccess => Some(String::from_str("Could not access directory entry")),
        Fatal::EntryType => Some(
            String::from_str("Could not get the directory entry's file type"),
        ),
        Fatal::EntryUnsupported => Some(
            String::from_str(
                "Encountered directory entry that is not a directory, file, or symlink",
            ),
        ),
        Fatal::ReadLink => Some(String::from_str("Could not read symbolic link")),
        Fatal::LinkEncoding => Some(
            String::from_str("Could not convert symbolic link path to a UTF-8 string"),
        ),
        Fatal::ReadLine => None,
        Fatal::Remove => None,
        Fatal::Protocol => Some(String::from_str("Could not match the answer to the request")),
    }
}

} // verus!
