//! The command line: which action was asked for, whether the flags agree,
//! and how the answer to the delete prompt is read.

use vstd::prelude::*;
use vstd::string::*;

verus! {

/// The parsed command line.
pub struct Args {
    /// Delete mode.
    pub delete: bool,
    /// Install (download) mode.
    pub install: bool,
    /// Move mode.
    pub move_file: bool,
    /// The path to install to, delete or move.
    pub path: String,
    /// Where to move the path to.
    pub move_to: Option<String>,
    /// The URL to download.
    pub url: Option<String>,
}

/// Why a command line was refused.
#[derive(Clone, Copy, Debug, PartialEq, Eq, Structural)]
pub enum UsageError {
    /// None of the three modes was asked for.
    NoAction,
    /// Two or more modes were asked for at once.
    ConflictingModes,
    /// A URL was given to delete or move mode.
    UrlNotAllowed,
    /// Move mode without a destination.
    MissingMoveTo,
    /// Install mode without a URL.
    MissingUrl,
    /// A destination was given to install or delete mode.
    MoveToNotAllowed,
}

/// The one action a valid command line asks for.
pub enum Action {
    Install { url: String, path: String },
    Delete { path: String },
    Move { from: String, to: String },
}

/// The verdict on a command line, from its three mode flags and whether a
/// URL and a destination were given.
pub open spec fn usage_verdict(
    install: bool,
    delete: bool,
    move_file: bool,
    has_url: bool,
    has_move_to: bool,
) -> Result<(), UsageError> {
    let modes = (if install { 1int } else { 0int }) + (if delete { 1int } else { 0int }) + (
    if move_file {
        1int
    } else {
        0int
    });
    if modes == 0 {
        Err(UsageError::NoAction)
    } else if modes > 1 {
        Err(UsageError::ConflictingModes)
    } else if (delete || move_file) && has_url {
        Err(UsageError::UrlNotAllowed)
    } else if move_file && !has_move_to {
        Err(UsageError::MissingMoveTo)
    } else if install && !has_url {
        Err(UsageError::MissingUrl)
    } else if !move_file && has_move_to {
        Err(UsageError::MoveToNotAllowed)
    } else {
        Ok(())
    }
}

/// The verdict on `args`.
pub open spec fn args_verdict(args: &Args) -> Result<(), UsageError> {
    usage_verdict(args.install, args.delete, args.move_file, args.url is Some, args.move_to is Some)
}

impl UsageError {
    /// The text shown to the user for this error.
    pub open spec fn text(&self) -> Seq<char> {
        match self {
            UsageError::NoAction => "No action specified"@,
            UsageError::ConflictingModes => "Can only use one of --install, --delete, or --move-file at a time"@,
            UsageError::UrlNotAllowed => "delete/move mode does not take a URL"@,
            UsageError::MissingMoveTo => "move mode requires --move-to"@,
            UsageError::MissingUrl => "install mode requires a URL"@,
            UsageError::MoveToNotAllowed => "install/delete mode does not take --move-to"@,
        }
    }

    /// The text shown to the user for this error.
    pub fn message(&self) -> (r: String)
        ensures
            r@ == self.text(),
    {
        match self {
            UsageError::NoAction => String::from_str("No action specified"),
            UsageError::ConflictingModes => String::from_str(
                "Can only use one of --install, --delete, or --move-file at a time",
            ),
            UsageError::UrlNotAllowed => String::from_str("delete/move mode does not take a URL"),
            UsageError::MissingMoveTo => String::from_str("move mode requires --move-to"),
            UsageError::MissingUrl => String::from_str("install mode requires a URL"),
            UsageError::MoveToNotAllowed => String::from_str(
                "install/delete mode does not take --move-to",
            ),
        }
    }
}

/// Checks that exactly one mode was asked for, that a URL is given exactly
/// in install mode, and a destination exactly in move mode.
pub fn validate(args: &Args) -> (r: Result<(), UsageError>)
    ensures
        r == args_verdict(args),
{
    let modes: u8 = (if args.install { 1u8 } else { 0u8 }) + (if args.delete { 1u8 } else { 0u8 })
        + (if args.move_file { 1u8 } else { 0u8 });
    if modes == 0 {
        return Err(UsageError::NoAction);
    }
    if modes > 1 {
        return Err(UsageError::ConflictingModes);
    }
    if (args.delete || args.move_file) && args.url.is_some() {
        return Err(UsageError::UrlNotAllowed);
    }
    if args.move_file && args.move_to.is_none() {
        return Err(UsageError::MissingMoveTo);
    }
    if args.install && args.url.is_none() {
        return Err(UsageError::MissingUrl);
    }
    if !args.move_file && args.move_to.is_some() {
        return Err(UsageError::MoveToNotAllowed);
    }
    Ok(())
}

/// Turns a command line into the one action it asks for, or refuses it
/// before anything is touched.
pub fn dispatch(args: &Args) -> (r: Result<Action, UsageError>)
    ensures
        args_verdict(args) is Err ==> r is Err && r->Err_0 == args_verdict(args)->Err_0,
        args_verdict(args) is Ok ==> r is Ok,
        r is Ok ==> match r->Ok_0 {
            Action::Install { url, path } => args.install && args.url == Some(url) && path@ == args.path@,
            Action::Delete { path } => args.delete && path@ == args.path@,
            Action::Move { from, to } => args.move_file && args.move_to == Some(to) && from@ == args.path@,
        },
{
    match validate(args) {
        Err(e) => Err(e),
        Ok(()) => {
            if args.install {
                match &args.url {
                    Some(u) => Ok(Action::Install { url: u.clone(), path: args.path.clone() }),
                    None => Err(UsageError::MissingUrl),
                }
            } else if args.delete {
                Ok(Action::Delete { path: args.path.clone() })
            } else {
                match &args.move_to {
                    Some(d) => Ok(Action::Move { from: args.path.clone(), to: d.clone() }),
                    None => Err(UsageError::MissingMoveTo),
                }
            }
        },
    }
}

/// How a path is removed.
#[derive(Clone, Copy, Debug, PartialEq, Eq, Structural)]
pub enum Removal {
    /// A single file.
    File,
    /// A directory with everything under it.
    Tree,
}

/// Why a path cannot be removed.
#[derive(Clone, Copy, Debug, PartialEq, Eq, Structural)]
pub enum RemovalError {
    /// Nothing exists at the path.
    NotFound,
}

/// How to remove a path, from whether it exists and whether it is a file:
/// files one by one, anything else as a whole tree.
pub fn plan_removal(exists: bool, is_file: bool) -> (r: Result<Removal, RemovalError>)
    ensures
        !exists ==> r == Err::<Removal, RemovalError>(RemovalError::NotFound),
        exists && is_file ==> r == Ok::<Removal, RemovalError>(Removal::File),
        exists && !is_file ==> r == Ok::<Removal, RemovalError>(Removal::Tree),
{
    if !exists {
        Err(RemovalError::NotFound)
    } else if is_file {
        Ok(Removal::File)
    } else {
        Ok(Removal::Tree)
    }
}

/// Whenever two or more modes are asked for at once, the command line is
/// refused as conflicting, whatever else it holds, so no action is chosen.
pub proof fn lemma_conflicting_modes_refused(args: &Args)
    requires
        (args.install && args.delete) || (args.install && args.move_file) || (args.delete
            && args.move_file),
    ensures
        args_verdict(args) == Err::<(), UsageError>(UsageError::ConflictingModes),
{
}

/// Whether `c` has the Unicode White_Space property.
pub open spec fn is_white_space(c: char) -> bool {
    ('\u{9}' <= c && c <= '\u{d}') || c == ' ' || c == '\u{85}' || c == '\u{a0}' || c
        == '\u{1680}' || ('\u{2000}' <= c && c <= '\u{200a}') || c == '\u{2028}' || c
        == '\u{2029}' || c == '\u{202f}' || c == '\u{205f}' || c == '\u{3000}'
}

/// `s` without its leading white space.
pub open spec fn trim_start_of(s: Seq<char>) -> Seq<char>
    decreases s.len(),
{
    if s.len() > 0 && is_white_space(s[0]) {
        trim_start_of(s.drop_first())
    } else {
        s
    }
}

/// `s` without its trailing white space.
pub open spec fn trim_end_of(s: Seq<char>) -> Seq<char>
    decreases s.len(),
{
    if s.len() > 0 && is_white_space(s.last()) {
        trim_end_of(s.drop_last())
    } else {
        s
    }
}

/// The text `s` with leading and trailing white space removed.
pub open spec fn trimmed_of(s: Seq<char>) -> Seq<char> {
    trim_end_of(trim_start_of(s))
}

/// The lower-case form of `s`.
pub uninterp spec fn lowercase_of(s: Seq<char>) -> Seq<char>;

/// Relies on `str::trim`: it removes leading and trailing characters with
/// the Unicode White_Space property.
#[verifier::external_body]
fn trim_text(s: &str) -> (r: &str)
    ensures
        r@ == trimmed_of(s@),
{
    s.trim()
}

/// Relies on `str::to_lowercase`: the result depends on the text alone.
#[verifier::external_body]
fn lowercase_text(s: &str) -> (r: String)
    ensures
        r@ == lowercase_of(s@),
{
    s.to_lowercase()
}

/// An answer that turns the delete down.
pub open spec fn is_refusal_text(answer: Seq<char>) -> bool {
    answer == "n"@ || answer == "no"@
}

/// Whether an answer, already trimmed and in lower case, turns the delete
/// down.
pub fn is_refusal(answer: &String) -> (r: bool)
    ensures
        r == is_refusal_text(answer@),
{
    let n = String::from_str("n");
    let no = String::from_str("no");
    *answer == n || *answer == no
}

/// Whether a line typed at the delete prompt turns the delete down: "n" or
/// "no", in any case, with any white space around it.
pub fn declines(input: &str) -> (r: bool)
    ensures
        r == is_refusal_text(lowercase_of(trimmed_of(input@))),
{
    let trimmed = trim_text(input);
    let lowered = lowercase_text(trimmed);
    is_refusal(&lowered)
}

} // verus!
