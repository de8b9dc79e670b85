//! Coloured status text for the console, as plain strings.

use vstd::prelude::*;
use vstd::string::*;
use ansi_term::Colour;

verus! {

/// A terminal foreground colour.
#[derive(Clone, Copy, Debug, PartialEq, Eq, Structural)]
pub enum Tint {
    Red,
    Green,
    Yellow,
    Blue,
}

/// What a piece of status text means to the user.
#[derive(Clone, Copy, Debug, PartialEq, Eq, Structural)]
pub enum Intent {
    Success,
    Error,
    Warning,
    /// The thing acted on: a URL, or the path being moved.
    Subject,
    /// Where the thing ends up.
    Destination,
}

/// The colour each intent is shown in.
pub open spec fn tint_for(intent: Intent) -> Tint {
    match intent {
        Intent::Success => Tint::Green,
        Intent::Error => Tint::Red,
        Intent::Warning => Tint::Red,
        Intent::Subject => Tint::Blue,
        Intent::Destination => Tint::Yellow,
    }
}

/// The escape sequence that switches the foreground to `tint`.
pub open spec fn tint_start(tint: Tint) -> Seq<char> {
    let digit = match tint {
        Tint::Red => '1',
        Tint::Green => '2',
        Tint::Yellow => '3',
        Tint::Blue => '4',
    };
    seq!['\u{1b}', '[', '3', digit, 'm']
}

/// The escape sequence that resets all styles.
pub open spec fn style_reset() -> Seq<char> {
    seq!['\u{1b}', '[', '0', 'm']
}

/// `text` shown in `tint`.
pub open spec fn painted(tint: Tint, text: Seq<char>) -> Seq<char> {
    tint_start(tint) + text + style_reset()
}

/// Relies on `ansi_term::Colour::paint` and its `Display`: a plain
/// foreground colour writes its code, the text, then the reset code.
#[verifier::external_body]
fn paint(tint: Tint, text: &str) -> (r: String)
    ensures
        r@ == painted(tint, text@),
{
    let colour = match tint {
        Tint::Red => Colour::Red,
        Tint::Green => Colour::Green,
        Tint::Yellow => Colour::Yellow,
        Tint::Blue => Colour::Blue,
    };
    colour.paint(text).to_string()
}

/// The colour for `intent`.
pub fn tint_of(intent: Intent) -> (r: Tint)
    ensures
        r == tint_for(intent),
{
    match intent {
        Intent::Success => Tint::Green,
        Intent::Error => Tint::Red,
        Intent::Warning => Tint::Red,
        Intent::Subject => Tint::Blue,
        Intent::Destination => Tint::Yellow,
    }
}

/// `text` coloured for what it means.
pub fn render(intent: Intent, text: &str) -> (r: String)
    ensures
        r@ == painted(tint_for(intent), text@),
{
    paint(tint_of(intent), text)
}

/// An error line: a red "Error:" label, then the message in red.
pub fn error_line(message: &str) -> (r: String)
    ensures
        r@ == painted(Tint::Red, "Error:"@) + " "@ + painted(Tint::Red, message@),
{
    let label = render(Intent::Error, "Error:");
    let body = render(Intent::Error, message);
    label.concat(" ").concat(body.as_str())
}

/// The line shown after a move.
pub fn moved_line(from: &str, to: &str) -> (r: String)
    ensures
        r@ == painted(Tint::Green, "Success"@) + ": Moved "@ + painted(Tint::Blue, from@) + " -> "@
            + painted(Tint::Yellow, to@),
{
    let label = render(Intent::Success, "Success");
    let a = render(Intent::Subject, from);
    let b = render(Intent::Destination, to);
    label.concat(": Moved ").concat(a.as_str()).concat(" -> ").concat(b.as_str())
}

/// The line shown after a download.
pub fn downloaded_line(url: &str, path: &str) -> (r: String)
    ensures
        r@ == painted(Tint::Green, "Success"@) + ": Downloaded "@ + painted(Tint::Blue, url@)
            + " \u{2192} "@ + painted(Tint::Yellow, path@),
{
    let label = render(Intent::Success, "Success");
    let a = render(Intent::Subject, url);
    let b = render(Intent::Destination, path);
    label.concat(": Downloaded ").concat(a.as_str()).concat(" \u{2192} ").concat(b.as_str())
}

/// The question asked before a delete.
pub fn delete_warning(path: &str) -> (r: String)
    ensures
        r@ == painted(Tint::Red, "WARNING"@) + ": This command will remove the following file: "@
            + path@ + "\nAre you sure you want to continue (y/n)?"@,
{
    let label = render(Intent::Warning, "WARNING");
    label.concat(": This command will remove the following file: ").concat(path).concat(
        "\nAre you sure you want to continue (y/n)?",
    )
}

} // verus!
