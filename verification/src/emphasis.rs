//! Text with a semantic emphasis. The emphasis is advisory: it decides how a
//! text is shown on a terminal, never what the report says.

use colored::Colorize;
use crate::text::occurs_in;
use vstd::prelude::*;

verus! {

/// What a text stands for in a report.
#[derive(Clone, Copy, Debug, PartialEq, Eq, Structural)]
pub enum Tag {
    /// A value that was read as expected.
    Success,
    /// A fallback that replaces a value that could not be read.
    Dim,
    /// Something that did not work or cannot be done.
    Error,
    /// A remark that precedes the findings.
    Note,
    /// A finding that deserves a look.
    Warning,
    /// A finding that calls for action.
    Alert,
    /// No emphasis at all.
    Neutral,
}

/// A text together with its emphasis.
#[derive(Clone, Debug, PartialEq, Eq)]
pub struct TaggedText {
    pub text: String,
    pub tag: Tag,
}

impl View for TaggedText {
    type V = (Seq<char>, Tag);

    open spec fn view(&self) -> (Seq<char>, Tag) {
        (self.text@, self.tag)
    }
}

/// The characters that open a terminal control sequence.
pub open spec fn sequence_start() -> Seq<char> {
    seq!['\u{1b}', '[']
}

/// The control sequence that ends every emphasis.
pub open spec fn reset_sequence() -> Seq<char> {
    seq!['\u{1b}', '[', '0', 'm']
}

/// The terminal's code for the emphasis of `tag`.
pub open spec fn style_code(tag: Tag) -> Seq<char> {
    match tag {
        Tag::Success => seq!['3', '2'],
        Tag::Dim => seq!['2'],
        Tag::Error => seq!['3', '1'],
        Tag::Note => seq!['3', '4'],
        Tag::Warning => seq!['3', '3'],
        Tag::Alert => seq!['9', '1'],
        Tag::Neutral => Seq::empty(),
    }
}

/// `text` between the control sequence that switches the emphasis of `tag` on
/// and the one that switches it off again.
pub open spec fn styled(tag: Tag, text: Seq<char>) -> Seq<char> {
    sequence_start() + style_code(tag) + seq!['m'] + text + reset_sequence()
}

/// Whether `shown` is a way to show `text` with the emphasis of `tag`.
///
/// Text without emphasis is shown as it is. Other text is shown as it is
/// where the output takes no colours, and styled where it does. Of a text
/// that itself holds a reset sequence nothing is said.
pub open spec fn shows(tag: Tag, text: Seq<char>, shown: Seq<char>) -> bool {
    if tag == Tag::Neutral {
        shown == text
    } else {
        shown == text || occurs_in(reset_sequence(), text) || shown == styled(tag, text)
    }
}

/// `colored::Colorize::green` on a `&str`, then the `Display` of the
/// `ColoredString`. Trusted: the result is the text itself where colouring is
/// off, and else the text behind `ESC[32m` and before `ESC[0m`, unless the
/// text holds a reset sequence of its own.
#[verifier::external_body]
fn green(text: &str) -> (shown: String)
    ensures
        shows(Tag::Success, text@, shown@),
{
    text.green().to_string()
}

/// `colored::Colorize::dimmed` on a `&str`, then the `Display` of the
/// `ColoredString`. Trusted: the result is the text itself where colouring is
/// off, and else the text behind `ESC[2m` and before `ESC[0m`, unless the
/// text holds a reset sequence of its own.
#[verifier::external_body]
fn dimmed(text: &str) -> (shown: String)
    ensures
        shows(Tag::Dim, text@, shown@),
{
    text.dimmed().to_string()
}

/// `colored::Colorize::red` on a `&str`, then the `Display` of the
/// `ColoredString`. Trusted: the result is the text itself where colouring is
/// off, and else the text behind `ESC[31m` and before `ESC[0m`, unless the
/// text holds a reset sequence of its own.
#[verifier::external_body]
fn red(text: &str) -> (shown: String)
    ensures
        shows(Tag::Error, text@, shown@),
{
    text.red().to_string()
}

/// `colored::Colorize::blue` on a `&str`, then the `Display` of the
/// `ColoredString`. Trusted: the result is the text itself where colouring is
/// off, and else the text behind `ESC[34m` and before `ESC[0m`, unless the
/// text holds a reset sequence of its own.
#[verifier::external_body]
fn blue(text: &str) -> (shown: String)
    ensures
        shows(Tag::Note, text@, shown@),
{
    text.blue().to_string()
}

/// `colored::Colorize::yellow` on a `&str`, then the `Display` of the
/// `ColoredString`. Trusted: the result is the text itself where colouring is
/// off, and else the text behind `ESC[33m` and before `ESC[0m`, unless the
/// text holds a reset sequence of its own.
#[verifier::external_body]
fn yellow(text: &str) -> (shown: String)
    ensures
        shows(Tag::Warning, text@, shown@),
{
    text.yellow().to_string()
}

/// `colored::Colorize::bright_red` on a `&str`, then the `Display` of the
/// `ColoredString`. Trusted: the result is the text itself where colouring is
/// off, and else the text behind `ESC[91m` and before `ESC[0m`, unless the
/// text holds a reset sequence of its own.
#[verifier::external_body]
fn bright_red(text: &str) -> (shown: String)
    ensures
        shows(Tag::Alert, text@, shown@),
{
    text.bright_red().to_string()
}

/// `colored::Colorize::normal` on a `&str`, then the `Display` of the
/// `ColoredString`. Trusted: a string without colour or style is written as
/// it is, whether colouring is on or off.
#[verifier::external_body]
fn normal(text: &str) -> (shown: String)
    ensures
        shows(Tag::Neutral, text@, shown@),
{
    text.normal().to_string()
}

impl TaggedText {
    /// A text with its emphasis.
    pub fn new(text: String, tag: Tag) -> (tagged: TaggedText)
        ensures
            tagged@ == (text@, tag),
    {
        TaggedText { text, tag }
    }

    /// The text as it is written to the output: plain, or between the control
    /// sequences of its emphasis where the output takes colours.
    pub fn shown(&self) -> (shown: String)
        ensures
            shows(self.tag, self.text@, shown@),
    {
        let text: &str = self.text.as_str();
        match self.tag {
            Tag::Success => green(text),
            Tag::Dim => dimmed(text),
            Tag::Error => red(text),
            Tag::Note => blue(text),
            Tag::Warning => yellow(text),
            Tag::Alert => bright_red(text),
            Tag::Neutral => normal(text),
        }
    }
}

} // verus!
