//! The commands of the interactive loop, read from one line of input.
use vstd::prelude::*;
use crate::encoder::{has_at, starts_with};

verus! {

/// What is left of `s` without its leading and trailing whitespace.
pub uninterp spec fn trimmed(s: Seq<char>) -> Seq<char>;

/// Relies on str::trim: the slice of `s` without leading and trailing Unicode
/// whitespace; it depends on the characters alone.
#[verifier::external_body]
fn trim(s: &str) -> (r: &str)
    ensures
        r@ == trimmed(s@),
{
    s.trim()
}

/// One command of the loop.
pub enum Command {
    /// Reset the conversation.
    Clear,
    /// Append the image at this path or URL.
    Image(String),
    /// `/image` with nothing after it.
    MissingImagePath,
    /// Append the image on the clipboard.
    Clip,
    /// Leave the loop.
    Exit,
    /// Ask the model this text.
    Ask(String),
}

/// `/clear`
pub open spec fn clear_word() -> Seq<char> {
    seq!['/', 'c', 'l', 'e', 'a', 'r']
}

/// `/image`
pub open spec fn image_word() -> Seq<char> {
    seq!['/', 'i', 'm', 'a', 'g', 'e']
}

/// `/clip`
pub open spec fn clip_word() -> Seq<char> {
    seq!['/', 'c', 'l', 'i', 'p']
}

/// `/exit`
pub open spec fn exit_word() -> Seq<char> {
    seq!['/', 'e', 'x', 'i', 't']
}

/// Which command a trimmed line is, given as a spec: the first of the
/// prefixes `/clear`, `/image`, `/clip` (or the line `C`), `/exit` that it
/// starts with, else a question. For `/image` the text after the word is
/// kept as it stands.
pub open spec fn classify(line: Seq<char>, r: Command) -> bool {
    if starts_with(line, clear_word()) {
        r is Clear
    } else if starts_with(line, image_word()) {
        r matches Command::Image(p) && p@ == line.subrange(6, line.len() as int)
    } else if starts_with(line, clip_word()) || line == seq!['C'] {
        r is Clip
    } else if starts_with(line, exit_word()) {
        r is Exit
    } else {
        r matches Command::Ask(t) && t@ == line
    }
}

/// Reads the command of a line that has already been trimmed.
pub fn classify_line(line: &str) -> (r: Command)
    ensures
        classify(line@, r),
{
    proof {
        reveal_strlit("/clear");
        reveal_strlit("/image");
        reveal_strlit("/clip");
        reveal_strlit("/exit");
        reveal_strlit("C");
    }
    assert("/clear"@ =~= clear_word());
    assert("/image"@ =~= image_word());
    assert("/clip"@ =~= clip_word());
    assert("/exit"@ =~= exit_word());
    assert("C"@ =~= seq!['C']);
    if has_at(line, "/clear", 0) {
        Command::Clear
    } else if has_at(line, "/image", 0) {
        let n = line.unicode_len();
        Command::Image(String::from_str(line.substring_char(6, n)))
    } else if has_at(line, "/clip", 0) || is_exactly_c(line) {
        Command::Clip
    } else if has_at(line, "/exit", 0) {
        Command::Exit
    } else {
        Command::Ask(String::from_str(line))
    }
}

/// Whether the line is the single letter `C`.
fn is_exactly_c(line: &str) -> (r: bool)
    ensures
        r == (line@ == seq!['C']),
{
    if line.unicode_len() != 1 {
        return false;
    }
    let c = line.get_char(0);
    assert(c == 'C' ==> line@ =~= seq!['C']);
    c == 'C'
}

/// Reads the command of a raw input line: the line is trimmed, and so is
/// the path after `/image`; an empty path is reported as missing.
pub fn parse_command(line: &str) -> (r: Command)
    ensures
        ({
            let t = trimmed(line@);
            if starts_with(t, image_word()) && !starts_with(t, clear_word()) {
                let p = trimmed(t.subrange(6, t.len() as int));
                if p.len() == 0 {
                    r is MissingImagePath
                } else {
                    r matches Command::Image(q) && q@ == p
                }
            } else {
                classify(t, r)
            }
        }),
{
    let t = trim(line);
    let c = classify_line(t);
    match c {
        Command::Image(rest) => {
            let p = trim(rest.as_str());
            if p.unicode_len() == 0 {
                Command::MissingImagePath
            } else {
                Command::Image(String::from_str(p))
            }
        },
        other => other,
    }
}

} // verus!
