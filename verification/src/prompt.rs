use crate::branch_status::BranchStatus;
use vstd::prelude::*;
use vstd::string::*;

verus! {

/// The colours that a label is shown in.
#[derive(Clone, Copy, Debug, PartialEq, Eq, Structural)]
pub enum Colour {
    Green,
    Yellow,
    Red,
}

/// How the coloured label is written.
#[derive(Clone, Copy, Debug, PartialEq, Eq, Structural)]
pub enum Mode {
    /// With ANSI escape sequences, for a terminal.
    Stdout,
    /// With the colour directives of a zsh prompt.
    Zsh,
}

impl Mode {
    /// The mode that a name stands for: `stdout` or `zsh`, and no other.
    pub open spec fn spec_parse(name: Seq<char>) -> Option<Mode> {
        if name == "stdout"@ {
            Some(Mode::Stdout)
        } else if name == "zsh"@ {
            Some(Mode::Zsh)
        } else {
            None
        }
    }

    /// Returns the mode that a name stands for, or nothing for a name that
    /// is not the name of a mode.
    pub fn parse(name: &str) -> (r: Option<Mode>)
        ensures
            r == Mode::spec_parse(name@),
    {
        let given = String::from_str(name);
        if given == String::from_str("stdout") {
            Some(Mode::Stdout)
        } else if given == String::from_str("zsh") {
            Some(Mode::Zsh)
        } else {
            None
        }
    }
}

/// The colour of a status: green for an unchanged working copy, yellow for
/// staged changes, red for unstaged changes and for conflicts.
pub open spec fn spec_colour_of(status: BranchStatus) -> Colour {
    match status {
        BranchStatus::NotChanged => Colour::Green,
        BranchStatus::Staged => Colour::Yellow,
        BranchStatus::Unstaged => Colour::Red,
        BranchStatus::Conflicted => Colour::Red,
    }
}

/// Returns the colour of a status.
pub fn colour_of(status: BranchStatus) -> (r: Colour)
    ensures
        r == spec_colour_of(status),
{
    match status {
        BranchStatus::NotChanged => Colour::Green,
        BranchStatus::Staged => Colour::Yellow,
        BranchStatus::Unstaged => Colour::Red,
        BranchStatus::Conflicted => Colour::Red,
    }
}

impl Colour {
    /// The name of the colour in a zsh prompt.
    pub open spec fn zsh_name(self) -> Seq<char> {
        match self {
            Colour::Green => "green"@,
            Colour::Yellow => "yellow"@,
            Colour::Red => "red"@,
        }
    }

    /// The escape sequence that switches a terminal to the colour.
    pub open spec fn ansi_prefix(self) -> Seq<char> {
        match self {
            Colour::Green => "\x1B[32m"@,
            Colour::Yellow => "\x1B[33m"@,
            Colour::Red => "\x1B[31m"@,
        }
    }
}

/// A label between the zsh directives that set and reset the colour.
pub open spec fn zsh_text(colour: Colour, label: Seq<char>) -> Seq<char> {
    "%F{"@ + colour.zsh_name() + "}"@ + label + "%f"@
}

/// A label between the escape sequence of the colour and the one that
/// resets all styles.
pub open spec fn ansi_text(colour: Colour, label: Seq<char>) -> Seq<char> {
    colour.ansi_prefix() + label + "\x1B[0m"@
}

/// What is written for a label and a status in a mode.
pub open spec fn rendered(mode: Mode, label: Seq<char>, status: BranchStatus) -> Seq<char> {
    match mode {
        Mode::Stdout => ansi_text(spec_colour_of(status), label),
        Mode::Zsh => zsh_text(spec_colour_of(status), label),
    }
}

/// `Colour::paint` of ansi_term, and the text that its `Display` writes: the
/// escape sequence of the foreground colour, the text unchanged, and the
/// reset sequence.
#[verifier::external_body]
fn paint(colour: Colour, label: &str) -> (r: String)
    ensures
        r@ == ansi_text(colour, label@),
{
    match colour {
        Colour::Green => ansi_term::Colour::Green.paint(label).to_string(),
        Colour::Yellow => ansi_term::Colour::Yellow.paint(label).to_string(),
        Colour::Red => ansi_term::Colour::Red.paint(label).to_string(),
    }
}

/// Writes a label between the zsh directives of a colour.
pub fn zsh_paint(colour: Colour, label: &str) -> (r: String)
    ensures
        r@ == zsh_text(colour, label@),
{
    let name = match colour {
        Colour::Green => "green",
        Colour::Yellow => "yellow",
        Colour::Red => "red",
    };
    String::from_str("%F{").concat(name).concat("}").concat(label).concat("%f")
}

/// Writes a label in the colour of a status, as the mode asks.
pub fn render(mode: Mode, label: &str, status: BranchStatus) -> (r: String)
    ensures
        r@ == rendered(mode, label@, status),
{
    let colour = colour_of(status);
    match mode {
        Mode::Stdout => paint(colour, label),
        Mode::Zsh => zsh_paint(colour, label),
    }
}

} // verus!
