//! How a program is laid out when it is written back as text.

use vstd::prelude::*;
use vstd::string::StringExecFns;

verus! {

/// The width of the pipe operator `|>`, which a stage of a pipe is indented
/// behind.
pub const PIPE_OPERATOR_WIDTH: usize = 2;

/// The choices of layout.
#[derive(Debug, Clone, Copy, PartialEq, Eq, Structural)]
pub struct FormatOptions {
    /// The width of one level of indentation, in spaces.
    pub tab_size: usize,
    /// Whether to indent with tabs and not with spaces.
    pub use_tabs: bool,
    /// Whether the text ends with a line end.
    pub insert_final_newline: bool,
}

/// The text of `count` times the character `c`.
pub open spec fn repeated(c: char, count: int) -> Seq<char> {
    Seq::new(count as nat, |i: int| c)
}

/// The text of `count` times the character that `unit` consists of.
fn repeat(unit: &str, c: Ghost<char>, count: usize) -> (text: String)
    requires
        unit@ == seq![c@],
    ensures
        text@ == repeated(c@, count as int),
{
    let mut text = String::new();
    let mut i: usize = 0;
    assert(text@ =~= repeated(c@, 0));
    while i < count
        invariant
            i <= count,
            unit@ == seq![c@],
            text@ == repeated(c@, i as int),
        decreases count - i,
    {
        text.append(unit);
        i += 1;
        assert(text@ =~= repeated(c@, i as int));
    }
    text
}

impl FormatOptions {
    /// The usual layout: two spaces to a level, and a line end at the end.
    pub fn new() -> (options: Self)
        ensures
            options == (FormatOptions { tab_size: 2, use_tabs: false, insert_final_newline: true }),
    {
        FormatOptions { tab_size: 2, use_tabs: false, insert_final_newline: true }
    }

    /// The indentation of the given level, as a model.
    pub open spec fn indentation(self, level: usize) -> Seq<char> {
        if self.use_tabs {
            repeated('\t', level as int)
        } else {
            repeated(' ', level * self.tab_size)
        }
    }

    /// The indentation of a stage of a pipe at the given level, as a model: one
    /// level deeper with tabs; with spaces, as wide again as the pipe operator
    /// and the space behind it.
    pub open spec fn indentation_offset_pipe(self, level: usize) -> Seq<char> {
        if self.use_tabs {
            repeated('\t', level + 1)
        } else {
            repeated(' ', level * self.tab_size + PIPE_OPERATOR_WIDTH + 1)
        }
    }

    /// The indentation of the given level.
    pub fn get_indentation(&self, level: usize) -> (text: String)
        requires
            !self.use_tabs ==> level * self.tab_size <= usize::MAX,
        ensures
            text@ == self.indentation(level),
    {
        proof {
            reveal_strlit("\t");
            reveal_strlit(" ");
        }
        if self.use_tabs {
            assert("\t"@ =~= seq!['\t']);
            repeat("\t", Ghost('\t'), level)
        } else {
            assert(" "@ =~= seq![' ']);
            repeat(" ", Ghost(' '), level * self.tab_size)
        }
    }

    /// The indentation of a stage of a pipe at the given level.
    pub fn get_indentation_offset_pipe(&self, level: usize) -> (text: String)
        requires
            self.use_tabs ==> level + 1 <= usize::MAX,
            !self.use_tabs ==> level * self.tab_size + PIPE_OPERATOR_WIDTH + 1 <= usize::MAX,
        ensures
            text@ == self.indentation_offset_pipe(level),
    {
        proof {
            reveal_strlit("\t");
            reveal_strlit(" ");
        }
        if self.use_tabs {
            assert("\t"@ =~= seq!['\t']);
            repeat("\t", Ghost('\t'), level + 1)
        } else {
            assert(" "@ =~= seq![' ']);
            assert(level * self.tab_size >= 0) by (nonlinear_arith);
            repeat(" ", Ghost(' '), level * self.tab_size + PIPE_OPERATOR_WIDTH + 1)
        }
    }
}

impl Default for FormatOptions {
    fn default() -> (options: Self)
        ensures
            options == (FormatOptions { tab_size: 2, use_tabs: false, insert_final_newline: true }),
    {
        FormatOptions::new()
    }
}

} // verus!
