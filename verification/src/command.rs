//! Wire format of the display's line commands.
//!
//! The display understands three commands, each terminated by a newline:
//! `c` clears the screen, `t <colour> <text>` shows a line of text, and
//! `p <colour> <value>` sets the progress bar to a fraction.

use vstd::prelude::*;

use crate::text::append_char;

verus! {

/// The characters of the command that clears the screen.
pub open spec fn clear_spec() -> Seq<char> {
    seq!['c', '\n']
}

/// The characters of the command that shows `text` in colour `color`.
pub open spec fn text_spec(color: char, text: Seq<char>) -> Seq<char> {
    seq!['t', ' ', color, ' '] + text + seq!['\n']
}

/// The characters of the command that sets the bar to `value` in colour `color`.
pub open spec fn bar_spec(color: char, value: Seq<char>) -> Seq<char> {
    seq!['p', ' ', color, ' '] + value + seq!['\n']
}

/// Builds a command of the form `<kind> <color> <body>\n`.
fn framed(kind: char, color: char, body: &str) -> (cmd: String)
    ensures
        cmd@ == seq![kind, ' ', color, ' '] + body@ + seq!['\n'],
{
    let mut cmd = String::new();
    append_char(&mut cmd, kind);
    append_char(&mut cmd, ' ');
    append_char(&mut cmd, color);
    append_char(&mut cmd, ' ');
    cmd.append(body);
    append_char(&mut cmd, '\n');
    assert(cmd@ =~= seq![kind, ' ', color, ' '] + body@ + seq!['\n']);
    cmd
}

/// The command that shows `text` in colour `color`.
pub fn text_command(color: char, text: &str) -> (cmd: String)
    ensures
        cmd@ == text_spec(color, text@),
{
    framed('t', color, text)
}

/// The command that sets the progress bar to `value` in colour `color`.
pub fn bar_command(color: char, value: &str) -> (cmd: String)
    ensures
        cmd@ == bar_spec(color, value@),
{
    framed('p', color, value)
}

/// A command is a single line: a text or bar command whose colour and body
/// hold no newline ends with a newline and has no other, and so does the
/// clear command.
pub proof fn command_is_one_line(color: char, body: Seq<char>)
    requires
        color != '\n',
        !body.contains('\n'),
    ensures
        clear_spec().last() == '\n',
        forall|i: int| 0 <= i < clear_spec().len() - 1 ==> clear_spec()[i] != '\n',
        text_spec(color, body).last() == '\n',
        forall|i: int| 0 <= i < text_spec(color, body).len() - 1 ==> text_spec(color, body)[i] != '\n',
        bar_spec(color, body).last() == '\n',
        forall|i: int| 0 <= i < bar_spec(color, body).len() - 1 ==> bar_spec(color, body)[i] != '\n',
{
    assert forall|i: int| 0 <= i < text_spec(color, body).len() - 1 implies text_spec(color, body)[i] != '\n' by {
        if i >= 4 {
            assert(text_spec(color, body)[i] == body[i - 4]);
        }
    }
    assert forall|i: int| 0 <= i < bar_spec(color, body).len() - 1 implies bar_spec(color, body)[i] != '\n' by {
        if i >= 4 {
            assert(bar_spec(color, body)[i] == body[i - 4]);
        }
    }
}

} // verus!
