//! The interactive prompt: which input is a name, and what is printed for it.

use crate::resolver::{nickname_of, resolve};
use crate::table::NicknameTable;
use crate::text::{trim, trimmed};
use vstd::prelude::*;

verus! {

/// What the prompt asks.
pub const PROMPT_TEXT: &'static str = "Please enter your name: ";

/// What stands before the nickname in the answer of the prompt.
pub const CONSOLE_OPENING: &'static str = "Your QNickName is: ";

/// The answer of the prompt to a name without a nickname.
pub const CONSOLE_NO_NAME_TEXT: &'static str = "You don't have a name! (Sorry!)";

/// The name that a line of input holds: the line without the whitespace
/// around it. A line of nothing else holds none, and the prompt asks again.
pub fn accept_name(line: &str) -> (name: Option<String>)
    ensures
        name.deep_view() == if trimmed(line@).len() == 0 {
            None
        } else {
            Some(trimmed(line@))
        },
{
    let rest = trim(line);
    if rest.is_empty() {
        None
    } else {
        Some(rest.to_owned())
    }
}

/// What the prompt prints for a name.
pub open spec fn console_text(nickname: Option<Seq<char>>) -> Seq<char> {
    match nickname {
        Some(found) => CONSOLE_OPENING@ + found,
        None => CONSOLE_NO_NAME_TEXT@,
    }
}

/// The line that the prompt prints for `name`, which must not be empty.
pub fn console_reply(table: &NicknameTable, name: &str) -> (line: String)
    requires
        name@.len() > 0,
    ensures
        line@ == console_text(nickname_of(table@, name@)),
{
    match resolve(table, name) {
        Some(nickname) => {
            let mut line = CONSOLE_OPENING.to_owned();
            line.append(nickname.as_str());
            line
        },
        None => CONSOLE_NO_NAME_TEXT.to_owned(),
    }
}

} // verus!
