//! Command parser: a pure mapping from one raw input line to a structured
//! event payload.
//!
//! An empty line parses to nothing; a line that does not start with `/` is a
//! chat message taken verbatim; a `/`-prefixed line is split on spaces into a
//! command token and (for the commands that need one) a single argument
//! token, with any trailing text ignored. Unparseable input never fails the
//! caller: it parses to an `Error` payload carrying the reply text.

use vstd::prelude::*;
use vstd::string::*;

verus! {

/// A parsed instruction derived from one line of client input.
#[derive(Debug, PartialEq, Eq)]
pub enum EventType {
    /// Broadcast this text to every registered session.
    SendMessage(String),
    /// Set the sender's display name.
    SetUsername(String),
    /// Raise the named user's permission level to `Mod`.
    SetModerator(String),
    /// Request an ownership change for the named user.
    SetOwner(String),
    /// Remove the named user's session.
    Kick(String),
    /// End the sender's own session.
    Exit,
    /// Deliver this text to the sender as a private response.
    Error(String),
}

/// Mathematical model of an [`EventType`]: the same variants over `Seq<char>`.
pub ghost enum EventTypeSpec {
    SendMessage(Seq<char>),
    SetUsername(Seq<char>),
    SetModerator(Seq<char>),
    SetOwner(Seq<char>),
    Kick(Seq<char>),
    Exit,
    Error(Seq<char>),
}

impl DeepView for EventType {
    type V = EventTypeSpec;

    open spec fn deep_view(&self) -> EventTypeSpec {
        match self {
            EventType::SendMessage(s) => EventTypeSpec::SendMessage(s@),
            EventType::SetUsername(s) => EventTypeSpec::SetUsername(s@),
            EventType::SetModerator(s) => EventTypeSpec::SetModerator(s@),
            EventType::SetOwner(s) => EventTypeSpec::SetOwner(s@),
            EventType::Kick(s) => EventTypeSpec::Kick(s@),
            EventType::Exit => EventTypeSpec::Exit,
            EventType::Error(s) => EventTypeSpec::Error(s@),
        }
    }
}

/// The least index `i >= from` with `s[i] == ' '`, or `s.len()` if no space
/// follows `from`.
pub open spec fn find_space(s: Seq<char>, from: int) -> int
    recommends
        0 <= from <= s.len(),
    decreases s.len() - from,
{
    if from >= s.len() {
        s.len() as int
    } else if s[from] == ' ' {
        from
    } else {
        find_space(s, from + 1)
    }
}

/// The argument token of a command line: the characters between the first
/// space (at `cmd_end`) and the next space or the end of the line.
pub open spec fn arg_of(line: Seq<char>, cmd_end: int) -> Seq<char>
    recommends
        0 <= cmd_end < line.len(),
{
    line.subrange(cmd_end + 1, find_space(line, cmd_end + 1))
}

/// What one raw input line parses to, over the line's character sequence.
/// `None` means the line produces no event at all (only the empty line does).
pub open spec fn spec_parse(line: Seq<char>) -> Option<EventTypeSpec> {
    if line.len() == 0 {
        Option::None
    } else if line[0] != '/' {
        Option::Some(EventTypeSpec::SendMessage(line))
    } else if line.len() == 1 {
        Option::Some(EventTypeSpec::Error("missing command"@))
    } else {
        let cmd_end = find_space(line, 1);
        let cmd = line.subrange(1, cmd_end);
        let has_arg = cmd_end < line.len();
        if cmd == "username"@ {
            if has_arg {
                Option::Some(EventTypeSpec::SetUsername(arg_of(line, cmd_end)))
            } else {
                Option::Some(EventTypeSpec::Error("correct usage: /username [name]"@))
            }
        } else if cmd == "setmod"@ {
            if has_arg {
                Option::Some(EventTypeSpec::SetModerator(arg_of(line, cmd_end)))
            } else {
                Option::Some(EventTypeSpec::Error("correct usage: /setmod [target]"@))
            }
        } else if cmd == "setown"@ {
            if has_arg {
                Option::Some(EventTypeSpec::SetOwner(arg_of(line, cmd_end)))
            } else {
                Option::Some(EventTypeSpec::Error("correct usage: /setown [target]"@))
            }
        } else if cmd == "kick"@ {
            if has_arg {
                Option::Some(EventTypeSpec::Kick(arg_of(line, cmd_end)))
            } else {
                Option::Some(EventTypeSpec::Error("correct usage: /kick [target]"@))
            }
        } else if cmd == "exit"@ {
            Option::Some(EventTypeSpec::Exit)
        } else {
            Option::Some(EventTypeSpec::Error("unknown command"@))
        }
    }
}

proof fn lemma_find_space_at(s: Seq<char>, from: int, i: int)
    requires
        0 <= from <= i <= s.len(),
        forall|j: int| from <= j < i ==> s[j] != ' ',
        i == s.len() || s[i] == ' ',
    ensures
        find_space(s, from) == i,
    decreases i - from,
{
    if from < i {
        lemma_find_space_at(s, from + 1, i);
    }
}

/// The least space index at or after `from`, computed by a forward scan.
fn find_space_exec(s: &str, from: usize, n: usize) -> (r: usize)
    requires
        from <= n,
        n == s@.len(),
    ensures
        r == find_space(s@, from as int),
        from <= r <= n,
{
    let mut i = from;
    while i < n
        invariant
            from <= i <= n,
            n == s@.len(),
            forall|j: int| from <= j < i ==> s@[j] != ' ',
        decreases n - i,
    {
        if s.get_char(i) == ' ' {
            proof {
                lemma_find_space_at(s@, from as int, i as int);
            }
            return i;
        }
        i = i + 1;
    }
    proof {
        lemma_find_space_at(s@, from as int, n as int);
    }
    n
}

/// True exactly when the two slices hold the same characters.
pub(crate) fn str_eq(a: &str, b: &str) -> (r: bool)
    ensures
        r == (a@ == b@),
{
    let x: String = a.to_owned();
    let y: String = b.to_owned();
    x == y
}

/// The argument token following the command token, if the line has one:
/// `None` exactly when no space follows the command.
fn parse_arg(s: &str, cmd_end: usize, n: usize) -> (r: Option<String>)
    requires
        n == s@.len(),
        cmd_end == find_space(s@, 1),
        1 <= cmd_end <= n,
    ensures
        cmd_end == n ==> r is None,
        cmd_end < n ==> (r matches Some(a) && a@ == arg_of(s@, cmd_end as int)),
{
    if cmd_end == n {
        Option::None
    } else {
        let a_end = find_space_exec(s, cmd_end + 1, n);
        Option::Some(s.substring_char(cmd_end + 1, a_end).to_owned())
    }
}

/// Parse one raw line into an event payload, exactly as [`spec_parse`]
/// describes: the empty line yields nothing, a non-`/` line yields
/// `SendMessage` with the line verbatim, and a `/`-prefixed line yields the
/// command's payload, a usage `Error` when its argument is missing, or an
/// `Error` naming the failure.
pub fn parse_event_type(line: String) -> (res: Option<EventType>)
    ensures
        res.deep_view() == spec_parse(line@),
{
    let n = line.as_str().unicode_len();
    if n == 0 {
        return Option::None;
    }
    if line.as_str().get_char(0) != '/' {
        return Option::Some(EventType::SendMessage(line));
    }
    if n == 1 {
        return Option::Some(EventType::Error(String::from_str("missing command")));
    }
    let s = line.as_str();
    let cmd_end = find_space_exec(s, 1, n);
    let cmd = s.substring_char(1, cmd_end);
    if str_eq(cmd, "username") {
        match parse_arg(s, cmd_end, n) {
            Option::Some(a) => Option::Some(EventType::SetUsername(a)),
            Option::None => Option::Some(
                EventType::Error(String::from_str("correct usage: /username [name]")),
            ),
        }
    } else if str_eq(cmd, "setmod") {
        match parse_arg(s, cmd_end, n) {
            Option::Some(a) => Option::Some(EventType::SetModerator(a)),
            Option::None => Option::Some(
                EventType::Error(String::from_str("correct usage: /setmod [target]")),
            ),
        }
    } else if str_eq(cmd, "setown") {
        match parse_arg(s, cmd_end, n) {
            Option::Some(a) => Option::Some(EventType::SetOwner(a)),
            Option::None => Option::Some(
                EventType::Error(String::from_str("correct usage: /setown [target]")),
            ),
        }
    } else if str_eq(cmd, "kick") {
        match parse_arg(s, cmd_end, n) {
            Option::Some(a) => Option::Some(EventType::Kick(a)),
            Option::None => Option::Some(
                EventType::Error(String::from_str("correct usage: /kick [target]")),
            ),
        }
    } else if str_eq(cmd, "exit") {
        Option::Some(EventType::Exit)
    } else {
        Option::Some(EventType::Error(String::from_str("unknown command")))
    }
}

} // verus!
