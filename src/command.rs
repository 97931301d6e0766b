use vstd::prelude::*;
use crate::error::{ErrorKind, MozimError};
use crate::text::{join3, same_text};

verus! {

/// The actions that a client can ask for.
#[derive(PartialEq, Eq, Structural, Clone, Copy, Debug)]
pub enum MozimAction {
    Ping,
    Start,
    Query,
    Stop,
    Dump,
}

/// The action that a request token names, matched exactly.
pub open spec fn action_of_token(tok: Seq<char>) -> Option<MozimAction> {
    if tok == "ping"@ {
        Some(MozimAction::Ping)
    } else if tok == "start"@ {
        Some(MozimAction::Start)
    } else if tok == "query"@ {
        Some(MozimAction::Query)
    } else if tok == "stop"@ {
        Some(MozimAction::Stop)
    } else if tok == "dump"@ {
        Some(MozimAction::Dump)
    } else {
        None
    }
}

/// The message of the error for an unknown action token.
pub open spec fn invalid_command_msg(tok: Seq<char>) -> Seq<char> {
    "Invalid command '"@ + tok + "'"@
}

/// Reads an action token.
pub fn parse_action(tok: &str) -> (r: Result<MozimAction, MozimError>)
    ensures
        r is Ok <==> action_of_token(tok@) is Some,
        r is Ok ==> action_of_token(tok@) == Some(r->Ok_0),
        r is Err ==> r->Err_0.kind == ErrorKind::InvalidIpcCommand && r->Err_0.msg@
            == invalid_command_msg(tok@),
{
    if same_text(tok, "ping") {
        Ok(MozimAction::Ping)
    } else if same_text(tok, "start") {
        Ok(MozimAction::Start)
    } else if same_text(tok, "query") {
        Ok(MozimAction::Query)
    } else if same_text(tok, "stop") {
        Ok(MozimAction::Stop)
    } else if same_text(tok, "dump") {
        Ok(MozimAction::Dump)
    } else {
        Err(MozimError::invalid_ipc_command(join3("Invalid command '", tok, "'")))
    }
}

/// A parsed request: the action and its argument, verbatim.
#[derive(Clone, Debug)]
pub struct MozimCmd {
    pub action: MozimAction,
    pub arguments: String,
}

/// The position of the first space in `s`, or its length when it has none.
pub open spec fn first_space(s: Seq<char>) -> int
    decreases s.len(),
{
    if s.len() == 0 {
        0
    } else if s[0] == ' ' {
        0
    } else {
        1 + first_space(s.drop_first())
    }
}

/// The action token of a request: all before the first space.
pub open spec fn request_token(s: Seq<char>) -> Seq<char> {
    s.subrange(0, first_space(s))
}

/// The argument of a request: all after the first space, or nothing.
pub open spec fn request_argument(s: Seq<char>) -> Seq<char> {
    if first_space(s) < s.len() {
        s.subrange(first_space(s) + 1, s.len() as int)
    } else {
        Seq::empty()
    }
}

proof fn lemma_first_space(s: Seq<char>, i: int)
    requires
        0 <= i <= s.len(),
        forall|j: int| 0 <= j < i ==> s[j] != ' ',
        i == s.len() || s[i] == ' ',
    ensures
        first_space(s) == i,
    decreases i,
{
    if i > 0 {
        let t = s.drop_first();
        assert forall|j: int| 0 <= j < i - 1 implies t[j] != ' ' by {
            assert(t[j] == s[j + 1]);
        }
        if i - 1 < t.len() {
            assert(t[i - 1] == s[i]);
        }
        lemma_first_space(t, i - 1);
    }
}

/// Splits a request on its first space into an action and an argument.
pub fn parse_ipc_cmd(cmd_str: &str) -> (r: Result<MozimCmd, MozimError>)
    ensures
        r is Ok <==> action_of_token(request_token(cmd_str@)) is Some,
        r is Ok ==> action_of_token(request_token(cmd_str@)) == Some(r->Ok_0.action)
            && r->Ok_0.arguments@ == request_argument(cmd_str@),
        r is Err ==> r->Err_0.kind == ErrorKind::InvalidIpcCommand && r->Err_0.msg@
            == invalid_command_msg(request_token(cmd_str@)),
{
    let n = cmd_str.unicode_len();
    let mut i: usize = 0;
    while i < n && cmd_str.get_char(i) != ' '
        invariant
            n == cmd_str@.len(),
            i <= n,
            forall|j: int| 0 <= j < i ==> cmd_str@[j] != ' ',
        decreases n - i,
    {
        i = i + 1;
    }
    proof {
        lemma_first_space(cmd_str@, i as int);
    }
    let action = parse_action(cmd_str.substring_char(0, i))?;
    let arguments = if i < n {
        String::from_str(cmd_str.substring_char(i + 1, n))
    } else {
        String::new()
    };
    Ok(MozimCmd { action, arguments })
}

} // verus!
