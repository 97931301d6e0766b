use vstd::prelude::*;
use crate::error::MozimError;
use crate::json::{json_quoted, json_string_value, quote, unquote};
use crate::text::{
    ends_with, framed_by, has_prefix, has_suffix, inner, join3, lemma_framed,
    lemma_suffixes_exclusive,
};

verus! {

/// The state that a worker reports for its interface.
#[derive(PartialEq, Eq, Structural, Clone, Copy, Debug)]
pub enum DhcpState {
    Requesting,
    Stopped,
}

/// What a worker reports: its interface and its state.
#[derive(Clone, Debug)]
pub struct DhcpStatus {
    pub iface_name: String,
    pub state: DhcpState,
}

impl DhcpStatus {
    /// The status of an interface that has no live worker.
    pub fn stopped(iface_name: &str) -> (r: DhcpStatus)
        ensures
            r.iface_name@ == iface_name@,
            r.state == DhcpState::Stopped,
    {
        DhcpStatus { iface_name: String::from_str(iface_name), state: DhcpState::Stopped }
    }
}

pub open spec fn status_head() -> Seq<char> {
    "{\"iface_name\":"@
}

/// What follows the quoted interface name in the encoding of a status.
pub open spec fn status_tail(state: DhcpState) -> Seq<char> {
    match state {
        DhcpState::Requesting => ",\"state\":\"Requesting\"}"@,
        DhcpState::Stopped => ",\"state\":\"Stopped\"}"@,
    }
}

/// The wire JSON of a status: `{"iface_name":"<name>","state":"<state>"}`.
pub open spec fn status_json(name: Seq<char>, state: DhcpState) -> Seq<char> {
    status_head() + json_quoted(name) + status_tail(state)
}

/// The status that the decoder reads out of `t`, as a name and a state.
pub open spec fn status_of_json(t: Seq<char>) -> Option<(Seq<char>, DhcpState)> {
    let rq = status_tail(DhcpState::Requesting);
    let st = status_tail(DhcpState::Stopped);
    if framed_by(t, status_head(), rq) && json_string_value(inner(t, status_head(), rq)) is Some {
        Some((json_string_value(inner(t, status_head(), rq))->0, DhcpState::Requesting))
    } else if framed_by(t, status_head(), st) && json_string_value(inner(t, status_head(), st)) is Some {
        Some((json_string_value(inner(t, status_head(), st))->0, DhcpState::Stopped))
    } else {
        None
    }
}

proof fn lemma_tails_exclusive(t: Seq<char>)
    ensures
        !(has_suffix(t, status_tail(DhcpState::Requesting)) && has_suffix(
            t,
            status_tail(DhcpState::Stopped),
        )),
{
    reveal_strlit(",\"state\":\"Requesting\"}");
    reveal_strlit(",\"state\":\"Stopped\"}");
    lemma_suffixes_exclusive(
        t,
        status_tail(DhcpState::Requesting),
        status_tail(DhcpState::Stopped),
        2,
    );
}

/// Encodes a status as its wire JSON.
pub fn encode_status(status: &DhcpStatus) -> (r: String)
    ensures
        r@ == status_json(status.iface_name@, status.state),
{
    let q = quote(status.iface_name.as_str());
    match status.state {
        DhcpState::Requesting => join3("{\"iface_name\":", q.as_str(), ",\"state\":\"Requesting\"}"),
        DhcpState::Stopped => join3("{\"iface_name\":", q.as_str(), ",\"state\":\"Stopped\"}"),
    }
}

/// Decodes the wire JSON of a status; what `encode_status` writes is read
/// back as the same status.
pub fn decode_status(text: &str) -> (r: Result<DhcpStatus, MozimError>)
    ensures
        r is Ok <==> status_of_json(text@) is Some,
        r is Ok ==> status_of_json(text@) == Some((r->Ok_0.iface_name@, r->Ok_0.state)),
        r is Err ==> r->Err_0.kind == crate::error::ErrorKind::MozimBug,
        forall|name: Seq<char>, state: DhcpState| #[trigger] status_json(name, state) == text@
            ==> (r is Ok && r->Ok_0.iface_name@ == name && r->Ok_0.state == state),
{
    let head = "{\"iface_name\":";
    let n = text.unicode_len();
    let h = head.unicode_len();
    proof {
        reveal_strlit("{\"iface_name\":");
        lemma_tails_exclusive(text@);
        assert forall|name: Seq<char>, state: DhcpState| #[trigger] status_json(name, state) == text@
            implies framed_by(text@, status_head(), status_tail(state))
                && inner(text@, status_head(), status_tail(state)) == json_quoted(name) by {
            lemma_framed(status_head(), json_quoted(name), status_tail(state));
        }
    }
    let mut state = DhcpState::Stopped;
    let mut tail = ",\"state\":\"Stopped\"}";
    if ends_with(text, ",\"state\":\"Requesting\"}") {
        state = DhcpState::Requesting;
        tail = ",\"state\":\"Requesting\"}";
    }
    let t = tail.unicode_len();
    if t > n || h > n - t || !crate::text::starts_with(text, head) || !ends_with(text, tail) {
        return Err(MozimError::bug(String::from_str("malformed worker status")));
    }
    let middle = text.substring_char(h, n - t);
    assert(middle@ == inner(text@, status_head(), status_tail(state)));
    match unquote(middle) {
        Some(name) => Ok(DhcpStatus { iface_name: name, state }),
        None => Err(MozimError::bug(String::from_str("malformed worker status"))),
    }
}

} // verus!
