use vstd::prelude::*;
use crate::error::{ErrorKind, MozimError};
use crate::json::{json_quoted, json_string_value, quote, unquote};
use crate::text::{
    framed_by, has_prefix, inner, join3, lemma_framed, lemma_prefixes_exclusive,
    starts_with, ends_with,
};

verus! {

/// What precedes the quoted message in the encoding of an error record.
pub open spec fn error_head(kind: ErrorKind) -> Seq<char> {
    match kind {
        ErrorKind::IpcError => "{\"kind\":\"ipc_error\",\"msg\":"@,
        ErrorKind::InvalidIpcCommand => "{\"kind\":\"invalid_ipc_command\",\"msg\":"@,
        ErrorKind::MozimBug => "{\"kind\":\"mozim_bug\",\"msg\":"@,
    }
}

/// The wire JSON of an error record: `{"kind":"<kind>","msg":"<msg>"}`.
pub open spec fn error_json(kind: ErrorKind, msg: Seq<char>) -> Seq<char> {
    error_head(kind) + json_quoted(msg) + "}"@
}

/// The error record that the decoder reads out of `t`, as a kind and a message.
pub open spec fn error_of_json(t: Seq<char>) -> Option<(ErrorKind, Seq<char>)> {
    if framed_by(t, error_head(ErrorKind::IpcError), "}"@) && json_string_value(
        inner(t, error_head(ErrorKind::IpcError), "}"@),
    ) is Some {
        Some(
            (
                ErrorKind::IpcError,
                json_string_value(inner(t, error_head(ErrorKind::IpcError), "}"@))->0,
            ),
        )
    } else if framed_by(t, error_head(ErrorKind::InvalidIpcCommand), "}"@) && json_string_value(
        inner(t, error_head(ErrorKind::InvalidIpcCommand), "}"@),
    ) is Some {
        Some(
            (
                ErrorKind::InvalidIpcCommand,
                json_string_value(inner(t, error_head(ErrorKind::InvalidIpcCommand), "}"@))->0,
            ),
        )
    } else if framed_by(t, error_head(ErrorKind::MozimBug), "}"@) && json_string_value(
        inner(t, error_head(ErrorKind::MozimBug), "}"@),
    ) is Some {
        Some(
            (
                ErrorKind::MozimBug,
                json_string_value(inner(t, error_head(ErrorKind::MozimBug), "}"@))->0,
            ),
        )
    } else {
        None
    }
}

proof fn lemma_heads_exclusive(t: Seq<char>, a: ErrorKind, b: ErrorKind)
    requires
        a != b,
    ensures
        !(has_prefix(t, error_head(a)) && has_prefix(t, error_head(b))),
{
    reveal_strlit("{\"kind\":\"ipc_error\",\"msg\":");
    reveal_strlit("{\"kind\":\"invalid_ipc_command\",\"msg\":");
    reveal_strlit("{\"kind\":\"mozim_bug\",\"msg\":");
    lemma_prefixes_exclusive(t, error_head(a), error_head(b), 10);
}

fn error_head_str(kind: ErrorKind) -> (r: &'static str)
    ensures
        r@ == error_head(kind),
{
    match kind {
        ErrorKind::IpcError => "{\"kind\":\"ipc_error\",\"msg\":",
        ErrorKind::InvalidIpcCommand => "{\"kind\":\"invalid_ipc_command\",\"msg\":",
        ErrorKind::MozimBug => "{\"kind\":\"mozim_bug\",\"msg\":",
    }
}

/// Encodes an error record as its wire JSON.
pub fn encode_error(e: &MozimError) -> (r: String)
    ensures
        r@ == error_json(e.kind, e.msg@),
{
    let q = quote(e.msg.as_str());
    join3(error_head_str(e.kind), q.as_str(), "}")
}

/// Decodes the wire JSON of an error record; what `encode_error` writes is
/// read back as the same record.
pub fn decode_error(text: &str) -> (r: Result<MozimError, MozimError>)
    ensures
        r is Ok <==> error_of_json(text@) is Some,
        r is Ok ==> error_of_json(text@) == Some((r->Ok_0.kind, r->Ok_0.msg@)),
        r is Err ==> r->Err_0.kind == ErrorKind::MozimBug,
        forall|kind: ErrorKind, msg: Seq<char>| #[trigger] error_json(kind, msg) == text@
            ==> (r is Ok && r->Ok_0.kind == kind && r->Ok_0.msg@ == msg),
{
    proof {
        lemma_heads_exclusive(text@, ErrorKind::IpcError, ErrorKind::InvalidIpcCommand);
        lemma_heads_exclusive(text@, ErrorKind::IpcError, ErrorKind::MozimBug);
        lemma_heads_exclusive(text@, ErrorKind::InvalidIpcCommand, ErrorKind::MozimBug);
        assert forall|kind: ErrorKind, msg: Seq<char>| #[trigger] error_json(kind, msg) == text@
            implies framed_by(text@, error_head(kind), "}"@)
                && inner(text@, error_head(kind), "}"@) == json_quoted(msg) by {
            lemma_framed(error_head(kind), json_quoted(msg), "}"@);
        }
    }
    let kind = if starts_with(text, error_head_str(ErrorKind::IpcError)) {
        ErrorKind::IpcError
    } else if starts_with(text, error_head_str(ErrorKind::InvalidIpcCommand)) {
        ErrorKind::InvalidIpcCommand
    } else {
        ErrorKind::MozimBug
    };
    let head = error_head_str(kind);
    let n = text.unicode_len();
    let h = head.unicode_len();
    let t = "}".unicode_len();
    if t > n || h > n - t || !starts_with(text, head) || !ends_with(text, "}") {
        return Err(MozimError::bug(String::from_str("malformed error record")));
    }
    let middle = text.substring_char(h, n - t);
    assert(middle@ == inner(text@, error_head(kind), "}"@));
    match unquote(middle) {
        Some(msg) => Ok(MozimError { kind, msg }),
        None => Err(MozimError::bug(String::from_str("malformed error record"))),
    }
}

/// The reply to one control request: a data string or an error record.
#[derive(Clone, Debug)]
pub struct MozimResult {
    pub error: Option<MozimError>,
    pub data: Option<String>,
}

impl MozimResult {
    /// A successful reply carrying `s`.
    pub fn data(s: String) -> (r: MozimResult)
        ensures
            r.is_well_formed(),
            r.error is None,
            r.data is Some && r.data->0@ == s@,
    {
        MozimResult { error: None, data: Some(s) }
    }

    /// A failed reply carrying `e`.
    pub fn error(e: MozimError) -> (r: MozimResult)
        ensures
            r.is_well_formed(),
            r.data is None,
            r.error is Some && r.error->0.kind == e.kind && r.error->0.msg@ == e.msg@,
    {
        MozimResult { error: Some(e), data: None }
    }

    /// Exactly one of the two fields is set.
    pub open spec fn is_well_formed(&self) -> bool {
        self.error is Some != self.data is Some
    }
}

/// The wire JSON of a well-formed reply: `{"error":<record>}` or
/// `{"data":"<text>"}`; the field that is not set is left out.
pub open spec fn result_json(r: MozimResult) -> Seq<char>
    recommends
        r.is_well_formed(),
{
    match r.error {
        Some(e) => "{\"error\":"@ + error_json(e.kind, e.msg@) + "}"@,
        None => "{\"data\":"@ + json_quoted(r.data->0@) + "}"@,
    }
}

/// Encodes a well-formed reply as its wire JSON, with exactly one key.
pub fn encode_result(r: &MozimResult) -> (s: String)
    requires
        r.is_well_formed(),
    ensures
        s@ == result_json(*r),
{
    match &r.error {
        Some(e) => {
            let ej = encode_error(e);
            join3("{\"error\":", ej.as_str(), "}")
        },
        None => {
            let d = r.data.as_ref().unwrap();
            let q = quote(d.as_str());
            join3("{\"data\":", q.as_str(), "}")
        },
    }
}

} // verus!
