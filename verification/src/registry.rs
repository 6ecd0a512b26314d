//! The table of live streaming sessions, the frames pushed over a session's
//! channel, and the bodies of the session endpoints.
//!
//! The registry itself is single-owner; the embedding program shares it
//! behind one lock and must not hold that lock across a send or any other
//! blocking call.
use vstd::prelude::*;
use crate::stringmap::StringMap;
use crate::json::{Json, JVal, jval, jval_fields};
use crate::text::{u64_to_string, spec_dec_nat};

verus! {

/// The query string of the session endpoints.
pub struct McpQuery {
    pub session_id: Option<String>,
}

/// Maps a session identifier to that session's outbound channel. One entry
/// per live connection; entries are transient and rebuilt on every
/// connection.
pub struct SessionRegistry<T> {
    sessions: StringMap<T>,
}

impl<T> SessionRegistry<T> {
    pub closed spec fn wf(&self) -> bool {
        self.sessions.wf()
    }

    pub closed spec fn view(&self) -> Map<Seq<char>, T> {
        self.sessions@
    }

    pub fn new() -> (r: Self)
        ensures
            r.wf(),
            r@ == Map::<Seq<char>, T>::empty(),
    {
        SessionRegistry { sessions: StringMap::new() }
    }

    /// Registers a session's outbound channel under its identifier.
    pub fn register(&mut self, session_id: String, channel: T)
        requires
            old(self).wf(),
        ensures
            final(self).wf(),
            final(self)@ == old(self)@.insert(session_id@, channel),
    {
        self.sessions.set(session_id, channel);
    }

    /// The channel of a live session, if that identifier is registered.
    pub fn lookup(&self, session_id: &str) -> (r: Option<&T>)
        requires
            self.wf(),
        ensures
            match r {
                Some(tx) => self@.contains_key(session_id@) && *tx == self@[session_id@],
                None => !self@.contains_key(session_id@),
            },
    {
        self.sessions.get(session_id)
    }

    /// Removes a session; reports whether it was registered. Removing an
    /// absent identifier is a no-op reported as `false`.
    pub fn remove(&mut self, session_id: &str) -> (r: bool)
        requires
            old(self).wf(),
        ensures
            final(self).wf(),
            r == old(self)@.contains_key(session_id@),
            final(self)@ == old(self)@.remove(session_id@),
    {
        self.sessions.remove(session_id)
    }
}

/// Opening a session and then deleting it reports the session removed and
/// leaves the registry without it; deleting it again reports nothing removed.
pub proof fn lemma_session_delete_idempotent<T>(m: Map<Seq<char>, T>, id: Seq<char>, channel: T)
    ensures
        m.insert(id, channel).contains_key(id),
        !m.insert(id, channel).remove(id).contains_key(id),
{
}

/// The discovery frame sent first on every new stream: it carries the
/// session-scoped endpoint URL.
pub open spec fn spec_endpoint_frame(session_id: Seq<char>) -> Seq<char> {
    "event: endpoint\ndata: /mcp?session_id="@ + session_id + "\n\n"@
}

pub fn endpoint_frame(session_id: &str) -> (r: String)
    ensures
        r@ == spec_endpoint_frame(session_id@),
{
    proof {
        reveal_strlit("event: endpoint\ndata: /mcp?session_id=");
        reveal_strlit("\n\n");
    }
    let mut out = "event: endpoint\ndata: /mcp?session_id=".to_owned();
    out.append(session_id);
    out.append("\n\n");
    out
}

/// The periodic comment frame that keeps a stream alive, stamped with the
/// time in seconds.
pub open spec fn spec_heartbeat_frame(ts_secs: nat) -> Seq<char> {
    ": heartbeat {\"ts\": "@ + spec_dec_nat(ts_secs) + "}\n\n"@
}

pub fn heartbeat_frame(ts_secs: u64) -> (r: String)
    ensures
        r@ == spec_heartbeat_frame(ts_secs as nat),
{
    proof {
        reveal_strlit(": heartbeat {\"ts\": ");
        reveal_strlit("}\n\n");
    }
    let mut out = ": heartbeat {\"ts\": ".to_owned();
    out.append(u64_to_string(ts_secs).as_str());
    out.append("}\n\n");
    out
}

/// The frame that pushes one JSON-RPC message over a session's stream.
pub open spec fn spec_message_frame(data: Seq<char>) -> Seq<char> {
    "event: message\ndata: "@ + data + "\n\n"@
}

pub fn message_frame(data: &str) -> (r: String)
    ensures
        r@ == spec_message_frame(data@),
{
    proof {
        reveal_strlit("event: message\ndata: ");
        reveal_strlit("\n\n");
    }
    let mut out = "event: message\ndata: ".to_owned();
    out.append(data);
    out.append("\n\n");
    out
}

/// The body wrapper of the non-protocol endpoints:
/// `{"success": true, "data": ..., "error": null}`.
pub open spec fn spec_internal_wrap(data: JVal) -> JVal {
    JVal::Obj(
        seq![
            ("success"@, JVal::Bool(true)),
            ("data"@, data),
            ("error"@, JVal::Null),
        ],
    )
}

pub fn internal_wrap_response(data: Json) -> (r: Json)
    ensures
        jval(r) == spec_internal_wrap(jval(data)),
{
    let ghost d = jval(data);
    let mut fields: Vec<(String, Json)> = Vec::new();
    fields.push(("success".to_owned(), Json::Bool(true)));
    fields.push(("data".to_owned(), data));
    fields.push(("error".to_owned(), Json::Null));
    proof {
        assert(jval_fields(fields@) =~= spec_internal_wrap(d)->Obj_0);
    }
    Json::Obj(fields)
}

/// The body of a session delete: reports whether a session was removed, with
/// the matching message.
pub open spec fn spec_delete_body(removed: bool) -> JVal {
    spec_internal_wrap(
        JVal::Obj(
            seq![
                (
                    "message"@,
                    JVal::Str(
                        if removed {
                            "Session cleanup successful"@
                        } else {
                            "Session not found"@
                        },
                    ),
                ),
                ("removed"@, JVal::Bool(removed)),
            ],
        ),
    )
}

pub fn delete_session_response(removed: bool) -> (r: Json)
    ensures
        jval(r) == spec_delete_body(removed),
{
    let msg: &str = if removed {
        "Session cleanup successful"
    } else {
        "Session not found"
    };
    let mut inner: Vec<(String, Json)> = Vec::new();
    inner.push(("message".to_owned(), Json::Str(msg.to_owned())));
    inner.push(("removed".to_owned(), Json::Bool(removed)));
    proof {
        assert(jval_fields(inner@) =~= spec_delete_body(removed)->Obj_0[1].1->Obj_0);
    }
    internal_wrap_response(Json::Obj(inner))
}

} // verus!
