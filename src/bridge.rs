use vstd::prelude::*;
use crate::connection::ConnectionState;
use crate::json::{
    json_array_items, json_as_i64, json_from_array, json_i64_of, json_into_array, json_member,
    json_member_of, json_parse_of, parse_json,
};
use crate::notify::Notification;
use crate::text::{blank, is_blank, prefixed};

verus! {

/// An answer of the local listener, before it is written out as JSON.
#[derive(Debug)]
pub enum ListenerReply {
    /// The listener is alive.
    Healthy,
    /// An injected prompt was handed to the user interface.
    Queued,
    /// An injected prompt had no text.
    MissingText,
    /// No connection to the remote service exists yet.
    NoClient,
    /// The remote call failed; the description.
    RemoteFailed(String),
    /// The remote service sent something that is not JSON; the description.
    InvalidJson(String),
    /// The chat history, as the remote service sent it or narrowed to a session.
    History(serde_json::Value),
}

/// The HTTP status of a reply.
pub open spec fn status_of_reply(r: ListenerReply) -> u16 {
    match r {
        ListenerReply::Healthy => 200,
        ListenerReply::Queued => 202,
        ListenerReply::MissingText => 400,
        ListenerReply::NoClient => 503,
        ListenerReply::RemoteFailed(_) => 502,
        ListenerReply::InvalidJson(_) => 500,
        ListenerReply::History(_) => 200,
    }
}

impl ListenerReply {
    /// The HTTP status of this reply.
    pub fn status(&self) -> (r: u16)
        ensures
            r == status_of_reply(*self),
    {
        match self {
            ListenerReply::Healthy => 200,
            ListenerReply::Queued => 202,
            ListenerReply::MissingText => 400,
            ListenerReply::NoClient => 503,
            ListenerReply::RemoteFailed(_) => 502,
            ListenerReply::InvalidJson(_) => 500,
            ListenerReply::History(_) => 200,
        }
    }
}

/// Handles a prompt injected from outside: blank text is refused; any other
/// text becomes exactly one external-prompt notification.
pub fn external_message(text: String, chat_id: Option<i32>) -> (r: (
    ListenerReply,
    Option<Notification>,
))
    ensures
        blank(text@) ==> r.0 is MissingText && r.1 is None,
        !blank(text@) ==> r.0 is Queued && r.1 == Some(
            Notification::ExternalPrompt { text, chat_id },
        ),
{
    if is_blank(text.as_str()) {
        (ListenerReply::MissingText, None)
    } else {
        (ListenerReply::Queued, Some(Notification::ExternalPrompt { text, chat_id }))
    }
}

/// The handle for a history read, or the reply when there is none.
pub fn history_handle<H: Clone>(state: &ConnectionState<H>) -> (r: Result<H, ListenerReply>)
    ensures
        state.current() is None <==> r matches Err(ListenerReply::NoClient),
        state.current() is Some <==> r is Ok,
        r matches Ok(h) ==> cloned(state.current()->0, h),
{
    match state.acquire() {
        Ok(h) => Ok(h),
        Err(_) => Err(ListenerReply::NoClient),
    }
}

/// One entry of a chat history with the session it belongs to, where the
/// entry names one as an integer.
pub struct HistoryEntry {
    pub sid: Option<i64>,
    pub value: serde_json::Value,
}

/// The entries whose session is `target`, in the order they came.
pub open spec fn entries_of_session(entries: Seq<HistoryEntry>, target: i64) -> Seq<
    serde_json::Value,
>
    decreases entries.len(),
{
    if entries.len() == 0 {
        Seq::empty()
    } else {
        let init = entries_of_session(entries.drop_last(), target);
        let e = entries.last();
        if e.sid == Some(target) {
            init.push(e.value)
        } else {
            init
        }
    }
}

/// The session an entry names under `sid`, if it is an integer.
pub open spec fn sid_of(entry: serde_json::Value) -> Option<i64> {
    match json_member_of(entry, "sid"@) {
        Some(m) => json_i64_of(m),
        None => None,
    }
}

/// Each entry paired with the session it names.
pub open spec fn tagged(values: Seq<serde_json::Value>) -> Seq<HistoryEntry> {
    values.map_values(|v: serde_json::Value| HistoryEntry { sid: sid_of(v), value: v })
}

/// Whether `r` is `history` narrowed to session `sid`: with no session or a
/// history that is not an array it is `history` itself; otherwise it is the
/// array of the entries that name that session, in the order they came.
pub open spec fn narrowed(history: serde_json::Value, sid: Option<i32>, r: serde_json::Value) -> bool {
    match sid {
        None => r == history,
        Some(t) => match json_array_items(history) {
            None => r == history,
            Some(items) => json_array_items(r) == Some(
                entries_of_session(tagged(items), t as i64),
            ),
        },
    }
}

/// The session an entry names under `sid`, if it is an integer.
fn session_of(entry: &serde_json::Value) -> (r: Option<i64>)
    ensures
        r == sid_of(*entry),
{
    match json_member(entry, "sid") {
        Some(v) => json_as_i64(v),
        None => None,
    }
}

/// Pairs each entry with the session it names.
pub fn tag_entries(values: Vec<serde_json::Value>) -> (r: Vec<HistoryEntry>)
    ensures
        r@ == tagged(values@),
{
    let mut r: Vec<HistoryEntry> = Vec::new();
    let mut rest = values;
    let ghost all = rest@;
    let mut taken: Vec<serde_json::Value> = Vec::new();
    // entries are taken from the back, then put back in order
    while rest.len() > 0
        invariant
            all == rest@ + taken@.reverse(),
        decreases rest.len(),
    {
        let v = rest.pop().unwrap();
        proof {
            assert(rest@.push(v) + taken@.reverse() =~= rest@ + taken@.push(v).reverse());
        }
        taken.push(v);
    }
    while taken.len() > 0
        invariant
            all == r@.map_values(|e: HistoryEntry| e.value) + taken@.reverse(),
            forall|i: int| 0 <= i < r@.len() ==> #[trigger] r@[i].sid == sid_of(r@[i].value),
        decreases taken.len(),
    {
        let v = taken.pop().unwrap();
        let sid = session_of(&v);
        let ghost before = r@;
        r.push(HistoryEntry { sid, value: v });
        proof {
            assert(r@.map_values(|e: HistoryEntry| e.value) =~= before.map_values(
                |e: HistoryEntry| e.value,
            ).push(v));
            assert(taken@.push(v).reverse() =~= seq![v] + taken@.reverse());
            assert(all =~= r@.map_values(|e: HistoryEntry| e.value) + taken@.reverse());
        }
    }
    proof {
        assert(all =~= r@.map_values(|e: HistoryEntry| e.value));
        assert(all == values@);
        assert forall|i: int| 0 <= i < r@.len() implies #[trigger] r@[i] == tagged(values@)[i] by {
            assert(r@.map_values(|e: HistoryEntry| e.value)[i] == r@[i].value);
            assert(r@[i].value == values@[i]);
            assert(r@[i].sid == sid_of(r@[i].value));
        }
        assert(r@ =~= tagged(values@));
    }
    r
}

/// Keeps the entries whose session is `target`, in the order they came.
pub fn select_session(entries: Vec<HistoryEntry>, target: i32) -> (r: Vec<serde_json::Value>)
    ensures
        r@ == entries_of_session(entries@, target as i64),
{
    let mut rest = entries;
    let ghost all = rest@;
    let mut backwards: Vec<HistoryEntry> = Vec::new();
    while rest.len() > 0
        invariant
            all == rest@ + backwards@.reverse(),
        decreases rest.len(),
    {
        let e = rest.pop().unwrap();
        proof {
            assert(rest@.push(e) + backwards@.reverse() =~= rest@ + backwards@.push(e).reverse());
        }
        backwards.push(e);
    }
    let mut r: Vec<serde_json::Value> = Vec::new();
    let ghost done: Seq<HistoryEntry> = Seq::empty();
    while backwards.len() > 0
        invariant
            all == done + backwards@.reverse(),
            r@ == entries_of_session(done, target as i64),
        decreases backwards.len(),
    {
        let e = backwards.pop().unwrap();
        proof {
            assert(backwards@.push(e).reverse() =~= seq![e] + backwards@.reverse());
            assert(done.push(e).drop_last() =~= done);
        }
        let HistoryEntry { sid, value } = e;
        let keep = match sid {
            Some(s) => s == target as i64,
            None => false,
        };
        if keep {
            r.push(value);
        }
        proof {
            done = done.push(e);
            assert(all =~= done + backwards@.reverse());
        }
    }
    proof {
        assert(all =~= done);
    }
    r
}

/// Narrows a chat history to one session when `sid` is given and the
/// history is an array; otherwise hands it back as it is.
pub fn filter_history(history: serde_json::Value, sid: Option<i32>) -> (r: serde_json::Value)
    ensures
        narrowed(history, sid, r),
{
    match sid {
        None => history,
        Some(target) => match json_into_array(history) {
            Ok(items) => json_from_array(select_session(tag_entries(items), target)),
            Err(other) => other,
        },
    }
}

/// The reply to a history read, from the outcome of the remote call: a
/// failed call is a bad gateway, a payload that is not JSON an internal
/// error, and otherwise the history, narrowed to `sid` if given.
pub fn history_reply(remote: Result<String, String>, sid: Option<i32>) -> (r: ListenerReply)
    ensures
        remote matches Err(e) ==> (r matches ListenerReply::RemoteFailed(m) && m@ == "grpc error: "@
            + e@),
        remote matches Ok(data) ==> (r is InvalidJson <==> json_parse_of(data@) is None),
        remote matches Ok(data) ==> (r is History <==> json_parse_of(data@) is Some),
        remote matches Ok(data) ==> (r matches ListenerReply::History(h) ==> narrowed(
            json_parse_of(data@)->0,
            sid,
            h,
        )),
        r matches ListenerReply::InvalidJson(m) ==> m@.subrange(0, 14) == "invalid json: "@,
{
    match remote {
        Err(e) => ListenerReply::RemoteFailed(prefixed("grpc error: ", e.as_str())),
        Ok(data) => match parse_json(data.as_str()) {
            Ok(v) => ListenerReply::History(filter_history(v, sid)),
            Err(e) => {
                let detail = e.to_string();
                let m = prefixed("invalid json: ", detail.as_str());
                proof {
                    reveal_strlit("invalid json: ");
                    assert(m@.subrange(0, 14) =~= "invalid json: "@);
                }
                ListenerReply::InvalidJson(m)
            },
        },
    }
}

} // verus!
