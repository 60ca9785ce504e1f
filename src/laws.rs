use vstd::prelude::*;

use crate::form::{form_body, holds, lemma_body_holds_field, pair_text};
use crate::api::{
    account_step, after_fault, derived_key, authentic, call_fields, call_key, file_step, flag_step, init_key,
    init_step, init_verdict, plain_step, rejection, screen, setvar_step, success_of, text_field,
    text_step, tree_step, verdict, web_login_step, Fault, Operation, ReplyView, Session,
};

verus! {

/// After a successful init, the session holds the identifier that the
/// service issued, and every later request carries it as `sessionid`, in
/// its fields and in its body.
pub proof fn lemma_issued_session_id_is_sent(s: Session, reply: ReplyView, op: Operation)
    requires
        init_verdict(s, reply) is Ok,
    ensures
        ({
            let issued = text_field(init_verdict(s, reply)->Ok_0, "sessionid"@)->Some_0;
            let t = init_step(s, reply);
            &&& t.session_id == issued
            &&& call_fields(t, op).contains(("sessionid"@, issued))
            &&& holds(form_body(call_fields(t, op)), pair_text(("sessionid"@, issued)))
        }),
{
    let t = init_step(s, reply);
    let f = call_fields(t, op);
    let k = f.len() - 3;
    assert(f[k] == ("sessionid"@, t.session_id));
    lemma_body_holds_field(f, k);
}

/// No call after init changes the session identifier, whatever its reply.
pub proof fn lemma_calls_keep_session_id(
    s: Session,
    reply: ReplyView,
    username: Option<Seq<char>>,
    hwid: Option<Seq<char>>,
    key: Seq<char>,
)
    ensures
        account_step(s, reply, username, hwid).0.session_id == s.session_id,
        plain_step(s, reply).0.session_id == s.session_id,
        text_step(s, reply, key).0.session_id == s.session_id,
        file_step(s, reply).0.session_id == s.session_id,
        flag_step(s, reply).0.session_id == s.session_id,
        tree_step(s, reply, key).0.session_id == s.session_id,
        setvar_step(s, reply).0.session_id == s.session_id,
        web_login_step(s, reply, username->Some_0, hwid).0.session_id == s.session_id,
{
}

/// The session as it stands after a tampered reply: closed, and nothing else changed.
pub open spec fn closed(s: Session) -> Session {
    Session { terminated: true, ..s }
}

/// A reply to a call after init whose signature is missing or is not the
/// signature of its body under the derived key fails as tampered, closes
/// the session and changes nothing else.
pub proof fn lemma_forged_reply_changes_nothing(
    s: Session,
    reply: ReplyView,
    username: Option<Seq<char>>,
    hwid: Option<Seq<char>>,
    key: Seq<char>,
)
    requires
        !s.terminated,
        !authentic(reply, call_key(s)),
    ensures
        verdict(s, reply) == Err::<crate::json::Json, Fault>(Fault::Tampered),
        account_step(s, reply, username, hwid) == (closed(s), Err::<(), Fault>(Fault::Tampered)),
        plain_step(s, reply) == (closed(s), Err::<(), Fault>(Fault::Tampered)),
        text_step(s, reply, key) == (closed(s), Err::<Seq<char>, Fault>(Fault::Tampered)),
        file_step(s, reply) == (closed(s), Err::<Seq<u8>, Fault>(Fault::Tampered)),
        flag_step(s, reply) == (closed(s), Err::<bool, Fault>(Fault::Tampered)),
        tree_step(s, reply, key) == (closed(s), Err::<crate::json::Json, Fault>(Fault::Tampered)),
        setvar_step(s, reply) == (closed(s), Err::<(), Fault>(Fault::Tampered)),
        web_login_step(s, reply, username->Some_0, hwid) == (closed(s), Err::<(), Fault>(
            Fault::Tampered,
        )),
{
}

/// A reply to init whose signature is missing or is not the signature of
/// its body under the shared secret fails as tampered and closes the
/// session, changing nothing else.
pub proof fn lemma_forged_init_reply_changes_nothing(s: Session, reply: ReplyView)
    requires
        !s.terminated,
        reply.body != "KeyAuth_Invalid"@,
        !authentic(reply, init_key(s)),
    ensures
        init_verdict(s, reply) == Err::<crate::json::Json, Fault>(Fault::Tampered),
        init_step(s, reply) == closed(s),
{
}

/// Once the derived key is set, it differs from the shared secret, and the
/// two are never interchanged: a reply signed only with the derived key
/// fails at init, and one signed only with the shared secret fails at every
/// later call.
pub proof fn lemma_keys_not_interchanged(s: Session, reply: ReplyView)
    requires
        !s.terminated,
        reply.body != "KeyAuth_Invalid"@,
        call_key(s) == derived_key(s.enckey, s.secret),
    ensures
        call_key(s) != init_key(s),
        authentic(reply, call_key(s)) && !authentic(reply, init_key(s)) ==> init_verdict(s, reply)
            == Err::<crate::json::Json, Fault>(Fault::Tampered),
        authentic(reply, init_key(s)) && !authentic(reply, call_key(s)) ==> verdict(s, reply)
            == Err::<crate::json::Json, Fault>(Fault::Tampered),
{
    assert(call_key(s).len() > init_key(s).len());
}

/// A verified reply that says `success: false` with a message fails with
/// that message and leaves the session as it was.
pub proof fn lemma_rejection_keeps_session(
    s: Session,
    reply: ReplyView,
    username: Option<Seq<char>>,
    hwid: Option<Seq<char>>,
    key: Seq<char>,
    message: Seq<char>,
)
    requires
        screen(s, call_key(s), reply) is Ok,
        success_of(screen(s, call_key(s), reply)->Ok_0) == Some(false),
        text_field(screen(s, call_key(s), reply)->Ok_0, "message"@) == Some(message),
    ensures
        verdict(s, reply) == Err::<crate::json::Json, Fault>(Fault::Rejected(message)),
        account_step(s, reply, username, hwid) == (s, Err::<(), Fault>(Fault::Rejected(message))),
        plain_step(s, reply) == (s, Err::<(), Fault>(Fault::Rejected(message))),
        text_step(s, reply, key) == (s, Err::<Seq<char>, Fault>(Fault::Rejected(message))),
        file_step(s, reply) == (s, Err::<Seq<u8>, Fault>(Fault::Rejected(message))),
        tree_step(s, reply, key) == (s, Err::<crate::json::Json, Fault>(Fault::Rejected(message))),
        web_login_step(s, reply, username->Some_0, hwid) == (s, Err::<(), Fault>(
            Fault::Rejected(message),
        )),
        setvar_step(s, reply) == (
            Session { message: message, success: false, ..s },
            Err::<(), Fault>(Fault::Rejected(message)),
        ),
{
    assert(rejection(screen(s, call_key(s), reply)->Ok_0) == Fault::Rejected(message));
}

/// Once a tampered reply has closed the session, every later reply fails
/// with `SessionClosed` and changes nothing.
pub proof fn lemma_closed_session_takes_no_reply(
    s: Session,
    reply: ReplyView,
    later: ReplyView,
    username: Option<Seq<char>>,
    hwid: Option<Seq<char>>,
    key: Seq<char>,
)
    requires
        verdict(s, reply) == Err::<crate::json::Json, Fault>(Fault::Tampered),
    ensures
        ({
            let t = after_fault(s, Fault::Tampered);
            &&& t.terminated
            &&& init_verdict(t, later) == Err::<crate::json::Json, Fault>(Fault::SessionClosed)
            &&& init_step(t, later) == t
            &&& verdict(t, later) == Err::<crate::json::Json, Fault>(Fault::SessionClosed)
            &&& account_step(t, later, username, hwid) == (t, Err::<(), Fault>(Fault::SessionClosed))
            &&& plain_step(t, later) == (t, Err::<(), Fault>(Fault::SessionClosed))
            &&& text_step(t, later, key) == (t, Err::<Seq<char>, Fault>(Fault::SessionClosed))
            &&& file_step(t, later) == (t, Err::<Seq<u8>, Fault>(Fault::SessionClosed))
            &&& flag_step(t, later) == (t, Err::<bool, Fault>(Fault::SessionClosed))
            &&& tree_step(t, later, key) == (t, Err::<crate::json::Json, Fault>(Fault::SessionClosed))
            &&& setvar_step(t, later) == (t, Err::<(), Fault>(Fault::SessionClosed))
        }),
{
}

/// One finished call after init, with its reply and the arguments its
/// handler takes; each stands for the handler of the same kind in
/// `KeyauthApi`, whose contract gives the session after it.
pub enum Call {
    /// `register`, `login` or `license`.
    Account(ReplyView, Option<Seq<char>>, Option<Seq<char>>),
    /// `upgrade` or `send_chat_message`.
    Plain(ReplyView),
    /// `var`, `webhook`, `change_username` or `getvar`, by the field read.
    Text(ReplyView, Seq<char>),
    File(ReplyView),
    Blacklist(ReplyView),
    /// `check_session`.
    Check(ReplyView),
    /// `fetch_online` or `get_chat`, by the member read.
    Tree(ReplyView, Seq<char>),
    SetVar(ReplyView),
    WebLogin(ReplyView, Seq<char>, Option<Seq<char>>),
}

/// The session after one call.
pub open spec fn after_call(s: Session, c: Call) -> Session {
    match c {
        Call::Account(r, u, h) => account_step(s, r, u, h).0,
        Call::Plain(r) => plain_step(s, r).0,
        Call::Text(r, k) => text_step(s, r, k).0,
        Call::File(r) => file_step(s, r).0,
        Call::Blacklist(r) => match flag_step(s, r) {
            (t, Ok(b)) => Session { blacklisted: b, ..t },
            (t, Err(_)) => t,
        },
        Call::Check(r) => flag_step(s, r).0,
        Call::Tree(r, k) => tree_step(s, r, k).0,
        Call::SetVar(r) => setvar_step(s, r).0,
        Call::WebLogin(r, u, h) => web_login_step(s, r, u, h).0,
    }
}

/// The session after a sequence of calls, in order.
pub open spec fn after_calls(s: Session, calls: Seq<Call>) -> Session
    decreases calls.len(),
{
    if calls.len() == 0 {
        s
    } else {
        after_call(after_calls(s, calls.drop_last()), calls.last())
    }
}

/// No sequence of calls after init changes the session identifier.
pub proof fn lemma_call_sequence_keeps_session_id(s: Session, calls: Seq<Call>)
    ensures
        after_calls(s, calls).session_id == s.session_id,
    decreases calls.len(),
{
    if calls.len() > 0 {
        lemma_call_sequence_keeps_session_id(s, calls.drop_last());
        let t = after_calls(s, calls.drop_last());
        match calls.last() {
            Call::WebLogin(r, u, h) => lemma_calls_keep_session_id(t, r, Some(u), h, Seq::empty()),
            Call::Account(r, u, h) => lemma_calls_keep_session_id(t, r, u, h, Seq::empty()),
            Call::Text(r, k) => lemma_calls_keep_session_id(t, r, None, None, k),
            Call::Tree(r, k) => lemma_calls_keep_session_id(t, r, None, None, k),
            Call::Plain(r) => lemma_calls_keep_session_id(t, r, None, None, Seq::empty()),
            Call::File(r) => lemma_calls_keep_session_id(t, r, None, None, Seq::empty()),
            Call::Blacklist(r) => lemma_calls_keep_session_id(t, r, None, None, Seq::empty()),
            Call::Check(r) => lemma_calls_keep_session_id(t, r, None, None, Seq::empty()),
            Call::SetVar(r) => lemma_calls_keep_session_id(t, r, None, None, Seq::empty()),
        }
    }
}

/// After a successful init and any sequence of calls, every request carries
/// the session identifier that init issued, in its fields and in its body.
pub proof fn lemma_issued_session_id_survives_calls(
    s: Session,
    reply: ReplyView,
    calls: Seq<Call>,
    op: Operation,
)
    requires
        init_verdict(s, reply) is Ok,
    ensures
        ({
            let issued = text_field(init_verdict(s, reply)->Ok_0, "sessionid"@)->Some_0;
            let t = after_calls(init_step(s, reply), calls);
            &&& t.session_id == issued
            &&& call_fields(t, op).contains(("sessionid"@, issued))
            &&& holds(form_body(call_fields(t, op)), pair_text(("sessionid"@, issued)))
        }),
{
    lemma_issued_session_id_is_sent(s, reply, op);
    let u = init_step(s, reply);
    lemma_call_sequence_keeps_session_id(u, calls);
    let t = after_calls(u, calls);
    let f = call_fields(t, op);
    let k = f.len() - 3;
    assert(f[k] == ("sessionid"@, t.session_id));
    lemma_body_holds_field(f, k);
}

/// A closed session stays as it is through any sequence of calls, and
/// every later reply to it fails with `SessionClosed`.
pub proof fn lemma_closed_session_stays_closed(t: Session, calls: Seq<Call>, later: ReplyView)
    requires
        t.terminated,
    ensures
        after_calls(t, calls) == t,
        verdict(after_calls(t, calls), later) == Err::<crate::json::Json, Fault>(
            Fault::SessionClosed,
        ),
        init_verdict(after_calls(t, calls), later) == Err::<crate::json::Json, Fault>(
            Fault::SessionClosed,
        ),
    decreases calls.len(),
{
    if calls.len() > 0 {
        lemma_closed_session_stays_closed(t, calls.drop_last(), later);
    }
}

/// After a reply that was tampered with, any sequence of later calls leaves
/// the session closed with the account facts it had before, and every reply
/// after them fails with `SessionClosed`.
pub proof fn lemma_tampering_ends_the_session(
    s: Session,
    reply: ReplyView,
    calls: Seq<Call>,
    later: ReplyView,
)
    requires
        verdict(s, reply) == Err::<crate::json::Json, Fault>(Fault::Tampered),
    ensures
        after_calls(after_fault(s, Fault::Tampered), calls) == closed(s),
        verdict(after_calls(after_fault(s, Fault::Tampered), calls), later) == Err::<
            crate::json::Json,
            Fault,
        >(Fault::SessionClosed),
{
    lemma_closed_session_stays_closed(after_fault(s, Fault::Tampered), calls, later);
}

} // verus!
