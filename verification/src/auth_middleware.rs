//! The middleware in front of the protected routes: it turns the
//! `Authorization` header of a request into a verified identity, or into the
//! reply that turns the request away before any handler sees it.

use vstd::prelude::*;
use crate::clock::{unix_now, CLOCK_LIMIT};
use crate::http::{StatusCode, TextReply, TextReplyView};
use crate::jwt::{verify_spec, verify_token_at, TokenConfig};

verus! {

/// The scheme that an `Authorization` header must begin with, blank included.
pub open spec fn bearer_prefix() -> Seq<char> {
    seq!['B', 'e', 'a', 'r', 'e', 'r', ' ']
}

/// The candidate token in an `Authorization` header: what follows the
/// seven characters `Bearer `, if the header begins with them. The match is
/// exact in case, and the token may be empty.
pub open spec fn bearer_token(header: Seq<char>) -> Option<Seq<char>> {
    if header.len() >= 7 && header.subrange(0, 7) == bearer_prefix() {
        Some(header.subrange(7, header.len() as int))
    } else {
        None
    }
}

/// Takes the candidate token out of an `Authorization` header.
pub fn strip_bearer(header: &str) -> (token: Option<&str>)
    ensures
        match token {
            Some(t) => bearer_token(header@) == Some(t@),
            None => bearer_token(header@) is None,
        },
{
    let prefix = "Bearer ";
    proof {
        reveal_strlit("Bearer ");
        assert(prefix@ =~= bearer_prefix());
    }
    let n = header.unicode_len();
    if n < 7 {
        return None;
    }
    let mut i: usize = 0;
    while i < 7
        invariant
            i <= 7,
            7 <= n,
            n == header@.len(),
            prefix@ == bearer_prefix(),
            forall|j: int| 0 <= j < i ==> header@[j] == bearer_prefix()[j],
        decreases 7 - i,
    {
        if header.get_char(i) != prefix.get_char(i) {
            assert(header@.subrange(0, 7)[i as int] != bearer_prefix()[i as int]);
            return None;
        }
        i += 1;
    }
    assert(header@.subrange(0, 7) =~= bearer_prefix());
    Some(header.substring_char(7, n))
}

/// Why a request was turned away.
#[derive(Clone, Copy, Debug, PartialEq, Eq, Structural)]
pub enum AuthRejection {
    /// There is no `Authorization` header, or it does not begin with `Bearer `.
    MissingCredentials,
    /// The token in the header did not verify.
    InvalidToken,
}

impl AuthRejection {
    /// The body of the reply, to the letter.
    pub open spec fn message_spec(self) -> Seq<char> {
        match self {
            AuthRejection::MissingCredentials => "Authorization header missing or invalid"@,
            AuthRejection::InvalidToken => "Invalid token"@,
        }
    }

    /// The reply that goes out: always 401, with the message as plain text.
    pub open spec fn reply_spec(self) -> TextReplyView {
        TextReplyView { status: StatusCode::Unauthorized, body: self.message_spec() }
    }

    pub fn message(self) -> (text: &'static str)
        ensures
            text@ == self.message_spec(),
    {
        match self {
            AuthRejection::MissingCredentials => "Authorization header missing or invalid",
            AuthRejection::InvalidToken => "Invalid token",
        }
    }

    pub fn reply(self) -> (reply: TextReply)
        ensures
            reply@ == self.reply_spec(),
            reply.status.number() == 401,
    {
        TextReply::message(StatusCode::Unauthorized, self.message())
    }
}

/// The identity of the caller, as the handlers of one request see it.
#[derive(Debug, PartialEq, Eq)]
pub struct RequestIdentity {
    pub subject: String,
}

/// What the middleware decides about a request.
#[derive(Debug, PartialEq, Eq)]
pub enum AuthDecision {
    /// The request goes on to its handler, under this identity.
    Forward(RequestIdentity),
    /// The request ends here.
    Reject(AuthRejection),
}

/// What an `AuthDecision` holds.
pub enum AuthDecisionView {
    Forward { subject: Seq<char> },
    Reject(AuthRejection),
}

impl View for AuthDecision {
    type V = AuthDecisionView;

    open spec fn view(&self) -> AuthDecisionView {
        match self {
            AuthDecision::Forward(identity) => AuthDecisionView::Forward {
                subject: identity.subject@,
            },
            AuthDecision::Reject(why) => AuthDecisionView::Reject(*why),
        }
    }
}

/// The decision about a request with this `Authorization` header at `now`,
/// in the order in which the checks are made: a header must be there, it
/// must begin with `Bearer `, and what follows must verify as a token.
pub open spec fn decide(config: &TokenConfig, authorization: Option<Seq<char>>, now: u64)
    -> AuthDecisionView {
    match authorization {
        None => AuthDecisionView::Reject(AuthRejection::MissingCredentials),
        Some(header) => match bearer_token(header) {
            None => AuthDecisionView::Reject(AuthRejection::MissingCredentials),
            Some(token) => match verify_spec(config, token, now) {
                Ok(claims) => AuthDecisionView::Forward { subject: claims.sub },
                Err(_) => AuthDecisionView::Reject(AuthRejection::InvalidToken),
            },
        },
    }
}

/// The header as contracts speak of it.
pub open spec fn header_view(authorization: Option<&str>) -> Option<Seq<char>> {
    match authorization {
        Some(h) => Some(h@),
        None => None,
    }
}

/// What leaves the middleware: the reply of the handler, untouched, or the
/// reply that turned the request away.
#[derive(Debug, PartialEq, Eq)]
pub enum MiddlewareReply<R> {
    Handled(R),
    Rejected(TextReply),
}

/// Whether `reply` is what the middleware hands back for `decision` when
/// `next` is the rest of the chain: for a request that is let through, what
/// `next` answers to the verified identity; for any other, the reply that
/// turns it away.
pub open spec fn answers<R, F: FnOnce(RequestIdentity) -> R>(
    decision: AuthDecisionView,
    next: F,
    reply: MiddlewareReply<R>,
) -> bool {
    match decision {
        AuthDecisionView::Forward { subject } => reply is Handled && exists|
            identity: RequestIdentity,
        |
            identity.subject@ == subject && #[trigger] next.ensures(
                (identity,),
                reply->Handled_0,
            ),
        AuthDecisionView::Reject(why) => reply is Rejected && reply->Rejected_0@
            == why.reply_spec(),
    }
}

/// The factory of the middleware: it holds the configuration that every
/// instance checks tokens against.
#[derive(Debug)]
pub struct AuthMiddleware {
    pub config: TokenConfig,
}

/// The middleware itself.
#[derive(Debug)]
pub struct AuthMiddlewareMiddleware {
    pub config: TokenConfig,
}

impl AuthMiddleware {
    pub fn new(config: TokenConfig) -> (factory: AuthMiddleware)
        ensures
            factory.config == config,
    {
        AuthMiddleware { config }
    }

    /// Makes a middleware that checks tokens against the same secrets.
    pub fn new_transform(&self) -> (middleware: AuthMiddlewareMiddleware)
        ensures
            middleware.config@ == self.config@,
    {
        AuthMiddlewareMiddleware { config: self.config.clone() }
    }
}

impl AuthMiddlewareMiddleware {
    /// Decides about a request as of the instant `now`.
    pub fn authorize_at(&self, authorization: Option<&str>, now: u64) -> (decision: AuthDecision)
        ensures
            decision@ == decide(&self.config, header_view(authorization), now),
    {
        let header = match authorization {
            Some(h) => h,
            None => { return AuthDecision::Reject(AuthRejection::MissingCredentials); },
        };
        let token = match strip_bearer(header) {
            Some(t) => t,
            None => { return AuthDecision::Reject(AuthRejection::MissingCredentials); },
        };
        match verify_token_at(&self.config, token, now) {
            Ok(claims) => AuthDecision::Forward(RequestIdentity { subject: claims.sub }),
            Err(_) => AuthDecision::Reject(AuthRejection::InvalidToken),
        }
    }

    /// Decides about a request as of the current time.
    pub fn authorize(&self, authorization: Option<&str>) -> (decision: AuthDecision)
        ensures
            exists|now: u64|
                now < CLOCK_LIMIT && #[trigger] decide(
                    &self.config,
                    header_view(authorization),
                    now,
                ) == decision@,
            authorization is None ==> decision@ == AuthDecisionView::Reject(
                AuthRejection::MissingCredentials,
            ),
            authorization matches Some(h) && bearer_token(h@) is None ==> decision@
                == AuthDecisionView::Reject(AuthRejection::MissingCredentials),
    {
        let now = unix_now();
        self.authorize_at(authorization, now)
    }

    /// Handles a request as of the instant `now`: a request that is let
    /// through is handed to `next` under its verified identity, and what
    /// `next` answers is handed back as it is; any other request is answered
    /// here, and `next` is not called.
    pub fn call_at<R, F: FnOnce(RequestIdentity) -> R>(
        &self,
        authorization: Option<&str>,
        now: u64,
        next: F,
    ) -> (reply: MiddlewareReply<R>)
        requires
            forall|identity: RequestIdentity| next.requires((identity,)),
        ensures
            answers(decide(&self.config, header_view(authorization), now), next, reply),
    {
        let decision = self.authorize_at(authorization, now);
        let ghost decided = decide(&self.config, header_view(authorization), now);
        match decision {
            AuthDecision::Forward(identity) => {
                let ghost passed = identity;
                let handled = next(identity);
                let reply = MiddlewareReply::Handled(handled);
                assert(answers(decided, next, reply)) by {
                    assert(passed.subject@ == decided->subject);
                    assert(next.ensures((passed,), reply->Handled_0));
                }
                reply
            },
            AuthDecision::Reject(why) => {
                assert(decided == AuthDecisionView::Reject(why));
                MiddlewareReply::Rejected(why.reply())
            },
        }
    }

    /// Handles a request as of the current time.
    pub fn call<R, F: FnOnce(RequestIdentity) -> R>(&self, authorization: Option<&str>, next: F)
        -> (reply: MiddlewareReply<R>)
        requires
            forall|identity: RequestIdentity| next.requires((identity,)),
        ensures
            exists|now: u64|
                now < CLOCK_LIMIT && answers(
                    #[trigger] decide(&self.config, header_view(authorization), now),
                    next,
                    reply,
                ),
    {
        let now = unix_now();
        self.call_at(authorization, now, next)
    }
}

} // verus!
