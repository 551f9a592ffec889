//! The acknowledgment: one plain-text message with the number of stored
//! pieces, sent back to where the message came from.

use vstd::prelude::*;
use vstd::string::*;
use crate::collect::group_id;
use crate::document::{quote, quoted};
use crate::event::{MessageEvent, MessageView};
use crate::session::Session;
use crate::text::{decimal, decimal_string, push_decimal};

verus! {

/// The two ways of sending a message.
#[derive(Debug, Clone, Copy, PartialEq, Eq)]
pub enum Route {
    /// To a friend, for a direct message.
    Friend,
    /// To a group.
    Group,
}

/// A request to send: `body` is posted to `url`.
#[derive(Debug, Clone, PartialEq, Eq)]
pub struct Reply {
    pub route: Route,
    pub target: u64,
    pub url: String,
    pub body: String,
}

/// Where the answer to a message goes: to its group, or to its sender where
/// it has no group.
pub open spec fn reply_route(message: MessageView) -> (Route, u64) {
    match group_id(message) {
        Some(g) => (Route::Group, g),
        None => (Route::Friend, message.sender),
    }
}

/// The address that a message is sent through.
pub open spec fn reply_address(host: Seq<char>, route: Route) -> Seq<char> {
    match route {
        Route::Friend => "http://"@ + host + "/sendFriendMessage"@,
        Route::Group => "http://"@ + host + "/sendGroupMessage"@,
    }
}

/// The JSON text of the request: the session key, the target, and a chain of
/// one plain segment whose text is the count in decimal.
pub open spec fn reply_body(token: Seq<char>, target: u64, count: nat) -> Seq<char> {
    "{\"sessionKey\":"@ + quoted(token) + ",\"target\":"@ + decimal(target as nat)
        + ",\"messageChain\":[{\"type\":\"Plain\",\"text\":"@ + quoted(decimal(count)) + "}]}"@
}

/// Builds the address that a message is sent through.
pub fn reply_url(host: &str, route: Route) -> (url: String)
    ensures
        url@ == reply_address(host@, route),
{
    let mut url = String::new();
    url.append("http://");
    proof {
        assert(url@ =~= "http://"@);
    }
    url.append(host);
    match route {
        Route::Friend => {
            url.append("/sendFriendMessage");
        },
        Route::Group => {
            url.append("/sendGroupMessage");
        },
    }
    url
}

/// Builds the acknowledgment of `message` after `count` pieces were stored.
pub fn reply(host: &str, token: &str, message: &MessageEvent, count: usize) -> (r: Reply)
    ensures
        (r.route, r.target) == reply_route(message@),
        r.url@ == reply_address(host@, r.route),
        r.body@ == reply_body(token@, r.target, count as nat),
{
    let (route, target) = match &message.group {
        Some(g) => (Route::Group, g.id),
        None => (Route::Friend, message.sender),
    };
    let text = decimal_string(count as u64);
    let mut body = String::new();
    body.append("{\"sessionKey\":");
    proof {
        assert(body@ =~= "{\"sessionKey\":"@);
    }
    body.append(quote(token).as_str());
    body.append(",\"target\":");
    push_decimal(&mut body, target);
    body.append(",\"messageChain\":[{\"type\":\"Plain\",\"text\":");
    body.append(quote(text.as_str()).as_str());
    body.append("}]}");
    Reply { route, target, url: reply_url(host, route), body }
}

/// The acknowledgment, with the token of the session: `None` while the
/// session holds no token, since nothing can be sent without one.
pub fn reply_for(host: &str, session: &Session, message: &MessageEvent, count: usize) -> (r:
    Option<Reply>)
    ensures
        r.is_some() == session@.is_some(),
        r matches Some(reply) ==> {
            &&& (reply.route, reply.target) == reply_route(message@)
            &&& reply.url@ == reply_address(host@, reply.route)
            &&& reply.body@ == reply_body(session@.unwrap(), reply.target, count as nat)
        },
{
    match session.token() {
        Some(token) => Some(reply(host, token.as_str(), message, count)),
        None => None,
    }
}

} // verus!
