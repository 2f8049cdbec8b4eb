//! The raw websocket text frames that a client sends.
use vstd::prelude::*;

use crate::channel::Channel;
use crate::json::{json_encode_single_string, json_single_string_array};

verus! {

/// An authentication token.
pub type Token = String;

/// Gets the raw websocket string to send for subscribing to a channel.
///
/// Subscribing to a channel you are already subscribed to may have differing results depending
/// on the server software (official vs. private). If you subscribe several times, it may take as
/// many unsubscriptions to fully unsubscribe. Keep track of your subscriptions yourself: the
/// server tracks them but cannot be asked about them.
pub fn subscribe(channel: &Channel) -> (r: String)
    ensures
        r@ == json_single_string_array("subscribe "@ + channel.text()),
{
    let message = channel.chain_and_complete_message("subscribe ");
    sockjs_send_from_internal(&message)
}

/// Gets the raw websocket string to send for unsubscribing from a channel.
///
/// Unsubscribing from a channel you are not subscribed to appears to have no effect.
pub fn unsubscribe(channel: &Channel) -> (r: String)
    ensures
        r@ == json_single_string_array("unsubscribe "@ + channel.text()),
{
    let message = channel.chain_and_complete_message("unsubscribe ");
    sockjs_send_from_internal(&message)
}

/// Authenticates with the given token.
///
/// Afterwards subscribing and unsubscribing works. The server answers with an "auth ok" message
/// carrying either this token or a new one.
pub fn authenticate(token: &str) -> (r: String)
    ensures
        r@ == json_single_string_array("auth "@ + token@),
{
    let mut message = String::new();
    message.push_str("auth ");
    message.push_str(token);
    assert(message@ =~= "auth "@ + token@);
    sockjs_send_from_internal(&message)
}

/// Wraps an internal message into the SockJS send frame: a JSON array of one string.
fn sockjs_send_from_internal(source: &String) -> (r: String)
    ensures
        r@ == json_single_string_array(source@),
{
    json_encode_single_string(source.as_str())
}

} // verus!
