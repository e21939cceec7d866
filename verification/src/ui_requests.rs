//! A presentation capability that queues what plugins ask for: each request
//! goes into a channel, and the host's event loop takes it from there and
//! shows it.

use vstd::prelude::*;
use crate::types::UiHandler;

verus! {

/// `tokio::sync::mpsc::UnboundedSender`: the sending half of a channel
/// without a bound.
#[verifier::external_type_specification]
#[verifier::external_body]
#[verifier::reject_recursive_types(T)]
pub struct ExUnboundedSender<T>(tokio::sync::mpsc::UnboundedSender<T>);

/// An interaction that a plugin asked for. The host completes it by handing
/// `plugin_name` and `callback_id` back to the engine with the user's
/// answer.
#[derive(Debug)]
pub enum UiRequest {
    Prompt { message: String, default: Option<String>, plugin_name: String, callback_id: u64 },
    Confirm { message: String, plugin_name: String, callback_id: u64 },
    Picker { items: Vec<String>, prompt: String, plugin_name: String, callback_id: u64 },
}

impl UiRequest {
    /// The plugin that asked.
    pub open spec fn plugin(self) -> Seq<char> {
        match self {
            UiRequest::Prompt { plugin_name, .. } => plugin_name@,
            UiRequest::Confirm { plugin_name, .. } => plugin_name@,
            UiRequest::Picker { plugin_name, .. } => plugin_name@,
        }
    }

    /// The id under which the answer is expected.
    pub open spec fn id(self) -> u64 {
        match self {
            UiRequest::Prompt { callback_id, .. } => callback_id,
            UiRequest::Confirm { callback_id, .. } => callback_id,
            UiRequest::Picker { callback_id, .. } => callback_id,
        }
    }

    /// The plugin and the id that the host hands back with the answer.
    pub fn completion_key(&self) -> (r: (String, u64))
        ensures
            r.0@ == self.plugin(),
            r.1 == self.id(),
    {
        match self {
            UiRequest::Prompt { plugin_name, callback_id, .. } => (
                plugin_name.clone(),
                *callback_id,
            ),
            UiRequest::Confirm { plugin_name, callback_id, .. } => (
                plugin_name.clone(),
                *callback_id,
            ),
            UiRequest::Picker { plugin_name, callback_id, .. } => (
                plugin_name.clone(),
                *callback_id,
            ),
        }
    }
}

/// `tokio::sync::mpsc::UnboundedSender::send`: puts `request` into the
/// channel without waiting. It returns whether the receiving half is still
/// there.
#[verifier::external_body]
pub(crate) fn send_request(
    sender: &tokio::sync::mpsc::UnboundedSender<UiRequest>,
    request: UiRequest,
) -> (delivered: bool) {
    sender.send(request).is_ok()
}

/// Presents interactions by queueing them for the host's event loop.
pub struct TermUiHandler {
    sender: tokio::sync::mpsc::UnboundedSender<UiRequest>,
}

impl TermUiHandler {
    /// The sending half of the channel that the handler queues into.
    pub closed spec fn sender(&self) -> tokio::sync::mpsc::UnboundedSender<UiRequest> {
        self.sender
    }

    /// A handler that queues into the channel of `sender`.
    pub fn new(sender: tokio::sync::mpsc::UnboundedSender<UiRequest>) -> (r: Self)
        ensures
            r.sender() == sender,
    {
        TermUiHandler { sender }
    }
}

impl<H> UiHandler<H> for TermUiHandler {
    fn prompt(
        &self,
        host: &mut H,
        message: String,
        default: Option<String>,
        plugin_name: String,
        callback_id: u64,
    )
        ensures
            *final(host) == *old(host),
    {
        let _ = send_request(
            &self.sender,
            UiRequest::Prompt { message, default, plugin_name, callback_id },
        );
    }

    fn confirm(&self, host: &mut H, message: String, plugin_name: String, callback_id: u64)
        ensures
            *final(host) == *old(host),
    {
        let _ = send_request(&self.sender, UiRequest::Confirm { message, plugin_name, callback_id });
    }

    fn picker(
        &self,
        host: &mut H,
        items: Vec<String>,
        prompt: String,
        plugin_name: String,
        callback_id: u64,
    )
        ensures
            *final(host) == *old(host),
    {
        let _ = send_request(
            &self.sender,
            UiRequest::Picker { items, prompt, plugin_name, callback_id },
        );
    }
}

} // verus!
