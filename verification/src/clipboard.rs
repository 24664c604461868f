//! The host's clipboard, bridged over the embed connections.
//!
//! An embed process has no clipboard of its own that it should use. What is pasted is
//! what the host pushed last, or what was copied in the embed since.

use vstd::prelude::*;
use vstd::utf8::{decode_utf8, encode_utf8};

use crate::protocol::{clipboard_copy_message, copies_read_back, write_clipboard};

verus! {

/// The clipboard of an embed process.
pub struct EmbedClipboard {
    /// What is pasted.
    pub cache: Option<String>,
    /// The connection of the consumer that was bound last, by its number: it gets what
    /// is copied. There is one system clipboard, and the newest pane is the one that
    /// the user just interacted with.
    pub owner: Option<u64>,
}

/// A message for a connection.
#[derive(Debug)]
pub struct Outgoing {
    pub connection: u64,
    pub message: Vec<u8>,
}

/// What an optional message says.
pub open spec fn outgoing_view(outgoing: Option<Outgoing>) -> Option<(u64, Seq<u8>)> {
    match outgoing {
        Some(outgoing) => Some((outgoing.connection, outgoing.message@)),
        None => None,
    }
}

impl EmbedClipboard {
    /// The clipboard after something was copied; `text` is its text, if it has any.
    pub open spec fn after_copy(self, text: Option<String>) -> EmbedClipboard {
        match text {
            Some(_) => EmbedClipboard { cache: text, ..self },
            None => self,
        }
    }

    /// What is sent of a copy, and over which connection.
    pub open spec fn sent_copy(self, text: Option<String>) -> Option<(u64, Seq<u8>)> {
        match (text, self.owner) {
            (Some(copied), Some(owner)) => Some((owner, clipboard_copy_message(copied@))),
            _ => None,
        }
    }

    /// The clipboard after a consumer was bound.
    pub open spec fn bound_to(self, connection: u64) -> EmbedClipboard {
        EmbedClipboard { owner: Some(connection), ..self }
    }

    /// An empty clipboard without a consumer.
    pub fn new() -> (clipboard: EmbedClipboard)
        ensures
            clipboard == (EmbedClipboard { cache: None, owner: None }),
    {
        EmbedClipboard { cache: None, owner: None }
    }

    /// Sends what is copied to this consumer from now on.
    pub fn bind(&mut self, connection: u64)
        ensures
            *final(self) == old(self).bound_to(connection),
    {
        self.owner = Some(connection);
    }

    /// Takes what was copied in the embed; returns what to send to the host. It is kept
    /// here as well: the host does not send it back.
    pub fn write_to_clipboard(&mut self, text: Option<String>) -> (outgoing: Option<Outgoing>)
        ensures
            *final(self) == old(self).after_copy(text),
            outgoing_view(outgoing) == old(self).sent_copy(text),
    {
        let text: String = match text {
            Some(text) => text,
            None => return None,
        };
        let outgoing: Option<Outgoing> = match self.owner {
            Some(connection) => {
                let mut message: Vec<u8> = Vec::new();
                write_clipboard(&mut message, text.as_str());
                assert(message@ =~= clipboard_copy_message(text@));
                Some(Outgoing { connection, message })
            },
            None => None,
        };
        self.cache = Some(text);
        outgoing
    }

    /// What is pasted.
    pub fn read_from_clipboard(&self) -> (text: Option<String>)
        ensures
            text == self.cache,
    {
        match &self.cache {
            Some(text) => Some(text.clone()),
            None => None,
        }
    }
}

/// Copying in the embed and pasting in it yields what was copied, whether a consumer
/// is bound or not; copying what has no text changes nothing.
pub proof fn own_copies_are_pasted(clipboard: EmbedClipboard, text: String)
    ensures
        clipboard.after_copy(Some(text)).cache == Some(text),
        clipboard.after_copy(None) == clipboard,
        clipboard.after_copy(Some(text)).owner == clipboard.owner,
{
}

/// What is copied goes to the consumer that was bound last, whoever was bound before, and
/// says the text that was copied. Without a text, or without a consumer, nothing is sent.
/// Binding changes nothing of what is pasted.
pub proof fn copies_go_to_the_newest_consumer(
    clipboard: EmbedClipboard,
    earlier: u64,
    newest: u64,
    text: String,
)
    requires
        encode_utf8(text@).len() <= u32::MAX,
    ensures
        clipboard.bound_to(earlier).bound_to(newest).sent_copy(Some(text)) matches Some(
            (connection, message),
        ) && connection == newest && decode_utf8(message.skip(8)) == text@,
        clipboard.sent_copy(None) is None,
        clipboard.owner is None ==> clipboard.sent_copy(Some(text)) is None,
        clipboard.owner matches Some(owner) ==> clipboard.sent_copy(Some(text)) is Some,
        clipboard.bound_to(newest).cache == clipboard.cache,
{
    copies_read_back(text@);
}

} // verus!
