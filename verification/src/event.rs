//! Chat events and their wire rendering.
//!
//! A chat event records one thing a peer did: it joined, it left, or it
//! said a line. Every event is rendered to a single text line on the wire:
//! `join[<name>]`, `left[<name>]`, or `chat[<name>]:<text>`.

use vstd::prelude::*;

verus! {

/// One thing a peer did, as delivered to every other peer.
///
/// An event is immutable once constructed; a broadcast shares one event
/// value with every recipient.
#[derive(Clone, Debug)]
pub enum ChatEvent {
    /// A peer with the given display name connected and sent its name.
    Joined { name: String },
    /// A peer with the given display name disconnected.
    Left { name: String },
    /// A peer with the given display name sent a chat line.
    Said { name: String, text: String },
}

impl ChatEvent {
    /// The one wire line this event renders to, without the trailing newline.
    pub open spec fn spec_render(self) -> Seq<char> {
        match self {
            ChatEvent::Joined { name } => "join["@ + name@ + "]"@,
            ChatEvent::Left { name } => "left["@ + name@ + "]"@,
            ChatEvent::Said { name, text } => "chat["@ + name@ + "]:"@ + text@,
        }
    }

    /// Render this event to its wire line, without the trailing newline.
    pub fn render(&self) -> (r: String)
        ensures
            r@ == self.spec_render(),
    {
        match self {
            ChatEvent::Joined { name } => {
                let mut s = String::from_str("join[");
                s.append(name.as_str());
                s.append("]");
                s
            },
            ChatEvent::Left { name } => {
                let mut s = String::from_str("left[");
                s.append(name.as_str());
                s.append("]");
                s
            },
            ChatEvent::Said { name, text } => {
                let mut s = String::from_str("chat[");
                s.append(name.as_str());
                s.append("]:");
                s.append(text.as_str());
                s
            },
        }
    }

    /// Render this event to its wire line with the trailing newline, ready
    /// for one network write.
    pub fn wire_line(&self) -> (r: String)
        ensures
            r@ == self.spec_render() + "\n"@,
    {
        let mut s = self.render();
        s.append("\n");
        s
    }
}

/// The literal prompt line the server sends to a new connection before it
/// reads the display name, without the trailing newline.
pub fn prompt_line() -> (r: String)
    ensures
        r@ == "send your name"@,
{
    String::from_str("send your name")
}

/// The prompt line with its trailing newline, ready for one network
/// write.
pub fn prompt_wire_line() -> (r: String)
    ensures
        r@ == "send your name"@ + "\n"@,
{
    let mut s = prompt_line();
    s.append("\n");
    s
}

} // verus!
