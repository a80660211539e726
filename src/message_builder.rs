//! Fluent construction of a message packet.
use crate::embed::{embeds_view, Embed};
use crate::message::{MessagePacket, MessageView};
use vstd::prelude::*;

verus! {

/// Setting the username or the avatar twice leaves only the second value.
pub proof fn lemma_last_identity_wins(v: MessageView, a: Seq<char>, b: Seq<char>)
    ensures
        (MessageView { username: b, ..(MessageView { username: a, ..v }) }) == (MessageView {
            username: b,
            ..v
        }),
        (MessageView { avatar_url: b, ..(MessageView { avatar_url: a, ..v }) }) == (MessageView {
            avatar_url: b,
            ..v
        }),
{
}

/// Builds a message one call at a time.
#[derive(Clone)]
pub struct MessageBuilder {
    message: MessagePacket,
}

impl View for MessageBuilder {
    type V = MessageView;

    closed spec fn view(&self) -> MessageView {
        self.message@
    }
}

impl MessageBuilder {
    /// A message with this content and text-to-speech flag, no username or
    /// avatar of its own and no embeds. The content may be empty.
    pub fn new(content: &str, tts: bool) -> (r: Self)
        ensures
            r@ == (MessageView {
                content: content@,
                username: Seq::empty(),
                avatar_url: Seq::empty(),
                tts,
                embeds: Seq::empty(),
            }),
    {
        let message = MessagePacket {
            content: String::from_str(content),
            username: String::new(),
            avatar_url: String::new(),
            tts,
            embeds: Vec::new(),
        };
        assert(message@.embeds =~= Seq::empty());
        MessageBuilder { message }
    }

    /// Posts under this name in place of the webhook's own.
    pub fn with_username(self, username: &str) -> (r: Self)
        ensures
            r@ == (MessageView { username: username@, ..self@ }),
    {
        let mut b = self;
        b.message.username = String::from_str(username);
        b
    }

    /// Posts with this avatar in place of the webhook's own.
    pub fn with_avatar_url(self, avatar_url: &str) -> (r: Self)
        ensures
            r@ == (MessageView { avatar_url: avatar_url@, ..self@ }),
    {
        let mut b = self;
        b.message.avatar_url = String::from_str(avatar_url);
        b
    }

    /// Appends an embed after those added before.
    pub fn add_embed(self, embed: Embed) -> (r: Self)
        ensures
            r@ == (MessageView { embeds: self@.embeds.push(embed@), ..self@ }),
    {
        let mut b = self;
        let ghost before = b.message.embeds@;
        let ghost e = embed@;
        b.message.embeds.push(embed);
        assert(embeds_view(b.message.embeds@) =~= embeds_view(before).push(e));
        b
    }

    /// The message as built.
    pub fn build(self) -> (r: MessagePacket)
        ensures
            r@ == self@,
    {
        self.message
    }
}

} // verus!
