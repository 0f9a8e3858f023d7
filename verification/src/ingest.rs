//! Ingestion of remote directory records: filtering a channel listing down
//! to text channels, and turning a newest-first message page into the
//! oldest-first message collection the state holds, composing author names,
//! avatar URLs and timestamp text on the way.

use vstd::prelude::*;
use vstd::string::StringExecFns;
use crate::app::{AttachmentInfo, AttachmentModel, ChannelInfo, ChannelModel, MessageInfo, MessageModel};
use crate::text::{dec_int, dec_nat, i64_to_dec, pad4, u16_pad4, u64_to_dec};

verus! {

/// The kind of a channel record as the remote directory reports it. Only
/// guild text channels are kept by ingestion.
#[derive(Clone, Copy, PartialEq, Eq, Structural, Debug)]
pub enum ChannelKind {
    GuildText,
    GuildVoice,
    GuildCategory,
    Other,
}

/// A channel record as the remote directory delivers it: the name may be
/// absent and the kind is not yet filtered.
#[derive(Clone, Debug)]
pub struct RemoteChannel {
    pub id: u64,
    pub name: Option<String>,
    pub kind: ChannelKind,
}

/// Model of a remote channel record.
#[verifier::ext_equal]
pub ghost struct RemoteChannelModel {
    pub id: u64,
    pub name: Option<Seq<char>>,
    pub kind: ChannelKind,
}

impl View for RemoteChannel {
    type V = RemoteChannelModel;

    open spec fn view(&self) -> RemoteChannelModel {
        RemoteChannelModel { id: self.id, name: self.name.deep_view(), kind: self.kind }
    }
}

impl DeepView for RemoteChannel {
    type V = RemoteChannelModel;

    open spec fn deep_view(&self) -> RemoteChannelModel {
        self.view()
    }
}

/// An unnamed channel is displayed under this default.
pub open spec fn channel_display_name(name: Option<Seq<char>>) -> Seq<char> {
    match name {
        Some(n) => n,
        None => "Unnamed"@,
    }
}

/// The channel entity a single remote record becomes.
pub open spec fn channel_of(c: RemoteChannelModel) -> ChannelModel {
    ChannelModel { id: c.id, name: channel_display_name(c.name) }
}

/// Exactly the guild-text records of `recs`, in their original relative
/// order, each mapped to its channel entity.
pub open spec fn text_channels_of(recs: Seq<RemoteChannelModel>) -> Seq<ChannelModel>
    decreases recs.len(),
{
    if recs.len() == 0 {
        Seq::empty()
    } else {
        let rest = text_channels_of(recs.drop_last());
        if recs.last().kind == ChannelKind::GuildText {
            rest.push(channel_of(recs.last()))
        } else {
            rest
        }
    }
}

/// Keeps the guild-text records only, in order, substituting the default
/// display name where a record carries none.
pub fn filter_text_channels(recs: Vec<RemoteChannel>) -> (r: Vec<ChannelInfo>)
    ensures
        r.deep_view() == text_channels_of(recs.deep_view()),
{
    let mut out: Vec<ChannelInfo> = Vec::new();
    let mut i: usize = 0;
    while i < recs.len()
        invariant
            i <= recs.len(),
            out.deep_view() =~= text_channels_of(recs.deep_view().take(i as int)),
        decreases recs.len() - i,
    {
        let rc = &recs[i];
        if rc.kind == ChannelKind::GuildText {
            let name = match &rc.name {
                Some(n) => n.clone(),
                None => "Unnamed".to_owned(),
            };
            out.push(ChannelInfo { id: rc.id, name });
        }
        proof {
            let whole = recs.deep_view();
            assert(whole.take(i + 1).drop_last() =~= whole.take(i as int));
            assert(whole.take(i + 1).last() == whole[i as int]);
        }
        i += 1;
    }
    proof {
        assert(recs.deep_view().take(recs.len() as int) =~= recs.deep_view());
    }
    out
}

/// A message record as the remote directory delivers it, before ingestion
/// composes the display fields.
#[derive(Clone, Debug)]
pub struct RemoteMessage {
    pub id: u64,
    pub content: String,
    pub author_id: u64,
    pub author_name: String,
    pub author_discriminator: u16,
    pub author_avatar: Option<String>,
    pub timestamp_secs: i64,
    pub attachments: Vec<AttachmentInfo>,
}

/// Model of a remote message record.
#[verifier::ext_equal]
pub ghost struct RemoteMessageModel {
    pub id: u64,
    pub content: Seq<char>,
    pub author_id: u64,
    pub author_name: Seq<char>,
    pub author_discriminator: u16,
    pub author_avatar: Option<Seq<char>>,
    pub timestamp_secs: i64,
    pub attachments: Seq<AttachmentModel>,
}

impl View for RemoteMessage {
    type V = RemoteMessageModel;

    open spec fn view(&self) -> RemoteMessageModel {
        RemoteMessageModel {
            id: self.id,
            content: self.content@,
            author_id: self.author_id,
            author_name: self.author_name@,
            author_discriminator: self.author_discriminator,
            author_avatar: self.author_avatar.deep_view(),
            timestamp_secs: self.timestamp_secs,
            attachments: self.attachments.deep_view(),
        }
    }
}

impl DeepView for RemoteMessage {
    type V = RemoteMessageModel;

    open spec fn deep_view(&self) -> RemoteMessageModel {
        self.view()
    }
}

/// The displayed author name: the base name, with `#` and the zero-padded
/// legacy discriminator appended only when the discriminator is nonzero.
pub open spec fn display_author_name(name: Seq<char>, discriminator: nat) -> Seq<char> {
    if discriminator > 0 {
        name + "#"@ + pad4(discriminator)
    } else {
        name
    }
}

/// The avatar URL derived from the author identifier and avatar hash.
pub open spec fn avatar_url(author_id: u64, hash: Seq<char>) -> Seq<char> {
    "https://cdn.discordapp.com/avatars/"@ + dec_nat(author_id as nat) + "/"@ + hash + ".png"@
}

/// The message entity a single remote record becomes.
pub open spec fn message_of(m: RemoteMessageModel) -> MessageModel {
    MessageModel {
        id: m.id,
        content: m.content,
        author_name: display_author_name(m.author_name, m.author_discriminator as nat),
        author_id: m.author_id,
        author_avatar_url: match m.author_avatar {
            Some(h) => Some(avatar_url(m.author_id, h)),
            None => None,
        },
        timestamp: dec_int(m.timestamp_secs as int),
        attachments: m.attachments,
    }
}

/// The message collection a remote page becomes: the page arrives newest
/// first and is reversed to oldest first, each record mapped to its entity.
pub open spec fn messages_of(recs: Seq<RemoteMessageModel>) -> Seq<MessageModel> {
    recs.reverse().map_values(|m: RemoteMessageModel| message_of(m))
}

/// Composes the display fields of one remote message record.
pub fn convert_message(m: RemoteMessage) -> (r: MessageInfo)
    ensures
        r@ == message_of(m@),
{
    let RemoteMessage {
        id,
        content,
        author_id,
        author_name,
        author_discriminator,
        author_avatar,
        timestamp_secs,
        attachments,
    } = m;
    let display_name = if author_discriminator > 0 {
        let padded = u16_pad4(author_discriminator);
        author_name.concat("#").concat(padded.as_str())
    } else {
        author_name
    };
    let author_avatar_url = match author_avatar {
        Some(hash) => {
            let id_text = u64_to_dec(author_id);
            let url = "https://cdn.discordapp.com/avatars/".to_owned().concat(
                id_text.as_str(),
            ).concat("/").concat(hash.as_str()).concat(".png");
            Some(url)
        },
        None => None,
    };
    let timestamp = i64_to_dec(timestamp_secs);
    let r = MessageInfo {
        id,
        content,
        author_name: display_name,
        author_id,
        author_avatar_url,
        timestamp,
        attachments,
    };
    proof {
        assert(r@ =~= message_of(m@));
    }
    r
}

/// Reverses a newest-first remote page into the oldest-first message
/// collection, converting each record.
pub fn messages_from_remote(recs: Vec<RemoteMessage>) -> (r: Vec<MessageInfo>)
    ensures
        r.deep_view() == messages_of(recs.deep_view()),
{
    let ghost orig = recs.deep_view();
    let mut rest = recs;
    let mut out: Vec<MessageInfo> = Vec::new();
    while rest.len() > 0
        invariant
            rest.deep_view() =~= orig.take(orig.len() - out.len()),
            out.len() <= orig.len(),
            forall|j: int|
                0 <= j < out.len() ==> out.deep_view()[j] == message_of(
                    orig[orig.len() - 1 - j],
                ),
        decreases rest.len(),
    {
        let ghost prev = rest.deep_view();
        let ghost k = prev.len() as int;
        let m = rest.pop().unwrap();
        proof {
            assert(prev =~= orig.take(k));
            assert(m.deep_view() == prev[k - 1]);
            assert(rest.deep_view() =~= prev.drop_last());
            assert(prev.drop_last() =~= orig.take(k - 1));
        }
        let converted = convert_message(m);
        let ghost out_prev = out.deep_view();
        out.push(converted);
        proof {
            assert(out.deep_view() =~= out_prev.push(converted@));
        }
    }
    proof {
        assert(out.deep_view() =~= messages_of(orig));
    }
    out
}

} // verus!
