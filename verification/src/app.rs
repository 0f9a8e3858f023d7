//! The shared application state and the entities it owns: guilds, channels,
//! messages and attachments, each with a mathematical model used by the
//! contracts, plus the snapshot that the rendering layer reads.

use vstd::prelude::*;
use crate::text::{has_prefix, has_suffix, lower_seq, str_has_prefix, str_has_suffix_lower};

verus! {

/// Which screen the client is currently showing.
#[derive(Clone, Copy, PartialEq, Eq, Structural, Debug)]
pub enum Screen {
    Login,
    Servers,
    Channel,
}

/// A community the user belongs to.
#[derive(Clone, Debug, PartialEq)]
pub struct GuildInfo {
    pub id: u64,
    pub name: String,
}

/// Model of a guild: the identifier and the display name as a character
/// sequence.
#[verifier::ext_equal]
pub ghost struct GuildModel {
    pub id: u64,
    pub name: Seq<char>,
}

impl View for GuildInfo {
    type V = GuildModel;

    open spec fn view(&self) -> GuildModel {
        GuildModel { id: self.id, name: self.name@ }
    }
}

impl DeepView for GuildInfo {
    type V = GuildModel;

    open spec fn deep_view(&self) -> GuildModel {
        self.view()
    }
}

/// A text channel within a guild.
#[derive(Clone, Debug, PartialEq)]
pub struct ChannelInfo {
    pub id: u64,
    pub name: String,
}

/// Model of a channel.
#[verifier::ext_equal]
pub ghost struct ChannelModel {
    pub id: u64,
    pub name: Seq<char>,
}

impl View for ChannelInfo {
    type V = ChannelModel;

    open spec fn view(&self) -> ChannelModel {
        ChannelModel { id: self.id, name: self.name@ }
    }
}

impl DeepView for ChannelInfo {
    type V = ChannelModel;

    open spec fn deep_view(&self) -> ChannelModel {
        self.view()
    }
}

/// A file attached to a message.
#[derive(Clone, Debug, PartialEq)]
pub struct AttachmentInfo {
    pub url: String,
    pub filename: String,
    pub content_type: Option<String>,
    pub width: Option<u64>,
    pub height: Option<u64>,
}

/// Model of an attachment.
#[verifier::ext_equal]
pub ghost struct AttachmentModel {
    pub url: Seq<char>,
    pub filename: Seq<char>,
    pub content_type: Option<Seq<char>>,
    pub width: Option<u64>,
    pub height: Option<u64>,
}

impl View for AttachmentInfo {
    type V = AttachmentModel;

    open spec fn view(&self) -> AttachmentModel {
        AttachmentModel {
            url: self.url@,
            filename: self.filename@,
            content_type: self.content_type.deep_view(),
            width: self.width,
            height: self.height,
        }
    }
}

impl DeepView for AttachmentInfo {
    type V = AttachmentModel;

    open spec fn deep_view(&self) -> AttachmentModel {
        self.view()
    }
}

/// The filename ends, ASCII-case-insensitively, in one of the recognized
/// image extensions.
pub open spec fn is_image_filename(name: Seq<char>) -> bool {
    ||| has_suffix(lower_seq(name), ".png"@)
    ||| has_suffix(lower_seq(name), ".jpg"@)
    ||| has_suffix(lower_seq(name), ".jpeg"@)
    ||| has_suffix(lower_seq(name), ".gif"@)
    ||| has_suffix(lower_seq(name), ".webp"@)
}

/// An attachment renders as an image: its declared media type begins with
/// `image/`, or, when no media type is declared, its filename carries an
/// image extension.
pub open spec fn is_image_spec(a: AttachmentModel) -> bool {
    match a.content_type {
        Some(ct) => has_prefix(ct, "image/"@),
        None => is_image_filename(a.filename),
    }
}

impl AttachmentInfo {
    /// Classifies the attachment by declared media type, falling back to a
    /// case-insensitive extension check.
    pub fn is_image(&self) -> (r: bool)
        ensures
            r == is_image_spec(self@),
    {
        match &self.content_type {
            Some(ct) => str_has_prefix(ct.as_str(), "image/"),
            None => {
                let f = self.filename.as_str();
                str_has_suffix_lower(f, ".png") || str_has_suffix_lower(f, ".jpg")
                    || str_has_suffix_lower(f, ".jpeg") || str_has_suffix_lower(f, ".gif")
                    || str_has_suffix_lower(f, ".webp")
            },
        }
    }
}

/// A single authored entry in a channel.
#[derive(Clone, Debug, PartialEq)]
pub struct MessageInfo {
    pub id: u64,
    pub content: String,
    pub author_name: String,
    pub author_id: u64,
    pub author_avatar_url: Option<String>,
    pub timestamp: String,
    pub attachments: Vec<AttachmentInfo>,
}

/// Model of a message.
#[verifier::ext_equal]
pub ghost struct MessageModel {
    pub id: u64,
    pub content: Seq<char>,
    pub author_name: Seq<char>,
    pub author_id: u64,
    pub author_avatar_url: Option<Seq<char>>,
    pub timestamp: Seq<char>,
    pub attachments: Seq<AttachmentModel>,
}

impl View for MessageInfo {
    type V = MessageModel;

    open spec fn view(&self) -> MessageModel {
        MessageModel {
            id: self.id,
            content: self.content@,
            author_name: self.author_name@,
            author_id: self.author_id,
            author_avatar_url: self.author_avatar_url.deep_view(),
            timestamp: self.timestamp@,
            attachments: self.attachments.deep_view(),
        }
    }
}

impl DeepView for MessageInfo {
    type V = MessageModel;

    open spec fn deep_view(&self) -> MessageModel {
        self.view()
    }
}

/// The one mutable application-state object. Asynchronous fetch completions
/// and the synchronous rendering loop both act on it; every access happens
/// under the caller's lock, one atomic transition at a time.
///
/// `client_ready` records whether an authenticated remote client is held by
/// the surrounding application. The generation counters tag in-flight
/// fetches so that a completion whose generation is no longer current is
/// discarded instead of overwriting newer data.
pub struct AppState {
    pub current_view: Screen,
    pub token: Option<String>,
    pub client_ready: bool,
    pub guilds: Vec<GuildInfo>,
    pub selected_guild: Option<u64>,
    pub channels: Vec<ChannelInfo>,
    pub selected_channel: Option<u64>,
    pub messages: Vec<MessageInfo>,
    pub loading: bool,
    pub error: Option<String>,
    pub guilds_generation: u64,
    pub channels_generation: u64,
    pub messages_generation: u64,
}

/// Model of the application state.
#[verifier::ext_equal]
pub ghost struct AppModel {
    pub current_view: Screen,
    pub token: Option<Seq<char>>,
    pub client_ready: bool,
    pub guilds: Seq<GuildModel>,
    pub selected_guild: Option<u64>,
    pub channels: Seq<ChannelModel>,
    pub selected_channel: Option<u64>,
    pub messages: Seq<MessageModel>,
    pub loading: bool,
    pub error: Option<Seq<char>>,
    pub guilds_generation: nat,
    pub channels_generation: nat,
    pub messages_generation: nat,
}

impl View for AppState {
    type V = AppModel;

    open spec fn view(&self) -> AppModel {
        AppModel {
            current_view: self.current_view,
            token: self.token.deep_view(),
            client_ready: self.client_ready,
            guilds: self.guilds.deep_view(),
            selected_guild: self.selected_guild,
            channels: self.channels.deep_view(),
            selected_channel: self.selected_channel,
            messages: self.messages.deep_view(),
            loading: self.loading,
            error: self.error.deep_view(),
            guilds_generation: self.guilds_generation as nat,
            channels_generation: self.channels_generation as nat,
            messages_generation: self.messages_generation as nat,
        }
    }
}

/// The state a freshly created application starts from: login screen,
/// nothing fetched, nothing selected, no client, no error.
pub open spec fn initial_model() -> AppModel {
    AppModel {
        current_view: Screen::Login,
        token: None,
        client_ready: false,
        guilds: Seq::empty(),
        selected_guild: None,
        channels: Seq::empty(),
        selected_channel: None,
        messages: Seq::empty(),
        loading: false,
        error: None,
        guilds_generation: 0,
        channels_generation: 0,
        messages_generation: 0,
    }
}

impl AppState {
    /// Creates the empty initial state.
    pub fn new() -> (r: AppState)
        ensures
            r@ == initial_model(),
    {
        let r = AppState {
            current_view: Screen::Login,
            token: None,
            client_ready: false,
            guilds: Vec::new(),
            selected_guild: None,
            channels: Vec::new(),
            selected_channel: None,
            messages: Vec::new(),
            loading: false,
            error: None,
            guilds_generation: 0,
            channels_generation: 0,
            messages_generation: 0,
        };
        proof {
            assert(r@ =~= initial_model());
        }
        r
    }
}

/// The deep copy of the render-relevant fields of the state, safe for the
/// rendering thread to read after the lock is released.
pub struct Snapshot {
    pub current_view: Screen,
    pub guilds: Vec<GuildInfo>,
    pub channels: Vec<ChannelInfo>,
    pub messages: Vec<MessageInfo>,
    pub selected_guild: Option<u64>,
    pub selected_channel: Option<u64>,
    pub loading: bool,
    pub error: Option<String>,
}

/// Model of a snapshot.
#[verifier::ext_equal]
pub ghost struct SnapshotModel {
    pub current_view: Screen,
    pub guilds: Seq<GuildModel>,
    pub channels: Seq<ChannelModel>,
    pub messages: Seq<MessageModel>,
    pub selected_guild: Option<u64>,
    pub selected_channel: Option<u64>,
    pub loading: bool,
    pub error: Option<Seq<char>>,
}

impl View for Snapshot {
    type V = SnapshotModel;

    open spec fn view(&self) -> SnapshotModel {
        SnapshotModel {
            current_view: self.current_view,
            guilds: self.guilds.deep_view(),
            channels: self.channels.deep_view(),
            messages: self.messages.deep_view(),
            selected_guild: self.selected_guild,
            selected_channel: self.selected_channel,
            loading: self.loading,
            error: self.error.deep_view(),
        }
    }
}

/// What a snapshot of a given state holds: exactly the render-relevant
/// fields, value for value.
pub open spec fn snapshot_of(s: AppModel) -> SnapshotModel {
    SnapshotModel {
        current_view: s.current_view,
        guilds: s.guilds,
        channels: s.channels,
        messages: s.messages,
        selected_guild: s.selected_guild,
        selected_channel: s.selected_channel,
        loading: s.loading,
        error: s.error,
    }
}

fn clone_opt_string(o: &Option<String>) -> (r: Option<String>)
    ensures
        r.deep_view() == o.deep_view(),
{
    match o {
        Some(s) => Some(s.clone()),
        None => None,
    }
}

fn clone_guilds(v: &Vec<GuildInfo>) -> (r: Vec<GuildInfo>)
    ensures
        r.deep_view() == v.deep_view(),
{
    let mut out: Vec<GuildInfo> = Vec::new();
    let mut i: usize = 0;
    while i < v.len()
        invariant
            i <= v@.len(),
            out@.len() == i,
            forall|j: int| 0 <= j < i ==> out@[j].deep_view() == v@[j].deep_view(),
        decreases v.len() - i,
    {
        let g = &v[i];
        out.push(GuildInfo { id: g.id, name: g.name.clone() });
        i += 1;
    }
    proof {
        assert(out.deep_view() =~= v.deep_view());
    }
    out
}

fn clone_channels(v: &Vec<ChannelInfo>) -> (r: Vec<ChannelInfo>)
    ensures
        r.deep_view() == v.deep_view(),
{
    let mut out: Vec<ChannelInfo> = Vec::new();
    let mut i: usize = 0;
    while i < v.len()
        invariant
            i <= v@.len(),
            out@.len() == i,
            forall|j: int| 0 <= j < i ==> out@[j].deep_view() == v@[j].deep_view(),
        decreases v.len() - i,
    {
        let c = &v[i];
        out.push(ChannelInfo { id: c.id, name: c.name.clone() });
        i += 1;
    }
    proof {
        assert(out.deep_view() =~= v.deep_view());
    }
    out
}

fn clone_attachments(v: &Vec<AttachmentInfo>) -> (r: Vec<AttachmentInfo>)
    ensures
        r.deep_view() == v.deep_view(),
{
    let mut out: Vec<AttachmentInfo> = Vec::new();
    let mut i: usize = 0;
    while i < v.len()
        invariant
            i <= v@.len(),
            out@.len() == i,
            forall|j: int| 0 <= j < i ==> out@[j].deep_view() == v@[j].deep_view(),
        decreases v.len() - i,
    {
        let a = &v[i];
        let copy = AttachmentInfo {
            url: a.url.clone(),
            filename: a.filename.clone(),
            content_type: clone_opt_string(&a.content_type),
            width: a.width,
            height: a.height,
        };
        proof {
            assert(copy@ =~= a@);
        }
        out.push(copy);
        i += 1;
    }
    proof {
        assert(out.deep_view() =~= v.deep_view());
    }
    out
}

fn clone_messages(v: &Vec<MessageInfo>) -> (r: Vec<MessageInfo>)
    ensures
        r.deep_view() == v.deep_view(),
{
    let mut out: Vec<MessageInfo> = Vec::new();
    let mut i: usize = 0;
    while i < v.len()
        invariant
            i <= v@.len(),
            out@.len() == i,
            forall|j: int| 0 <= j < i ==> out@[j].deep_view() == v@[j].deep_view(),
        decreases v.len() - i,
    {
        let m = &v[i];
        let copy = MessageInfo {
            id: m.id,
            content: m.content.clone(),
            author_name: m.author_name.clone(),
            author_id: m.author_id,
            author_avatar_url: clone_opt_string(&m.author_avatar_url),
            timestamp: m.timestamp.clone(),
            attachments: clone_attachments(&m.attachments),
        };
        proof {
            assert(copy@ =~= m@);
        }
        out.push(copy);
        i += 1;
    }
    proof {
        assert(out.deep_view() =~= v.deep_view());
    }
    out
}

/// The display name of the channel the cursor selects, if it is present in
/// the loaded channel collection: the name of the first channel carrying
/// the selected identifier.
pub open spec fn channel_name_in(cs: Seq<ChannelModel>, id: u64) -> Option<Seq<char>>
    decreases cs.len(),
{
    if cs.len() == 0 {
        None
    } else if cs[0].id == id {
        Some(cs[0].name)
    } else {
        channel_name_in(cs.skip(1), id)
    }
}

/// See `channel_name_in`; `None` also when no channel is selected.
pub open spec fn selected_channel_name_spec(s: AppModel) -> Option<Seq<char>> {
    match s.selected_channel {
        Some(id) => channel_name_in(s.channels, id),
        None => None,
    }
}

impl AppState {
    /// Takes the deep copy the rendering layer works from; the state is
    /// left untouched.
    pub fn snapshot(&self) -> (r: Snapshot)
        ensures
            r@ == snapshot_of(self@),
    {
        let r = Snapshot {
            current_view: self.current_view,
            guilds: clone_guilds(&self.guilds),
            channels: clone_channels(&self.channels),
            messages: clone_messages(&self.messages),
            selected_guild: self.selected_guild,
            selected_channel: self.selected_channel,
            loading: self.loading,
            error: clone_opt_string(&self.error),
        };
        proof {
            assert(r@ =~= snapshot_of(self@));
        }
        r
    }

    /// Whether a guild is currently selected.
    pub fn has_selected_guild(&self) -> (r: bool)
        ensures
            r == (self@.selected_guild is Some),
    {
        self.selected_guild.is_some()
    }

    /// The display name of the currently selected channel, when it belongs
    /// to the loaded channel collection.
    pub fn selected_channel_name(&self) -> (r: Option<String>)
        ensures
            r.deep_view() == selected_channel_name_spec(self@),
    {
        let id = match self.selected_channel {
            Some(id) => id,
            None => {
                return None;
            },
        };
        proof {
            assert(self@.channels.skip(0) =~= self@.channels);
        }
        let mut i: usize = 0;
        while i < self.channels.len()
            invariant
                i <= self@.channels.len(),
                self@.selected_channel == Some(id),
                channel_name_in(self@.channels.skip(i as int), id) == channel_name_in(
                    self@.channels,
                    id,
                ),
                forall|j: int| 0 <= j < i ==> self@.channels[j].id != id,
            decreases self.channels.len() - i,
        {
            proof {
                assert(self@.channels.skip(i as int)[0] == self@.channels[i as int]);
                assert(self@.channels.skip(i as int).skip(1) =~= self@.channels.skip(i as int + 1));
            }
            let c = &self.channels[i];
            if c.id == id {
                return Some(c.name.clone());
            }
            i += 1;
        }
        proof {
            assert(self@.channels.skip(self@.channels.len() as int) =~= Seq::<
                ChannelModel,
            >::empty());
        }
        None
    }
}

} // verus!
