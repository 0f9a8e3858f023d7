//! The fetch orchestrator's state transitions. Each of the three operations
//! (authenticate, list channels, list messages) performs a synchronous
//! pre-update here, hands the network call to the surrounding application,
//! and applies the completion back through one of the `apply_*` transitions.
//!
//! Every `begin_*` bumps the operation's generation counter and every
//! `apply_*` discards a completion whose generation is no longer current,
//! so of several overlapping fetches the last-requested one wins, whatever
//! order their completions arrive in.

use vstd::prelude::*;
use crate::app::{AppModel, AppState, GuildInfo, GuildModel, Screen};
use crate::ingest::{
    filter_text_channels, messages_from_remote, messages_of, text_channels_of, RemoteChannel,
    RemoteChannelModel, RemoteMessage, RemoteMessageModel,
};

verus! {

/// The error recorded when a listing is requested before authentication
/// produced a client.
pub open spec fn no_client_error() -> Seq<char> {
    "HTTP client not available"@
}

/// Pre-update of the authenticate operation: store the token, raise the
/// loading flag, clear any previous error, and open a new guild-listing
/// generation.
pub open spec fn begin_login_spec(s: AppModel, token: Seq<char>) -> AppModel {
    AppModel {
        token: Some(token),
        loading: true,
        error: None,
        guilds_generation: s.guilds_generation + 1,
        ..s
    }
}

/// The authenticated client has been constructed and stored.
pub open spec fn client_ready_spec(s: AppModel) -> AppModel {
    AppModel { client_ready: true, ..s }
}

/// Completion of the guild listing. A stale generation changes nothing;
/// a current success installs the new guild collection and moves to the
/// channel screen; a current failure records the error. Either current
/// completion ends the loading state.
pub open spec fn apply_guilds_spec(
    s: AppModel,
    generation: nat,
    result: Result<Seq<GuildModel>, Seq<char>>,
) -> AppModel {
    if generation != s.guilds_generation {
        s
    } else {
        match result {
            Ok(guilds) => AppModel {
                guilds,
                current_view: Screen::Channel,
                loading: false,
                error: None,
                ..s
            },
            Err(message) => AppModel { loading: false, error: Some(message), ..s },
        }
    }
}

/// Pre-update of the channel listing: record the selected guild, raise the
/// loading flag, clear the error, and open a new channel-listing
/// generation. Previously loaded channels stay in place until the fetch
/// completes. Without a client the operation fails on the spot.
pub open spec fn begin_fetch_channels_spec(s: AppModel, guild_id: u64) -> AppModel {
    let pre = AppModel {
        selected_guild: Some(guild_id),
        loading: true,
        error: None,
        channels_generation: s.channels_generation + 1,
        ..s
    };
    if s.client_ready {
        pre
    } else {
        AppModel { loading: false, error: Some(no_client_error()), ..pre }
    }
}

/// Completion of the channel listing: a current success installs exactly
/// the text channels of the fetched records, in their original order.
pub open spec fn apply_channels_spec(
    s: AppModel,
    generation: nat,
    result: Result<Seq<RemoteChannelModel>, Seq<char>>,
) -> AppModel {
    if generation != s.channels_generation {
        s
    } else {
        match result {
            Ok(records) => AppModel {
                channels: text_channels_of(records),
                loading: false,
                error: None,
                ..s
            },
            Err(message) => AppModel { loading: false, error: Some(message), ..s },
        }
    }
}

/// Pre-update of the message listing: record the selected channel, clear
/// the message collection eagerly, raise the loading flag, clear the
/// error, and open a new message-listing generation. Without a client the
/// operation fails on the spot.
pub open spec fn begin_fetch_messages_spec(s: AppModel, channel_id: u64) -> AppModel {
    let pre = AppModel {
        selected_channel: Some(channel_id),
        messages: Seq::empty(),
        loading: true,
        error: None,
        messages_generation: s.messages_generation + 1,
        ..s
    };
    if s.client_ready {
        pre
    } else {
        AppModel { loading: false, error: Some(no_client_error()), ..pre }
    }
}

/// Completion of the message listing: a current success installs the
/// fetched page reversed to oldest-first, each record mapped to its
/// message entity.
pub open spec fn apply_messages_spec(
    s: AppModel,
    generation: nat,
    result: Result<Seq<RemoteMessageModel>, Seq<char>>,
) -> AppModel {
    if generation != s.messages_generation {
        s
    } else {
        match result {
            Ok(records) => AppModel {
                messages: messages_of(records),
                loading: false,
                error: None,
                ..s
            },
            Err(message) => AppModel { loading: false, error: Some(message), ..s },
        }
    }
}

/// The model of a guild-listing result: the fetched entities, or the
/// failure message.
pub open spec fn guilds_result_model(
    r: Result<Vec<GuildInfo>, String>,
) -> Result<Seq<GuildModel>, Seq<char>> {
    match r {
        Ok(v) => Ok(v.deep_view()),
        Err(e) => Err(e@),
    }
}

/// The model of a channel-listing result.
pub open spec fn channels_result_model(
    r: Result<Vec<RemoteChannel>, String>,
) -> Result<Seq<RemoteChannelModel>, Seq<char>> {
    match r {
        Ok(v) => Ok(v.deep_view()),
        Err(e) => Err(e@),
    }
}

/// The model of a message-listing result.
pub open spec fn messages_result_model(
    r: Result<Vec<RemoteMessage>, String>,
) -> Result<Seq<RemoteMessageModel>, Seq<char>> {
    match r {
        Ok(v) => Ok(v.deep_view()),
        Err(e) => Err(e@),
    }
}

impl AppState {
    /// Begins the authenticate operation and returns the generation the
    /// guild-listing completion must present.
    pub fn begin_login(&mut self, token: String) -> (generation: u64)
        requires
            old(self)@.guilds_generation < u64::MAX,
        ensures
            final(self)@ == begin_login_spec(old(self)@, token@),
            generation as nat == final(self)@.guilds_generation,
    {
        let ghost t = token@;
        self.token = Some(token);
        self.loading = true;
        self.error = None;
        self.guilds_generation = self.guilds_generation + 1;
        let generation = self.guilds_generation;
        proof {
            assert(self@ =~= begin_login_spec(old(self)@, t));
        }
        generation
    }

    /// Records that the authenticated client has been constructed and is
    /// held by the surrounding application.
    pub fn set_client_ready(&mut self)
        ensures
            final(self)@ == client_ready_spec(old(self)@),
    {
        self.client_ready = true;
        proof {
            assert(self@ =~= client_ready_spec(old(self)@));
        }
    }

    /// Applies a guild-listing completion; a stale generation is discarded.
    pub fn apply_guilds(&mut self, generation: u64, result: Result<Vec<GuildInfo>, String>)
        ensures
            final(self)@ == apply_guilds_spec(
                old(self)@,
                generation as nat,
                guilds_result_model(result),
            ),
    {
        if generation != self.guilds_generation {
            return ;
        }
        match result {
            Ok(guilds) => {
                self.guilds = guilds;
                self.current_view = Screen::Channel;
                self.loading = false;
                self.error = None;
            },
            Err(message) => {
                self.loading = false;
                self.error = Some(message);
            },
        }
        proof {
            assert(self@ =~= apply_guilds_spec(
                old(self)@,
                generation as nat,
                guilds_result_model(result),
            ));
        }
    }

    /// Begins the channel listing for a guild. Returns the generation the
    /// completion must present, or `None` when no client is available, in
    /// which case the failure has already been recorded and nothing should
    /// be spawned.
    pub fn begin_fetch_channels(&mut self, guild_id: u64) -> (generation: Option<u64>)
        requires
            old(self)@.channels_generation < u64::MAX,
        ensures
            final(self)@ == begin_fetch_channels_spec(old(self)@, guild_id),
            generation is Some <==> old(self)@.client_ready,
            generation matches Some(g) ==> g as nat == final(self)@.channels_generation,
    {
        self.selected_guild = Some(guild_id);
        self.loading = true;
        self.error = None;
        self.channels_generation = self.channels_generation + 1;
        let r: Option<u64> = if self.client_ready {
            Some(self.channels_generation)
        } else {
            self.loading = false;
            self.error = Some("HTTP client not available".to_owned());
            None
        };
        proof {
            assert(self@ =~= begin_fetch_channels_spec(old(self)@, guild_id));
        }
        r
    }

    /// Applies a channel-listing completion; a stale generation is
    /// discarded, a failure leaves the loaded channels untouched.
    pub fn apply_channels(&mut self, generation: u64, result: Result<Vec<RemoteChannel>, String>)
        ensures
            final(self)@ == apply_channels_spec(
                old(self)@,
                generation as nat,
                channels_result_model(result),
            ),
    {
        if generation != self.channels_generation {
            return ;
        }
        match result {
            Ok(records) => {
                self.channels = filter_text_channels(records);
                self.loading = false;
                self.error = None;
            },
            Err(message) => {
                self.loading = false;
                self.error = Some(message);
            },
        }
        proof {
            assert(self@ =~= apply_channels_spec(
                old(self)@,
                generation as nat,
                channels_result_model(result),
            ));
        }
    }

    /// Begins the message listing for a channel, clearing the displayed
    /// messages eagerly. Returns the generation the completion must
    /// present, or `None` when no client is available.
    pub fn begin_fetch_messages(&mut self, channel_id: u64) -> (generation: Option<u64>)
        requires
            old(self)@.messages_generation < u64::MAX,
        ensures
            final(self)@ == begin_fetch_messages_spec(old(self)@, channel_id),
            generation is Some <==> old(self)@.client_ready,
            generation matches Some(g) ==> g as nat == final(self)@.messages_generation,
    {
        self.selected_channel = Some(channel_id);
        self.messages = Vec::new();
        self.loading = true;
        self.error = None;
        self.messages_generation = self.messages_generation + 1;
        let r: Option<u64> = if self.client_ready {
            Some(self.messages_generation)
        } else {
            self.loading = false;
            self.error = Some("HTTP client not available".to_owned());
            None
        };
        proof {
            assert(self@ =~= begin_fetch_messages_spec(old(self)@, channel_id));
        }
        r
    }

    /// Applies a message-listing completion; a stale generation is
    /// discarded.
    pub fn apply_messages(&mut self, generation: u64, result: Result<Vec<RemoteMessage>, String>)
        ensures
            final(self)@ == apply_messages_spec(
                old(self)@,
                generation as nat,
                messages_result_model(result),
            ),
    {
        if generation != self.messages_generation {
            return ;
        }
        match result {
            Ok(records) => {
                self.messages = messages_from_remote(records);
                self.loading = false;
                self.error = None;
            },
            Err(message) => {
                self.loading = false;
                self.error = Some(message);
            },
        }
        proof {
            assert(self@ =~= apply_messages_spec(
                old(self)@,
                generation as nat,
                messages_result_model(result),
            ));
        }
    }
}

/// Re-authentication is idempotent: running the authenticate operation a
/// second time with the same token against the same guild listing yields
/// the same guild collection, and its pre-update fully replaces the first
/// run's loading and error state.
pub proof fn lemma_reauthenticate_idempotent(s0: AppModel, token: Seq<char>, guilds: Seq<GuildModel>)
    ensures
        ({
            let b1 = begin_login_spec(s0, token);
            let s1 = apply_guilds_spec(client_ready_spec(b1), b1.guilds_generation, Ok(guilds));
            let b2 = begin_login_spec(s1, token);
            let s2 = apply_guilds_spec(client_ready_spec(b2), b2.guilds_generation, Ok(guilds));
            s2.guilds == s1.guilds && s2.current_view == s1.current_view && s2.token == s1.token
                && s2.loading == s1.loading && s2.error == s1.error && !s2.loading && s2.error
                is None
        }),
{
}

/// A failed fetch preserves all previously loaded data: whatever the
/// generation, the guild, channel and message collections are unchanged,
/// and a current failure only drops the loading flag and records the
/// message.
pub proof fn lemma_failure_preserves_data(s: AppModel, generation: nat, message: Seq<char>)
    ensures
        apply_guilds_spec(s, generation, Err(message)).guilds == s.guilds,
        apply_guilds_spec(s, generation, Err(message)).channels == s.channels,
        apply_guilds_spec(s, generation, Err(message)).messages == s.messages,
        apply_channels_spec(s, generation, Err(message)).guilds == s.guilds,
        apply_channels_spec(s, generation, Err(message)).channels == s.channels,
        apply_channels_spec(s, generation, Err(message)).messages == s.messages,
        apply_messages_spec(s, generation, Err(message)).guilds == s.guilds,
        apply_messages_spec(s, generation, Err(message)).channels == s.channels,
        apply_messages_spec(s, generation, Err(message)).messages == s.messages,
        generation == s.channels_generation ==> apply_channels_spec(
            s,
            generation,
            Err(message),
        ).loading == false && apply_channels_spec(s, generation, Err(message)).error == Some(
            message,
        ),
{
}

/// Of two overlapping channel listings the last-requested one wins: after
/// listings for guilds `a` then `b` have begun, the two completions may
/// arrive in either order with the same outcome, and that outcome is the
/// one the second listing's completion alone produces — the first
/// listing's completion is discarded as stale.
pub proof fn lemma_last_requested_channels_win(
    s0: AppModel,
    a: u64,
    b: u64,
    result_a: Result<Seq<RemoteChannelModel>, Seq<char>>,
    result_b: Result<Seq<RemoteChannelModel>, Seq<char>>,
)
    requires
        s0.client_ready,
    ensures
        ({
            let s1 = begin_fetch_channels_spec(s0, a);
            let generation_a = s1.channels_generation;
            let s2 = begin_fetch_channels_spec(s1, b);
            let generation_b = s2.channels_generation;
            let first_a = apply_channels_spec(
                apply_channels_spec(s2, generation_a, result_a),
                generation_b,
                result_b,
            );
            let first_b = apply_channels_spec(
                apply_channels_spec(s2, generation_b, result_b),
                generation_a,
                result_a,
            );
            first_a == first_b && first_a == apply_channels_spec(s2, generation_b, result_b)
        }),
{
}

} // verus!
