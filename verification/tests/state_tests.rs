use oxidecord::app::{AppState, AttachmentInfo, GuildInfo, Screen};
use oxidecord::ingest::{ChannelKind, RemoteChannel, RemoteMessage};

fn remote_channel(id: u64, name: Option<&str>, kind: ChannelKind) -> RemoteChannel {
    RemoteChannel { id, name: name.map(|s| s.to_string()), kind }
}

fn remote_message(id: u64, content: &str) -> RemoteMessage {
    RemoteMessage {
        id,
        content: content.to_string(),
        author_id: 7,
        author_name: "alice".to_string(),
        author_discriminator: 0,
        author_avatar: None,
        timestamp_secs: 1_700_000_000,
        attachments: Vec::new(),
    }
}

fn authenticated_state() -> AppState {
    let mut state = AppState::new();
    let generation = state.begin_login("token-a".to_string());
    state.set_client_ready();
    let guilds = vec![
        GuildInfo { id: 1, name: "guild one".to_string() },
        GuildInfo { id: 2, name: "guild two".to_string() },
    ];
    state.apply_guilds(generation, Ok(guilds));
    state
}

#[test]
fn new_state_is_empty() {
    let state = AppState::new();
    assert_eq!(state.current_view, Screen::Login);
    assert!(state.token.is_none());
    assert!(!state.client_ready);
    assert!(state.guilds.is_empty());
    assert!(state.channels.is_empty());
    assert!(state.messages.is_empty());
    assert!(state.selected_guild.is_none());
    assert!(state.selected_channel.is_none());
    assert!(!state.loading);
    assert!(state.error.is_none());
}

#[test]
fn authenticate_installs_guilds() {
    let state = authenticated_state();
    assert_eq!(state.current_view, Screen::Channel);
    assert_eq!(state.token.as_deref(), Some("token-a"));
    assert!(state.client_ready);
    assert_eq!(state.guilds.len(), 2);
    assert_eq!(state.guilds[0].name, "guild one");
    assert_eq!(state.guilds[1].id, 2);
    assert!(!state.loading);
    assert!(state.error.is_none());
}

#[test]
fn login_sets_loading_and_clears_error() {
    let mut state = AppState::new();
    state.error = Some("stale error".to_string());
    let _generation = state.begin_login("tok".to_string());
    assert!(state.loading);
    assert!(state.error.is_none());
    assert_eq!(state.token.as_deref(), Some("tok"));
}

#[test]
fn reauthenticate_is_idempotent() {
    // Two authenticate operations with the same token against the same
    // backend listing: the second run leaves the same guild collection and
    // fully replaces the loading/error state.
    let mut state = AppState::new();
    let guilds = || {
        vec![
            GuildInfo { id: 10, name: "alpha".to_string() },
            GuildInfo { id: 20, name: "beta".to_string() },
        ]
    };
    let g1 = state.begin_login("tok".to_string());
    state.set_client_ready();
    state.apply_guilds(g1, Ok(guilds()));
    let first = state.snapshot();

    let g2 = state.begin_login("tok".to_string());
    state.set_client_ready();
    state.apply_guilds(g2, Ok(guilds()));
    let second = state.snapshot();

    assert_eq!(first.guilds, second.guilds);
    assert_eq!(first.current_view, second.current_view);
    assert!(!second.loading);
    assert!(second.error.is_none());
}

#[test]
fn login_client_failure_is_recorded() {
    let mut state = AppState::new();
    let generation = state.begin_login("bad".to_string());
    state.apply_guilds(generation, Err("Failed to create HTTP client".to_string()));
    assert!(!state.loading);
    assert_eq!(state.error.as_deref(), Some("Failed to create HTTP client"));
    assert!(state.guilds.is_empty());
    assert_eq!(state.current_view, Screen::Login);
}

#[test]
fn channel_listing_requires_client() {
    let mut state = AppState::new();
    let generation = state.begin_fetch_channels(5);
    assert!(generation.is_none());
    assert_eq!(state.selected_guild, Some(5));
    assert!(!state.loading);
    assert_eq!(state.error.as_deref(), Some("HTTP client not available"));
}

#[test]
fn message_listing_requires_client() {
    let mut state = AppState::new();
    let generation = state.begin_fetch_messages(9);
    assert!(generation.is_none());
    assert_eq!(state.selected_channel, Some(9));
    assert!(!state.loading);
    assert_eq!(state.error.as_deref(), Some("HTTP client not available"));
}

#[test]
fn failed_channel_fetch_preserves_channels() {
    // A loaded channel list, then a failed refresh: the list is unchanged,
    // the error is a non-empty message, and loading is off.
    let mut state = authenticated_state();
    let generation = state.begin_fetch_channels(1).unwrap();
    state.apply_channels(
        generation,
        Ok(vec![
            remote_channel(100, Some("general"), ChannelKind::GuildText),
            remote_channel(101, Some("dev"), ChannelKind::GuildText),
        ]),
    );
    let loaded = state.snapshot().channels;
    assert_eq!(loaded.len(), 2);

    let generation = state.begin_fetch_channels(2).unwrap();
    state.apply_channels(generation, Err("network unreachable".to_string()));
    assert_eq!(state.channels, loaded);
    assert!(!state.loading);
    let err = state.error.clone().unwrap();
    assert!(!err.is_empty());
    assert_eq!(err, "network unreachable");
}

#[test]
fn stale_channel_completion_is_discarded() {
    // Two channel listings begin back to back; the completion of the
    // first is stale and must change nothing, whatever order the two
    // completions arrive in: the last-requested listing wins.
    let mut state = authenticated_state();
    let generation_a = state.begin_fetch_channels(1).unwrap();
    let generation_b = state.begin_fetch_channels(2).unwrap();

    state.apply_channels(
        generation_a,
        Ok(vec![remote_channel(100, Some("from guild a"), ChannelKind::GuildText)]),
    );
    assert!(state.channels.is_empty());
    assert!(state.loading);

    state.apply_channels(
        generation_b,
        Ok(vec![remote_channel(200, Some("from guild b"), ChannelKind::GuildText)]),
    );
    assert_eq!(state.channels.len(), 1);
    assert_eq!(state.channels[0].name, "from guild b");
    assert!(!state.loading);
}

#[test]
fn stale_channel_completion_is_discarded_after_current() {
    // Same two listings, completions in the other order: the stale result
    // arriving last must not overwrite the winner.
    let mut state = authenticated_state();
    let generation_a = state.begin_fetch_channels(1).unwrap();
    let generation_b = state.begin_fetch_channels(2).unwrap();

    state.apply_channels(
        generation_b,
        Ok(vec![remote_channel(200, Some("from guild b"), ChannelKind::GuildText)]),
    );
    state.apply_channels(
        generation_a,
        Ok(vec![remote_channel(100, Some("from guild a"), ChannelKind::GuildText)]),
    );
    assert_eq!(state.channels.len(), 1);
    assert_eq!(state.channels[0].name, "from guild b");
    assert_eq!(state.selected_guild, Some(2));
    assert!(!state.loading);
}

#[test]
fn begin_message_listing_clears_messages_eagerly() {
    let mut state = authenticated_state();
    let generation = state.begin_fetch_messages(50).unwrap();
    state.apply_messages(generation, Ok(vec![remote_message(1, "hello")]));
    assert_eq!(state.messages.len(), 1);

    let _generation = state.begin_fetch_messages(51).unwrap();
    assert!(state.messages.is_empty());
    assert_eq!(state.selected_channel, Some(51));
    assert!(state.loading);
    assert!(state.error.is_none());
}

#[test]
fn stale_message_completion_is_discarded() {
    let mut state = authenticated_state();
    let generation_a = state.begin_fetch_messages(50).unwrap();
    let generation_b = state.begin_fetch_messages(51).unwrap();
    state.apply_messages(generation_a, Ok(vec![remote_message(1, "old channel")]));
    assert!(state.messages.is_empty());
    state.apply_messages(generation_b, Ok(vec![remote_message(2, "new channel")]));
    assert_eq!(state.messages.len(), 1);
    assert_eq!(state.messages[0].content, "new channel");
}

#[test]
fn snapshot_is_a_deep_copy() {
    let mut state = authenticated_state();
    let snap = state.snapshot();
    let generation = state.begin_fetch_channels(1).unwrap();
    state.apply_channels(
        generation,
        Ok(vec![remote_channel(100, Some("general"), ChannelKind::GuildText)]),
    );
    // The snapshot taken before the fetch still shows the old state.
    assert!(snap.channels.is_empty());
    assert!(snap.error.is_none());
    assert!(!snap.loading);
    assert_eq!(snap.guilds.len(), 2);
    assert_eq!(state.channels.len(), 1);
}

#[test]
fn selected_channel_name_looks_up_current_selection() {
    let mut state = authenticated_state();
    let generation = state.begin_fetch_channels(1).unwrap();
    state.apply_channels(
        generation,
        Ok(vec![
            remote_channel(100, Some("general"), ChannelKind::GuildText),
            remote_channel(101, Some("dev"), ChannelKind::GuildText),
        ]),
    );
    assert_eq!(state.selected_channel_name(), None);
    let _generation = state.begin_fetch_messages(101).unwrap();
    assert_eq!(state.selected_channel_name(), Some("dev".to_string()));
    let _generation = state.begin_fetch_messages(999).unwrap();
    assert_eq!(state.selected_channel_name(), None);
}

#[test]
fn has_selected_guild_reports_cursor() {
    let mut state = authenticated_state();
    assert!(!state.has_selected_guild());
    let _generation = state.begin_fetch_channels(1).unwrap();
    assert!(state.has_selected_guild());
}

#[test]
fn message_attachments_survive_ingestion() {
    let mut state = authenticated_state();
    let generation = state.begin_fetch_messages(50).unwrap();
    let mut msg = remote_message(1, "look");
    msg.attachments.push(AttachmentInfo {
        url: "https://example.test/cat.png".to_string(),
        filename: "cat.png".to_string(),
        content_type: Some("image/png".to_string()),
        width: Some(64),
        height: Some(64),
    });
    state.apply_messages(generation, Ok(vec![msg]));
    assert_eq!(state.messages[0].attachments.len(), 1);
    assert!(state.messages[0].attachments[0].is_image());
}
