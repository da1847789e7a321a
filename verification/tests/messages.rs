use discord_ipc_bridge::discord::events::{
    Event, EventData, EventSubscribe, SubscriptionCommand, User, VoiceState,
};
use discord_ipc_bridge::discord::payload::{Commands, Payload};

fn is_nonce(s: &str) -> bool {
    let b = s.as_bytes();
    b.len() == 36
        && b.iter().enumerate().all(|(i, c)| {
            if i == 8 || i == 13 || i == 18 || i == 23 {
                *c == b'-'
            } else {
                c.is_ascii_digit() || (b'a'..=b'f').contains(c)
            }
        })
        && b[14] == b'4'
        && matches!(b[19], b'8' | b'9' | b'a' | b'b')
}

fn voice_state() -> VoiceState {
    VoiceState { mute: false, deaf: false, self_mute: true, self_deaf: false, suppress: false }
}

fn user() -> User {
    User { id: "42".to_string(), avatar: "abc".to_string() }
}

#[test]
fn event_kind_of_each_event() {
    let cases = vec![
        (EventData::Error { code: 4000, message: "bad".to_string() }, Event::Error),
        (EventData::VoiceSettingsUpdate { mute: true, deaf: false }, Event::VoiceSettingsUpdate),
        (EventData::VoiceChannelSelect { channel_id: None, guild_id: None }, Event::VoiceChannelSelect),
        (EventData::SpeakingStart { user_id: "1".to_string() }, Event::SpeakingStart),
        (EventData::SpeakingStop { user_id: "1".to_string() }, Event::SpeakingStop),
        (EventData::VoiceStateCreate { voice_state: voice_state(), user: user() }, Event::VoiceStateCreate),
        (EventData::VoiceStateUpdate { voice_state: voice_state(), user: user() }, Event::VoiceStateUpdate),
        (EventData::VoiceStateDelete { voice_state: voice_state(), user: user() }, Event::VoiceStateDelete),
    ];
    for (data, kind) in cases {
        assert_eq!(data.event(), kind);
    }
}

#[test]
fn event_subscription_requests() {
    let s = Event::VoiceSettingsUpdate.subscribe();
    assert_eq!(s.cmd, SubscriptionCommand::Subscribe);
    assert_eq!(s.evt, Event::VoiceSettingsUpdate);
    assert!(is_nonce(&s.nonce));
    let u = Event::VoiceChannelSelect.unsubscribe();
    assert_eq!(u.cmd, SubscriptionCommand::Unsubscribe);
    assert_eq!(u.evt, Event::VoiceChannelSelect);
    assert!(is_nonce(&u.nonce));
    assert_ne!(s.nonce, u.nonce);
}

#[test]
fn channel_subscription_requests() {
    let channel = "123".to_string();
    let s = EventSubscribe::SpeakingStart.subscribe(&channel);
    assert_eq!(s.cmd, SubscriptionCommand::Subscribe);
    assert_eq!(s.channel_id, "123");
    assert_eq!(s.evt, EventSubscribe::SpeakingStart);
    assert!(is_nonce(&s.nonce));
    let u = EventSubscribe::VoiceStateDelete.unsubscribe(&channel);
    assert_eq!(u.cmd, SubscriptionCommand::Unsubscribe);
    assert_eq!(u.channel_id, "123");
    assert_eq!(u.evt, EventSubscribe::VoiceStateDelete);
}

#[test]
fn payload_carries_command_and_fresh_nonce() {
    let p = Payload::new(Commands::Authenticate { access_token: "tok".to_string() });
    assert!(matches!(&p.cmd, Commands::Authenticate { access_token } if access_token == "tok"));
    assert!(is_nonce(&p.nonce));
    let q = Commands::GetSelectedVoiceChannel.as_payload();
    assert!(matches!(q.cmd, Commands::GetSelectedVoiceChannel));
    assert!(is_nonce(&q.nonce));
    assert_ne!(p.nonce, q.nonce);
}
