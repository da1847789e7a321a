use discord_ipc_bridge::discord::client::{ChangeStep, ChannelChange};
use discord_ipc_bridge::discord::frames::WriteError;
use discord_ipc_bridge::discord::client::{
    handle_channel_change, on_command, on_discord_message, startup_messages, Action, Incoming,
    JsonKind, Outgoing, OP_FRAME, OP_HANDSHAKE,
};
use discord_ipc_bridge::discord::client::handshake;
use discord_ipc_bridge::discord::events::{Event, EventData, EventSubscribe, SubscriptionCommand};
use discord_ipc_bridge::discord::payload::Commands;
use discord_ipc_bridge::discord::response::{Commands as ResponseCommands, Response};
use discord_ipc_bridge::ipc::Command;
use discord_ipc_bridge::State;

const CHANNEL_EVENTS: [EventSubscribe; 5] = [
    EventSubscribe::SpeakingStart,
    EventSubscribe::SpeakingStop,
    EventSubscribe::VoiceStateCreate,
    EventSubscribe::VoiceStateUpdate,
    EventSubscribe::VoiceStateDelete,
];

fn in_channel(c: &str, g: &str) -> State {
    let mut s = State::new();
    s.set_voice_channel(Some(c.to_string()), Some(g.to_string()));
    s
}

fn event_msg(event: EventData) -> Incoming {
    Incoming { nonce: Some(JsonKind::Null), response: None, event: Some(event) }
}

#[test]
fn channel_change_leaves_old_and_joins_new() {
    let s = in_channel("old", "g0");
    let cc = handle_channel_change(&s, Some("new".to_string()), Some("g1".to_string()));
    assert_eq!(cc.unsubscribe.len(), 5);
    assert_eq!(cc.subscribe.len(), 5);
    for i in 0..5 {
        assert_eq!(cc.unsubscribe[i].cmd, SubscriptionCommand::Unsubscribe);
        assert_eq!(cc.unsubscribe[i].channel_id, "old");
        assert_eq!(cc.unsubscribe[i].evt, CHANNEL_EVENTS[i]);
        assert_eq!(cc.subscribe[i].cmd, SubscriptionCommand::Subscribe);
        assert_eq!(cc.subscribe[i].channel_id, "new");
        assert_eq!(cc.subscribe[i].evt, CHANNEL_EVENTS[i]);
    }
    assert_eq!(cc.channel_id.as_deref(), Some("new"));
    assert_eq!(cc.guild_id.as_deref(), Some("g1"));
}

#[test]
fn channel_change_from_nowhere_only_subscribes() {
    let s = State::new();
    let cc = handle_channel_change(&s, Some("new".to_string()), Some("g1".to_string()));
    assert!(cc.unsubscribe.is_empty());
    assert_eq!(cc.subscribe.len(), 5);
}

#[test]
fn leaving_a_channel_only_unsubscribes() {
    let s = in_channel("old", "g0");
    let cc = handle_channel_change(&s, None, None);
    assert_eq!(cc.unsubscribe.len(), 5);
    assert!(cc.subscribe.is_empty());
    assert!(cc.channel_id.is_none() && cc.guild_id.is_none());
}

#[test]
fn channel_without_guild_is_not_joined() {
    let s = State::new();
    let cc = handle_channel_change(&s, Some("c".to_string()), None);
    assert!(cc.unsubscribe.is_empty());
    assert!(cc.subscribe.is_empty());
    assert_eq!(cc.channel_id.as_deref(), Some("c"));
}

#[test]
fn consecutive_channel_changes_balance() {
    let mut s = State::new();
    let first = handle_channel_change(&s, Some("a".to_string()), Some("g".to_string()));
    s.set_voice_channel(first.channel_id.clone(), first.guild_id.clone());
    let second = handle_channel_change(&s, Some("b".to_string()), Some("g".to_string()));
    assert_eq!(second.unsubscribe.len(), first.subscribe.len());
    for i in 0..first.subscribe.len() {
        assert_eq!(second.unsubscribe[i].channel_id, first.subscribe[i].channel_id);
        assert_eq!(second.unsubscribe[i].evt, first.subscribe[i].evt);
    }
}

#[test]
fn voice_settings_event_updates_state_then_broadcasts() {
    let s = State::new();
    let actions = on_discord_message(&s, event_msg(EventData::VoiceSettingsUpdate { mute: true, deaf: true }));
    assert_eq!(actions.len(), 2);
    assert!(matches!(actions[0], Action::SetAudioStatus { mute: true, deaf: true }));
    assert!(matches!(actions[1], Action::Broadcast(EventData::VoiceSettingsUpdate { mute: true, deaf: true })));
}

#[test]
fn channel_select_event_changes_channel_then_broadcasts() {
    let s = in_channel("old", "g");
    let msg = event_msg(EventData::VoiceChannelSelect {
        channel_id: Some("new".to_string()),
        guild_id: Some("g".to_string()),
    });
    let actions = on_discord_message(&s, msg);
    assert_eq!(actions.len(), 2);
    match &actions[0] {
        Action::ChangeChannel(cc) => {
            assert_eq!(cc.unsubscribe[0].channel_id, "old");
            assert_eq!(cc.subscribe[0].channel_id, "new");
        }
        _ => panic!("expected a channel change"),
    }
    assert!(matches!(&actions[1], Action::Broadcast(EventData::VoiceChannelSelect { .. })));
}

#[test]
fn other_events_are_only_broadcast() {
    let s = State::new();
    let actions = on_discord_message(&s, event_msg(EventData::SpeakingStart { user_id: "7".to_string() }));
    assert_eq!(actions.len(), 1);
    assert!(matches!(&actions[0], Action::Broadcast(EventData::SpeakingStart { user_id }) if user_id == "7"));
    let actions = on_discord_message(&s, event_msg(EventData::Error { code: 1, message: "x".to_string() }));
    assert!(matches!(&actions[..], [Action::Broadcast(EventData::Error { code: 1, .. })]));
}

#[test]
fn unparsed_event_is_dropped() {
    let s = State::new();
    let msg = Incoming { nonce: None, response: None, event: None };
    assert!(on_discord_message(&s, msg).is_empty());
}

#[test]
fn selected_channel_response_changes_channel() {
    let s = State::new();
    let msg = Incoming {
        nonce: Some(JsonKind::String),
        response: Some(Response {
            cmd: ResponseCommands::GetSelectedVoiceChannel {
                channel_id: Some("c".to_string()),
                guild_id: Some("g".to_string()),
            },
        }),
        event: Some(EventData::SpeakingStop { user_id: "1".to_string() }),
    };
    let actions = on_discord_message(&s, msg);
    assert_eq!(actions.len(), 1);
    assert!(matches!(&actions[0], Action::ChangeChannel(cc) if cc.subscribe.len() == 5));
}

#[test]
fn other_responses_are_not_broadcast() {
    let s = State::new();
    let msg = Incoming {
        nonce: Some(JsonKind::String),
        response: Some(Response { cmd: ResponseCommands::Subscribe { event: "VOICE_SETTINGS_UPDATE".to_string() } }),
        event: Some(EventData::SpeakingStop { user_id: "1".to_string() }),
    };
    assert!(on_discord_message(&s, msg).is_empty());
    let msg = Incoming { nonce: Some(JsonKind::String), response: None, event: None };
    assert!(on_discord_message(&s, msg).is_empty());
}

#[test]
fn non_string_nonce_means_event() {
    let s = State::new();
    let msg = Incoming {
        nonce: Some(JsonKind::Number),
        response: Some(Response { cmd: ResponseCommands::Authorize { code: "x".to_string() } }),
        event: Some(EventData::SpeakingStop { user_id: "1".to_string() }),
    };
    let actions = on_discord_message(&s, msg);
    assert!(matches!(&actions[..], [Action::Broadcast(EventData::SpeakingStop { .. })]));
}

#[test]
fn toggle_commands_flip_one_setting() {
    let mut s = State::new();
    s.set_audio_status(true, false);
    let p = on_command(&s, Command::ToggleMute);
    assert!(matches!(p.cmd, Commands::SetVoiceSettings { mute: Some(false), deaf: None }));
    let p = on_command(&s, Command::ToggleDeafen);
    assert!(matches!(p.cmd, Commands::SetVoiceSettings { mute: None, deaf: Some(true) }));
}

#[test]
fn startup_subscribes_then_asks_for_channel() {
    let msgs = startup_messages();
    assert_eq!(msgs.len(), 3);
    assert!(matches!(&msgs[0], Outgoing::Subscription(s) if s.evt == Event::VoiceSettingsUpdate && s.cmd == SubscriptionCommand::Subscribe));
    assert!(matches!(&msgs[1], Outgoing::Subscription(s) if s.evt == Event::VoiceChannelSelect));
    assert!(matches!(&msgs[2], Outgoing::Command(p) if matches!(p.cmd, Commands::GetSelectedVoiceChannel)));
    assert!(msgs.iter().all(|m| m.opcode() == OP_FRAME));
}

#[test]
fn handshake_uses_version_one_and_opcode_zero() {
    let h = handshake("1234");
    assert_eq!(h.v, 1);
    assert_eq!(h.client_id, "1234");
    assert_eq!(Outgoing::Handshake(h).opcode(), OP_HANDSHAKE);
}

fn run_change(cc: ChannelChange, fail_at: Option<usize>) -> (Vec<String>, bool) {
    let mut run = cc.start();
    let mut log = Vec::new();
    let mut last = None;
    let mut sent = 0;
    loop {
        assert!(!run.is_finished());
        match run.next(last) {
            ChangeStep::Send(r) => {
                log.push(format!("{:?} {} {:?}", r.cmd, r.channel_id, r.evt));
                last = Some(if Some(sent) == fail_at { Err(WriteError::Io("x".to_string())) } else { Ok(()) });
                sent += 1;
            }
            ChangeStep::Record { channel_id, guild_id } => {
                log.push(format!("record {:?} {:?}", channel_id, guild_id));
                last = None;
            }
            ChangeStep::Finish(r) => return (log, r.is_ok()),
        }
    }
}

#[test]
fn channel_change_runs_in_order() {
    let s = in_channel("old", "g0");
    let cc = handle_channel_change(&s, Some("new".to_string()), Some("g1".to_string()));
    let (log, ok) = run_change(cc, None);
    assert!(ok);
    assert_eq!(log.len(), 11);
    assert_eq!(log[0], "Unsubscribe old SpeakingStart");
    assert_eq!(log[4], "Unsubscribe old VoiceStateDelete");
    assert_eq!(log[5], "record Some(\"new\") Some(\"g1\")");
    assert_eq!(log[6], "Subscribe new SpeakingStart");
    assert_eq!(log[10], "Subscribe new VoiceStateDelete");
}

#[test]
fn channel_change_stops_at_failed_write() {
    let s = in_channel("old", "g0");
    let cc = handle_channel_change(&s, Some("new".to_string()), Some("g1".to_string()));
    let (log, ok) = run_change(cc, Some(1));
    assert!(!ok);
    assert_eq!(log.len(), 2);
    let cc = handle_channel_change(&s, Some("new".to_string()), Some("g1".to_string()));
    let (log, ok) = run_change(cc, Some(6));
    assert!(!ok);
    assert_eq!(log.len(), 8);
    assert!(log[5].starts_with("record"));
}

#[test]
fn startup_nonces_are_uuids() {
    let msgs = startup_messages();
    for m in &msgs {
        let n = match m {
            Outgoing::Subscription(s) => &s.nonce,
            Outgoing::Command(p) => &p.nonce,
            _ => panic!("unexpected startup message"),
        };
        assert_eq!(n.len(), 36);
        assert_eq!(&n[14..15], "4");
    }
}
