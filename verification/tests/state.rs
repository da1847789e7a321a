use discord_ipc_bridge::State;

#[test]
fn new_state_is_unmuted_and_outside_channels() {
    let s = State::new();
    assert_eq!(s.audio_status(), (false, false));
    assert_eq!(s.voice_channel(), None);
    assert!(s.channel_id.is_none() && s.guild_id.is_none());
}

#[test]
fn set_audio_status_reads_back() {
    let mut s = State::new();
    s.set_audio_status(true, false);
    assert_eq!(s.audio_status(), (true, false));
    s.set_audio_status(false, true);
    assert_eq!(s.audio_status(), (false, true));
    assert_eq!(s.voice_channel(), None);
}

#[test]
fn voice_channel_needs_both_ids() {
    let mut s = State::new();
    s.set_voice_channel(Some("c1".to_string()), None);
    assert_eq!(s.voice_channel(), None);
    assert_eq!(s.channel_id.as_deref(), Some("c1"));
    s.set_voice_channel(None, Some("g1".to_string()));
    assert_eq!(s.voice_channel(), None);
    s.set_voice_channel(Some("c1".to_string()), Some("g1".to_string()));
    assert_eq!(s.voice_channel(), Some(("c1".to_string(), "g1".to_string())));
    assert_eq!(s.audio_status(), (false, false));
}
