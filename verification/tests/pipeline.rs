use dectalk_tts::dectalk::{control_preamble, fresh_wav_path, synthesis_outcome, DECtalkError,
    DECtalkVoice};
use dectalk_tts::orchestrator::{gate_message, Marker};
use dectalk_tts::session::{JoinAction, SessionState};
use dectalk_tts::text::{replace_discord_emojis, replace_links, shape_text};

#[test]
fn links_are_stripped() {
    assert_eq!(replace_links("see https://example.com/x now"), "see  now");
    assert_eq!(replace_links("go http://a.io"), "go ");
    assert_eq!(replace_links("no links here"), "no links here");
}

#[test]
fn link_match_spans_one_following_space() {
    // the second character after the scheme may be any character but a
    // line feed, including a space
    assert_eq!(replace_links("x http://a b"), "x ");
    assert_eq!(replace_links("x http://a\nb"), "x http://a\nb");
}

#[test]
fn bad_url_openers_do_not_match() {
    assert_eq!(replace_links("http://.com"), "http://.com");
    assert_eq!(replace_links("http://?q"), "http://?q");
    assert_eq!(replace_links("https://"), "https://");
}

#[test]
fn emoji_markup_becomes_its_name() {
    assert_eq!(replace_discord_emojis("hi <:smile:123> there"), "hi smile there");
    assert_eq!(replace_discord_emojis("<a:wave:9>"), "wave");
    assert_eq!(replace_discord_emojis("<:a:1><:b:2>"), "ab");
}

#[test]
fn malformed_emoji_markup_is_kept() {
    assert_eq!(replace_discord_emojis("<:bad:>"), "<:bad:>");
    assert_eq!(replace_discord_emojis("<::1>"), "<::1>");
    assert_eq!(replace_discord_emojis("<:a:12x>"), "<:a:12x>");
    assert_eq!(replace_discord_emojis("<b:a:12>"), "<b:a:12>");
}

#[test]
fn shaping_trims_and_rewrites() {
    assert_eq!(shape_text("  hello  "), "hello");
    assert_eq!(shape_text(" <:wave:1> https://x.yz "), "wave");
    assert_eq!(shape_text(""), "");
}

#[test]
fn prefixed_message_proceeds_to_synthesis() {
    let r = gate_message(false, true, "!", "!hi", false, false, 100, true, 1);
    assert_eq!(r.speak.as_deref(), Some("hi"));
    assert!(r.marker.is_none());
}

#[test]
fn empty_after_prefix_stops_silently() {
    let r = gate_message(false, true, "!", "!", false, false, 100, true, 1);
    assert!(r.speak.is_none());
    assert!(r.marker.is_none());
}

#[test]
fn muted_author_draws_rejection_and_no_synthesis() {
    let r = gate_message(false, true, "!", "!hello", true, false, 100, true, 1);
    assert!(r.speak.is_none());
    assert_eq!(r.marker, Some(Marker::Rejected));
}

#[test]
fn bot_and_non_guild_messages_are_ignored() {
    let r = gate_message(true, true, "!", "!hi", false, false, 100, true, 1);
    assert!(r.speak.is_none() && r.marker.is_none());
    let r = gate_message(false, false, "!", "!hi", false, false, 100, true, 1);
    assert!(r.speak.is_none() && r.marker.is_none());
}

#[test]
fn multi_char_prefix_is_stripped_whole() {
    let r = gate_message(false, true, ">>", ">>hey", false, false, 100, true, 2);
    assert_eq!(r.speak.as_deref(), Some("hey"));
    assert!(r.marker.is_none());
}

#[test]
fn non_ascii_text_passes_through_shaping() {
    assert_eq!(replace_discord_emojis("héllo <:x:1>!"), "héllo x!");
    assert_eq!(shape_text("  grüße  "), "grüße");
    let r = gate_message(false, true, "!", "!grüße", false, false, 100, true, 1);
    assert_eq!(r.speak.as_deref(), Some("grüße"));
}

#[test]
fn wrong_prefix_is_ignored() {
    let r = gate_message(false, true, ">>", "!hi", false, false, 100, true, 1);
    assert!(r.speak.is_none() && r.marker.is_none());
}

#[test]
fn long_text_is_truncated_with_warning_unless_privileged() {
    let r = gate_message(false, true, "!", "!abcdefgh", false, false, 3, true, 1);
    assert_eq!(r.speak.as_deref(), Some("abc"));
    assert_eq!(r.marker, Some(Marker::Truncated));

    let r = gate_message(false, true, "!", "!abcdefgh", false, true, 3, true, 1);
    assert_eq!(r.speak.as_deref(), Some("abcdefgh"));
    assert!(r.marker.is_none());
}

#[test]
fn empty_voice_channel_stops_without_speaking() {
    let r = gate_message(false, true, "!", "!hi", false, false, 100, true, 0);
    assert!(r.speak.is_none() && r.marker.is_none());
    let r = gate_message(false, true, "!", "!hi", false, false, 100, false, 1);
    assert!(r.speak.is_none() && r.marker.is_none());
    // the truncation marker is still emitted even when the channel check
    // then stops the pipeline
    let r = gate_message(false, true, "!", "!abcdefgh", false, false, 3, false, 1);
    assert!(r.speak.is_none());
    assert_eq!(r.marker, Some(Marker::Truncated));
}

#[test]
fn first_message_joins_and_deafens_then_switches() {
    let s = SessionState::Absent;
    let (s1, action, deafen) = s.on_qualifying_message(11);
    assert_eq!(s1, SessionState::Connected { channel: 11, deafened: true });
    assert_eq!(action, JoinAction::Join { channel: 11 });
    assert!(deafen);

    let (s2, action, deafen) = s1.on_qualifying_message(22);
    assert_eq!(s2, SessionState::Connected { channel: 22, deafened: true });
    assert_eq!(action, JoinAction::Switch { channel: 22 });
    assert!(!deafen);

    let (s3, action, deafen) = s2.on_qualifying_message(22);
    assert_eq!(s3, s2);
    assert_eq!(action, JoinAction::Stay);
    assert!(!deafen);
}

#[test]
fn undeafened_session_is_deafened_again() {
    let s = SessionState::Connected { channel: 5, deafened: false };
    let (s1, action, deafen) = s.on_qualifying_message(5);
    assert_eq!(s1, SessionState::Connected { channel: 5, deafened: true });
    assert_eq!(action, JoinAction::Stay);
    assert!(deafen);
}

#[test]
fn empty_roster_leaves_the_session() {
    let s = SessionState::Connected { channel: 7, deafened: true };
    let (s1, leave) = s.on_roster_change(0);
    assert_eq!(s1, SessionState::Absent);
    assert!(leave);

    let (s2, leave) = s.on_roster_change(2);
    assert_eq!(s2, s);
    assert!(!leave);

    let (s3, leave) = SessionState::Absent.on_roster_change(0);
    assert_eq!(s3, SessionState::Absent);
    assert!(!leave);
}

#[test]
fn failed_join_reverts_to_absent_and_playback_needs_connection() {
    let s = SessionState::Connected { channel: 7, deafened: true };
    assert_eq!(s.on_join_failure(), SessionState::Absent);
    assert!(s.can_play());
    assert!(!SessionState::Absent.can_play());
}

#[test]
fn engine_failure_reports_its_diagnostics() {
    let r = synthesis_outcome(false, "boom".to_string(), "dectalk/x.wav".to_string());
    assert_eq!(r, Err(DECtalkError::SayError("boom".to_string())));
}

#[test]
fn engine_success_yields_the_output_path() {
    let r = synthesis_outcome(true, String::new(), "dectalk/x.wav".to_string());
    assert_eq!(r, Ok("dectalk/x.wav".to_string()));
}

#[test]
fn control_preamble_is_the_documented_parameter_block() {
    let expected = "[:phoneme on][:nv]\n        \
[:dv sx 1][:dv hs 100][:dv f4 3300][:dv f5 3650][:dv b4 260][:dv b5 330]\n        \
[:dv br 0][:dv lx 0][:dv sm 3][:dv ri 70][:dv nf 0][:dv la 0]\n        \
[:dv bf 18][:dv hr 18][:dv sr 32][:dv as 100][:dv qu 40][:dv ap 122][:dv pr 100]\n        \
[:dv gv 65][:dv gh 70][:dv gf 70][:dv gn 74][:dv g1 68][:dv g2 60][:dv g3 48][:dv g4 64][:dv g5 86]";
    let got = control_preamble(&DECtalkVoice::default());
    assert_eq!(String::from_utf8(got).unwrap(), expected);
}

#[test]
fn fresh_paths_are_wav_files_under_the_engine_directory() {
    let a = fresh_wav_path();
    let b = fresh_wav_path();
    assert_eq!(a.len(), 48);
    assert!(a.starts_with("dectalk/"));
    assert!(a.ends_with(".wav"));
    assert_ne!(a, b);
}
