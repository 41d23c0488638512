use dectalk_tts::dectalk::{DECtalkVoice, VoiceOverrides};
use dectalk_tts::mute_manager::MuteManager;
use dectalk_tts::prefix_manager::PrefixManager;
use dectalk_tts::voice_manager::VoiceManager;

fn default_voice() -> DECtalkVoice {
    DECtalkVoice::default()
}

#[test]
fn default_profile_is_valid() {
    assert!(default_voice().validate());
    assert_eq!(default_voice().sx, 1);
    assert_eq!(default_voice().ap, 122);
}

#[test]
fn default_profile_is_the_paul_preset() {
    assert_eq!(default_voice(), DECtalkVoice::paul_voice());
}

#[test]
fn every_preset_is_valid() {
    let presets = [
        DECtalkVoice::paul_voice(),
        DECtalkVoice::harry_voice(),
        DECtalkVoice::frank_voice(),
        DECtalkVoice::dennis_voice(),
        DECtalkVoice::betty_voice(),
        DECtalkVoice::ursula_voice(),
        DECtalkVoice::wendy_voice(),
        DECtalkVoice::rita_voice(),
        DECtalkVoice::kit_voice(),
    ];
    for p in presets {
        assert!(p.validate());
    }
    // spot checks of the tables
    assert_eq!(DECtalkVoice::kit_voice().ap, 306);
    assert_eq!(DECtalkVoice::betty_voice().sx, 0);
    assert_eq!(DECtalkVoice::harry_voice().hs, 115);
}

#[test]
fn validate_accepts_in_range_combinations() {
    // extremes of every range at once
    let low = DECtalkVoice {
        sx: 0,
        hs: 65,
        f4: 2000,
        f5: 2500,
        b4: 100,
        b5: 100,
        br: 0,
        lx: 0,
        sm: 0,
        ri: 0,
        nf: 0,
        la: 0,
        bf: 0,
        hr: 2,
        sr: 1,
        as_: 0,
        qu: 0,
        ap: 50,
        pr: 0,
        gv: 0,
        gh: 0,
        gf: 0,
        gn: 0,
        g1: 0,
        g2: 0,
        g3: 0,
        g4: 0,
        g5: 0,
    };
    assert!(low.validate());
    let high = DECtalkVoice {
        sx: 1,
        hs: 145,
        f4: 4650,
        f5: 4950,
        b4: 2048,
        b5: 2048,
        br: 72,
        lx: 100,
        sm: 100,
        ri: 100,
        nf: 100,
        la: 100,
        bf: 40,
        hr: 100,
        sr: 100,
        as_: 100,
        qu: 100,
        ap: 350,
        pr: 250,
        gv: 86,
        gh: 86,
        gf: 86,
        gn: 86,
        g1: 86,
        g2: 86,
        g3: 86,
        g4: 86,
        g5: 86,
    };
    assert!(high.validate());
}

#[test]
fn validate_rejects_any_single_field_out_of_range() {
    let mut v = default_voice();
    v.sx = 2;
    assert!(!v.validate());

    let mut v = default_voice();
    v.hs = 64;
    assert!(!v.validate());

    let mut v = default_voice();
    v.f4 = 4651;
    assert!(!v.validate());

    let mut v = default_voice();
    v.f5 = 2499;
    assert!(!v.validate());

    let mut v = default_voice();
    v.b4 = 99;
    assert!(!v.validate());

    let mut v = default_voice();
    v.b5 = 2049;
    assert!(!v.validate());

    let mut v = default_voice();
    v.br = 73;
    assert!(!v.validate());

    let mut v = default_voice();
    v.hr = 1;
    assert!(!v.validate());

    let mut v = default_voice();
    v.sr = 0;
    assert!(!v.validate());

    let mut v = default_voice();
    v.ap = 351;
    assert!(!v.validate());

    let mut v = default_voice();
    v.pr = 251;
    assert!(!v.validate());

    let mut v = default_voice();
    v.g5 = 87;
    assert!(!v.validate());
}

#[test]
fn merged_takes_overrides_and_keeps_the_rest() {
    let base = default_voice();
    let mut ov = VoiceOverrides::default();
    ov.hs = Some(120);
    ov.ap = Some(200);
    let merged = base.merged(&ov);
    assert_eq!(merged.hs, 120);
    assert_eq!(merged.ap, 200);
    assert_eq!(merged.sx, base.sx);
    assert_eq!(merged.g5, base.g5);
}

#[test]
fn get_returns_default_for_unknown_user() {
    let store = VoiceManager::new();
    assert_eq!(store.get(42), default_voice());
}

#[test]
fn set_then_get_returns_committed_value() {
    let mut store = VoiceManager::new();
    let mut v = default_voice();
    v.hs = 120;
    v.ap = 300;
    assert!(store.set(7, &v).is_ok());
    assert_eq!(store.get(7), v);
    // another user is untouched
    assert_eq!(store.get(8), default_voice());
}

#[test]
fn set_invalid_leaves_get_unchanged() {
    let mut store = VoiceManager::new();
    let mut good = default_voice();
    good.hs = 130;
    assert!(store.set(7, &good).is_ok());

    let mut bad = default_voice();
    bad.ap = 1000;
    assert!(store.set(7, &bad).is_err());
    assert_eq!(store.get(7), good);
}

#[test]
fn remove_reverts_to_default() {
    let mut store = VoiceManager::new();
    let mut v = default_voice();
    v.qu = 80;
    assert!(store.set(7, &v).is_ok());
    store.remove(7);
    assert_eq!(store.get(7), default_voice());
    // removing an unknown user is fine
    store.remove(99);
    assert_eq!(store.get(99), default_voice());
}

#[test]
fn mute_defaults_to_false() {
    let store = MuteManager::new();
    assert!(!store.get(1, 2));
}

#[test]
fn mute_set_and_clear() {
    let mut store = MuteManager::new();
    store.set(1, 2, true);
    assert!(store.get(1, 2));
    // other pairs untouched
    assert!(!store.get(1, 3));
    assert!(!store.get(2, 2));
    store.set(1, 2, false);
    assert!(!store.get(1, 2));
}

#[test]
fn mute_is_guild_scoped() {
    let mut store = MuteManager::new();
    store.set(1, 2, true);
    store.set(5, 2, false);
    assert!(store.get(1, 2));
    assert!(!store.get(5, 2));
}

#[test]
fn prefix_falls_back_to_default() {
    let store = PrefixManager::new("!");
    assert_eq!(store.get(1), "!");
    assert_eq!(store.get(2), "!");
}

#[test]
fn prefix_set_overrides_one_guild() {
    let mut store = PrefixManager::new("!");
    store.set(1, ">>");
    assert_eq!(store.get(1), ">>");
    assert_eq!(store.get(2), "!");
    store.set(1, "$");
    assert_eq!(store.get(1), "$");
}
