use ytmtui::audio::{default_device, simplify_transport, DeviceKind};
use ytmtui::captions::parse_caption_meta;
use ytmtui::local_scan::{walk_step, WalkStep, MAX_DEPTH};
use ytmtui::stats::sample_due;

#[test]
fn kaomoji_are_eight_characters() {
    for k in [DeviceKind::Speaker, DeviceKind::Headphones, DeviceKind::Earbuds, DeviceKind::Unknown] {
        assert_eq!(k.kaomoji().chars().count(), 8);
    }
    assert_eq!(DeviceKind::Speaker.kaomoji(), "<(˃ᴗ˂)> ");
}

#[test]
fn transports_use_the_documented_labels() {
    assert_eq!(simplify_transport("coreaudio_device_type_builtin"), "built-in");
    assert_eq!(simplify_transport("coreaudio_device_type_usb"), "usb");
    assert_eq!(simplify_transport("coreaudio_device_type_airplay"), "audio");
    assert_eq!(simplify_transport("something"), "audio");
}

#[test]
fn default_device_is_first_flagged_row() {
    let report = br#"{"SPAudioDataType":[{"_items":[
        {"_name":"Mic","coreaudio_default_audio_output_device":"spaudio_no"},
        {"_name":"Sony WH-1000XM4","coreaudio_default_audio_output_device":"spaudio_yes",
         "coreaudio_device_transport":"coreaudio_device_type_bluetooth"}]}]}"#;
    let d = default_device(report).unwrap();
    assert_eq!(d.name, "Sony WH-1000XM4");
    assert_eq!(d.kind, DeviceKind::Headphones);
    assert!(d.bluetooth);
    assert_eq!(d.transport, "bluetooth");
}

#[test]
fn no_default_device_in_other_reports() {
    assert!(default_device(b"not json").is_none());
    assert!(default_device(br#"{"SPAudioDataType":[{"x":1}]}"#).is_none());
    let unnamed = br#"{"SPAudioDataType":[{"_items":[{"coreaudio_default_audio_output_device":"spaudio_yes"}]}]}"#;
    assert!(default_device(unnamed).is_none());
}

#[test]
fn walk_rules() {
    assert_eq!(walk_step(".git", true, false, None, 0), WalkStep::Skip);
    assert_eq!(walk_step("music", true, false, None, 0), WalkStep::Descend);
    assert_eq!(walk_step("deep", true, false, None, MAX_DEPTH), WalkStep::Skip);
    assert_eq!(walk_step("a.MP3", false, true, Some("MP3"), MAX_DEPTH), WalkStep::Take);
    assert_eq!(walk_step("notes.txt", false, true, Some("txt"), 0), WalkStep::Skip);
    assert_eq!(walk_step("link.mp3", false, false, Some("mp3"), 0), WalkStep::Skip);
}

#[test]
fn caption_metadata_gives_languages() {
    let meta = br#"{"subtitles":{"vi":[{"ext":"vtt"}]},
        "automatic_captions":{"en-orig":[{"ext":"json3"},{"ext":"vtt"}]},
        "language":"vi","title":"x"}"#;
    let a = parse_caption_meta(meta).unwrap();
    assert_eq!(a.langs, vec!["vi".to_string(), "en-orig".to_string()]);
    assert_eq!(a.original_lang.as_deref(), Some("en-orig"));
    let b = parse_caption_meta(br#"{"subtitles":{"de":[{"ext":"vtt"}]},"automatic_captions":{"de":[{"ext":"srv1"}]}}"#)
        .unwrap();
    assert_eq!(b.langs, vec!["de".to_string()]);
    assert_eq!(b.original_lang.as_deref(), Some("de"));
    assert_eq!(parse_caption_meta(b"<html>").unwrap_err(), "parse yt-dlp metadata");
}

#[test]
fn statistics_sampled_every_half_second() {
    assert!(!sample_due(499));
    assert!(sample_due(500));
}
