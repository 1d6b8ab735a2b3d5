use ytmtui::vtt::{parse_vtt, split_lines, Timestamp};

/// Seconds of a cue time, computed as the player computes them.
fn seconds(t: &Timestamp) -> f64 {
    let mut total = t.seconds.parse::<f64>().unwrap();
    if let Some(f) = &t.fraction {
        total += f.parse::<f64>().unwrap() / 10f64.powi(f.len() as i32);
    }
    if let Some(m) = &t.minutes {
        total += m.parse::<f64>().unwrap() * 60.0;
    }
    if let Some(h) = &t.hours {
        total += h.parse::<f64>().unwrap() * 3600.0;
    }
    total
}

#[test]
fn parses_basic_vtt() {
    let raw = "WEBVTT\n\n00:00:01.000 --> 00:00:03.500\nHello world\n\n00:00:04.000 --> 00:00:06.000\nSecond line\n";
    let cues = parse_vtt(raw);
    assert_eq!(cues.len(), 2);
    assert!((seconds(&cues[0].start) - 1.0).abs() < 1e-6);
    assert!((seconds(&cues[0].end) - 3.5).abs() < 1e-6);
    assert_eq!(cues[0].text, "Hello world");
}

#[test]
fn strips_inline_timing_tags() {
    let raw = "WEBVTT\n\n00:00:01.000 --> 00:00:03.000 align:start position:0%\nHello<00:00:01.500><c> world</c>\n";
    let cues = parse_vtt(raw);
    assert_eq!(cues.len(), 1);
    assert_eq!(cues[0].text, "Hello world");
}

#[test]
fn keeps_time_fields_as_written() {
    let cues = parse_vtt("01:02.5 --> 1:01:02\nx\n");
    assert_eq!(cues.len(), 1);
    let s = &cues[0].start;
    assert_eq!(s.hours, None);
    assert_eq!(s.minutes.as_deref(), Some("01"));
    assert_eq!(s.seconds, "02");
    assert_eq!(s.fraction.as_deref(), Some("5"));
    let e = &cues[0].end;
    assert_eq!(e.hours.as_deref(), Some("1"));
    assert_eq!(e.fraction, None);
    assert!((seconds(e) - 3662.0).abs() < 1e-9);
}

#[test]
fn joins_multi_line_cues_and_drops_empty_ones() {
    let raw = "00:00:01.000 --> 00:00:02.000\r\n first \r\nsecond\r\n\r\n00:00:03.000 --> 00:00:04.000\n<c></c>\n\n00:00:05.000 --> 00:00:06.000\nlast";
    let cues = parse_vtt(raw);
    assert_eq!(cues.len(), 2);
    assert_eq!(cues[0].text, "first  second");
    assert_eq!(cues[1].text, "last");
}

#[test]
fn skips_lines_with_bad_times() {
    let raw = "00:00:xx --> 00:00:02\nnope\n\n00:00:01 -->\nnope\n\n1 --> 2\nyes\n";
    let cues = parse_vtt(raw);
    assert_eq!(cues.len(), 1);
    assert_eq!(cues[0].text, "yes");
}

#[test]
fn splits_lines_like_str_lines() {
    for raw in ["a\nb\r\n\nc", "", "\n", "x\r", "a\n\nb\n"] {
        let chars: Vec<char> = raw.chars().collect();
        let got: Vec<String> = split_lines(&chars)
            .into_iter()
            .map(|l| l.into_iter().collect())
            .collect();
        let want: Vec<String> = raw.lines().map(str::to_string).collect();
        assert_eq!(got, want, "input {:?}", raw);
    }
}

#[test]
fn float_grammar_matches_std_parse() {
    for s in [
        "1", "01", "1.", ".5", "1.5", "1e3", "1E-3", "+1", "-0.0", "inf", "-Infinity", "NaN", "", ".",
        "e3", "1e", "1e+", "1.2.3", " 1", "1 ", "0x10", "١", "1_000", "+", "-.e1", "infinityx",
    ] {
        let chars: Vec<char> = s.chars().collect();
        assert_eq!(
            ytmtui::vtt::is_float_text(&chars),
            s.parse::<f64>().is_ok(),
            "input {:?}",
            s
        );
    }
}
