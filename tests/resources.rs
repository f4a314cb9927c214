use jimmer::quotes::QuoteSource;
use jimmer::sounds::{select_sounds, NoSoundFiles};
use jimmer::theme::{get_quote_style, get_timer_style, Color, Emphasis, TextStyle};

#[test]
fn both_sound_files_missing_is_an_error() {
    assert!(matches!(select_sounds(None, None), Err(NoSoundFiles)));
}

#[test]
fn missing_end_sound_uses_loop_sound() {
    let f = select_sounds(Some("/a/audio.mp3".to_string()), None).unwrap();
    assert_eq!(f.loop_path, "/a/audio.mp3");
    assert_eq!(f.end_path, "/a/audio.mp3");
    assert!(f.substituted);
}

#[test]
fn missing_loop_sound_uses_end_sound() {
    let f = select_sounds(None, Some("/b/end.mp3".to_string())).unwrap();
    assert_eq!(f.loop_path, "/b/end.mp3");
    assert_eq!(f.end_path, "/b/end.mp3");
    assert!(f.substituted);
}

#[test]
fn both_sound_files_found() {
    let f = select_sounds(Some("audio.mp3".to_string()), Some("end.mp3".to_string())).unwrap();
    assert_eq!(f.loop_path, "audio.mp3");
    assert_eq!(f.end_path, "end.mp3");
    assert!(!f.substituted);
}

#[test]
fn timer_styles_by_theme() {
    assert_eq!(get_timer_style(0), TextStyle { fg: Color::Green, emphasis: Emphasis::Bold });
    assert_eq!(get_timer_style(3), TextStyle { fg: Color::Yellow, emphasis: Emphasis::Reversed });
    assert_eq!(get_timer_style(9), TextStyle { fg: Color::White, emphasis: Emphasis::Reversed });
    assert_eq!(get_timer_style(10), get_timer_style(0));
}

#[test]
fn quote_styles_by_theme() {
    assert_eq!(get_quote_style(0), TextStyle { fg: Color::White, emphasis: Emphasis::Italic });
    assert_eq!(get_quote_style(4), TextStyle { fg: Color::Yellow, emphasis: Emphasis::Reversed });
    assert_eq!(get_quote_style(9), TextStyle { fg: Color::Rgb(100, 200, 100), emphasis: Emphasis::Bold });
    assert_eq!(get_quote_style(usize::MAX), get_quote_style(0));
}

#[test]
fn picked_quote_is_from_the_list() {
    let q = QuoteSource::standard();
    assert_eq!(q.len(), 66);
    for _ in 0..50 {
        let p = q.pick();
        assert!((0..q.len()).any(|i| q.get(i) == p));
    }
}

#[test]
fn single_quote_source_always_gives_it() {
    let q = QuoteSource::new(vec!["only"]);
    assert_eq!(q.pick(), "only");
}
