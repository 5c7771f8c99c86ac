use hypr_xdisplay::settings::{join_path, Settings};
use hypr_xdisplay::text::{
    after_first_sub, chars_eq, chars_of, contains_sub, find_sub, has_prefix, has_suffix,
    join_space, lines_of, push_i64, push_milli, push_u64, replace_char, split_char, split_ws,
    string_of, trim_chars,
};

fn cv(s: &str) -> Vec<char> {
    chars_of(s)
}

fn sv(v: &[Vec<char>]) -> Vec<String> {
    v.iter().map(|c| c.iter().collect()).collect()
}

#[test]
fn decimal_rendering_is_exact() {
    let mut s = String::new();
    push_u64(&mut s, 0);
    assert_eq!(s, "0");
    let mut s = String::new();
    push_u64(&mut s, 65_535);
    assert_eq!(s, "65535");
    let mut s = String::from("x=");
    push_i64(&mut s, -1080);
    assert_eq!(s, "x=-1080");
    let mut s = String::new();
    push_i64(&mut s, 7);
    assert_eq!(s, "7");
}

#[test]
fn milli_rendering_drops_trailing_zeros() {
    let cases: Vec<(u64, &str)> = vec![
        (60_000, "60"),
        (59_999, "59.999"),
        (1_250, "1.25"),
        (1_200, "1.2"),
        (1_005, "1.005"),
        (0, "0"),
        (500, "0.5"),
    ];
    for (input, expected) in cases {
        let mut s = String::new();
        push_milli(&mut s, input);
        assert_eq!(s, expected);
    }
}

#[test]
fn string_of_round_trips_characters() {
    let v = cv("héllo, wörld");
    assert_eq!(string_of(v.as_slice()), "héllo, wörld");
    assert_eq!(string_of(&[]), "");
}

#[test]
fn prefix_and_suffix_checks() {
    assert!(has_prefix(cv("monitoradded>>X").as_slice(), cv("monitoradded>>").as_slice()));
    assert!(!has_prefix(cv("mon").as_slice(), cv("monitoradded>>").as_slice()));
    assert!(has_suffix(cv("emulator device").as_slice(), cv("device").as_slice()));
    assert!(!has_suffix(cv("devices!").as_slice(), cv("device").as_slice()));
    assert!(has_prefix(cv("abc").as_slice(), cv("").as_slice()));
}

#[test]
fn substring_search_finds_first_occurrence() {
    assert_eq!(find_sub(cv("abcabc").as_slice(), cv("bc").as_slice()), Some(1));
    assert_eq!(find_sub(cv("abc").as_slice(), cv("zz").as_slice()), None);
    assert!(contains_sub(cv("x IPv4 y").as_slice(), cv("IPv4").as_slice()));
    assert!(!contains_sub(cv("x IPv6 y").as_slice(), cv("IPv4").as_slice()));
}

#[test]
fn trimming_strips_both_ends() {
    assert_eq!(string_of(trim_chars(cv("  a b\t ").as_slice()).as_slice()), "a b");
    assert_eq!(string_of(trim_chars(cv("\t\n ").as_slice()).as_slice()), "");
    assert_eq!(string_of(trim_chars(cv("ab").as_slice()).as_slice()), "ab");
}

#[test]
fn splitting_on_a_character_keeps_empty_pieces() {
    let pieces = split_char(cv("a;;b;").as_slice(), ';');
    assert_eq!(sv(&pieces), vec!["a", "", "b", ""]);
    let pieces = split_char(cv("").as_slice(), ';');
    assert_eq!(sv(&pieces), vec![""]);
}

#[test]
fn splitting_on_whitespace_drops_empty_runs() {
    let parts = split_ws(cv("  1  00:11  Wireless  Display ").as_slice());
    assert_eq!(sv(&parts), vec!["1", "00:11", "Wireless", "Display"]);
    assert!(split_ws(cv("   ").as_slice()).is_empty());
}

#[test]
fn lines_match_line_endings() {
    assert_eq!(sv(&lines_of(cv("a\nb").as_slice())), vec!["a", "b"]);
    assert_eq!(sv(&lines_of(cv("a\r\nb\n").as_slice())), vec!["a", "b"]);
    assert_eq!(sv(&lines_of(cv("a\n\nb").as_slice())), vec!["a", "", "b"]);
    assert!(lines_of(cv("").as_slice()).is_empty());
}

#[test]
fn join_concatenates_with_single_spaces() {
    let parts = split_ws(cv("x a b c").as_slice());
    assert_eq!(string_of(join_space(&parts, 1).as_slice()), "a b c");
    assert_eq!(string_of(join_space(&parts, 4).as_slice()), "");
}

#[test]
fn replace_maps_every_occurrence() {
    assert_eq!(
        string_of(replace_char(cv("800,600,1").as_slice(), ',', 'x').as_slice()),
        "800x600x1"
    );
}

#[test]
fn after_first_takes_the_segment_between_occurrences() {
    assert_eq!(
        string_of(after_first_sub(cv("at: 10,20").as_slice(), cv("at:").as_slice()).as_slice()),
        " 10,20"
    );
    assert_eq!(
        string_of(after_first_sub(cv("k: a k: b").as_slice(), cv("k:").as_slice()).as_slice()),
        " a "
    );
    assert_eq!(
        string_of(after_first_sub(cv("nothing").as_slice(), cv("k:").as_slice()).as_slice()),
        ""
    );
}

#[test]
fn character_equality_is_exact() {
    assert!(chars_eq(cv("None").as_slice(), cv("None").as_slice()));
    assert!(!chars_eq(cv("None").as_slice(), cv("none").as_slice()));
    assert!(!chars_eq(cv("No").as_slice(), cv("None").as_slice()));
}

#[test]
fn default_settings_root_under_the_given_directories() {
    let s = Settings::with_dirs(Some("/home/u/Pictures"), Some("/home/u/Videos"));
    assert_eq!(s.screenshot_dir, "/home/u/Pictures/Screenshots");
    assert_eq!(s.recorder_dir, "/home/u/Videos/Screenrecord");
    assert_eq!(s.screenshot_filename_format, "screenshot_%Y-%m-%d_%H-%M-%S.png");
    assert_eq!(s.recorder_filename_format, "recording_%Y-%m-%d_%H-%M-%S.mp4");
    assert_eq!(s.recorder_codec, "libx264");
    assert_eq!(s.recorder_audio_source.as_deref(), Some("Default"));
    assert_eq!(s.recorder_framerate, Some(30));
    assert_eq!(s.recorder_hardware_accel, Some(false));
    assert!(s.recorder_advanced_args.is_none());
    assert!(s.recorder_resolution.is_none());
    assert!(s.recorder_audio_device.is_none());
}

#[test]
fn default_settings_fall_back_to_tmp() {
    let s = Settings::default();
    assert_eq!(s.screenshot_dir, "/tmp");
    assert_eq!(s.recorder_dir, "/tmp");
}

#[test]
fn path_join_inserts_one_separator() {
    assert_eq!(join_path("/a/b", "c.png"), "/a/b/c.png");
}
