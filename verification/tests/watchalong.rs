use bluelady_tools::timer::{format_time, next_tick, parse_time, tick, Tick, Timer};
use bluelady_tools::watchalong::{
    add_episode, dec_episode, is_whitespace, read_file, reset_file, reset_timer, split_lines,
    split_words, write_content, EpisodeUpdate, FileContent, DEFAULT_CONTENT,
};

#[test]
fn test_read_file() {
    let path = "test.txt";
    let timer = Timer::new(path);
    assert_eq!(timer.path(), path);
    // A file that does not exist yet is created with the default content.
    let result = read_file(&reset_file()).unwrap();
    assert_eq!(result.episode, "1");
    let (minutes, seconds) = parse_time(&result.time).unwrap();
    assert_eq!(minutes, 0);
    assert_eq!(seconds, 0);
}

#[test]
fn default_content() {
    assert_eq!(DEFAULT_CONTENT, "Episodio: 1\nTempo: 00:00");
    assert_eq!(reset_file(), "Episodio: 1\nTempo: 00:00");
}

#[test]
fn white_space_is_what_the_standard_library_says() {
    for code in 0..=0x3100u32 {
        if let Some(c) = char::from_u32(code) {
            assert_eq!(is_whitespace(c), c.is_whitespace(), "U+{code:04X}");
        }
    }
    assert!(!is_whitespace('\u{feff}'));
    assert!(!is_whitespace('\u{10ffff}'));
}

#[test]
fn words_are_what_the_standard_library_splits() {
    let cases = [
        "",
        " ",
        "Episodio: 1",
        "  two   words  ",
        "\ttab\u{a0}nbsp\u{3000}wide ",
        "one",
        "a b c d",
        "trailing\r",
    ];
    for case in cases {
        let expected: Vec<String> = case.split_whitespace().map(String::from).collect();
        assert_eq!(split_words(case), expected, "{case:?}");
    }
}

#[test]
fn lines_are_what_the_standard_library_splits() {
    let cases = [
        "",
        "\n",
        "a",
        "a\n",
        "a\nb",
        "a\r\nb\r\n",
        "a\r",
        "a\r\n\r\n",
        "a\n\nb\n\n",
        "\r\n",
        "a\rb\nc\r",
    ];
    for case in cases {
        let expected: Vec<String> = case.lines().map(String::from).collect();
        assert_eq!(split_lines(case), expected, "{case:?}");
    }
}

#[test]
fn a_file_reads_into_its_two_values() {
    assert_eq!(
        read_file("Episodio: 12\nTempo: 03:45"),
        Some(FileContent { episode: "12".to_string(), time: "03:45".to_string() })
    );
    assert_eq!(
        read_file("Episode   7 extra\r\nTime\t10:00\r\nmore lines\n"),
        Some(FileContent { episode: "7".to_string(), time: "10:00".to_string() })
    );
}

#[test]
fn a_file_with_a_missing_part_does_not_read() {
    assert_eq!(read_file(""), None);
    assert_eq!(read_file("Episodio: 1"), None);
    assert_eq!(read_file("Episodio: 1\n"), None);
    assert_eq!(read_file("Episodio:\nTempo: 00:00"), None);
    assert_eq!(read_file("Episodio: 1\nTempo:"), None);
    assert_eq!(read_file("Episodio: 1\n\nTempo: 00:00"), None);
}

#[test]
fn content_is_written_in_the_file_format() {
    assert_eq!(write_content("3", "01:02"), "Episodio: 3\nTempo: 01:02");
    let written = write_content("3", "01:02");
    assert_eq!(
        read_file(&written),
        Some(FileContent { episode: "3".to_string(), time: "01:02".to_string() })
    );
}

#[test]
fn episodes_go_up_and_down() {
    assert_eq!(
        add_episode("Episodio: 1\nTempo: 12:34"),
        Some(EpisodeUpdate {
            content: "Episodio: 2\nTempo: 12:34".to_string(),
            episode: "2".to_string(),
        })
    );
    assert_eq!(
        dec_episode("Episodio: 1\nTempo: 12:34"),
        Some(EpisodeUpdate {
            content: "Episodio: 0\nTempo: 12:34".to_string(),
            episode: "0".to_string(),
        })
    );
    assert_eq!(
        dec_episode("Episodio: 0\nTempo: 00:00"),
        Some(EpisodeUpdate {
            content: "Episodio: -1\nTempo: 00:00".to_string(),
            episode: "-1".to_string(),
        })
    );
    assert_eq!(
        add_episode("Episodio: +009\nTempo: 00:00").map(|u| u.episode),
        Some("10".to_string())
    );
}

#[test]
fn episodes_that_cannot_change() {
    assert_eq!(add_episode("Episodio: one\nTempo: 00:00"), None);
    assert_eq!(add_episode("Episodio: 2147483647\nTempo: 00:00"), None);
    assert_eq!(dec_episode("Episodio: -2147483648\nTempo: 00:00"), None);
    assert_eq!(add_episode("Episodio: 1"), None);
    assert_eq!(
        dec_episode("Episodio: 2147483647\nTempo: 00:00").map(|u| u.episode),
        Some("2147483646".to_string())
    );
}

#[test]
fn the_timer_resets_and_keeps_the_episode() {
    assert_eq!(
        reset_timer("Episodio: 5\nTempo: 12:34"),
        Some("Episodio: 5\nTempo: 00:00".to_string())
    );
    assert_eq!(
        reset_timer("Episodio: 007\nTempo: 12:34"),
        Some("Episodio: 7\nTempo: 00:00".to_string())
    );
    assert_eq!(reset_timer("Episodio: x\nTempo: 12:34"), None);
    assert_eq!(reset_timer(""), None);
}

#[test]
fn times_parse_from_their_first_two_fields() {
    assert_eq!(parse_time("00:00"), Some((0, 0)));
    assert_eq!(parse_time("12:34"), Some((12, 34)));
    assert_eq!(parse_time("1:2:3"), Some((1, 2)));
    assert_eq!(parse_time("100:75"), Some((100, 75)));
    assert_eq!(parse_time("+1:+2"), Some((1, 2)));
    assert_eq!(parse_time("12"), None);
    assert_eq!(parse_time(""), None);
    assert_eq!(parse_time(":"), None);
    assert_eq!(parse_time("a:1"), None);
    assert_eq!(parse_time("1:b"), None);
    assert_eq!(parse_time("1: 2"), None);
    assert_eq!(parse_time("4294967296:0"), None);
}

#[test]
fn a_tick_is_one_second() {
    assert_eq!(tick(0, 0), Some((0, 1)));
    assert_eq!(tick(0, 58), Some((0, 59)));
    assert_eq!(tick(0, 59), Some((1, 0)));
    assert_eq!(tick(9, 59), Some((10, 0)));
    // Seconds that start beyond a minute never roll over.
    assert_eq!(tick(1, 60), Some((1, 61)));
    assert_eq!(tick(u32::MAX, 59), None);
    assert_eq!(tick(0, u32::MAX), None);
    assert_eq!(tick(u32::MAX, 0), Some((u32::MAX, 1)));
}

#[test]
fn times_are_written_two_digits_wide() {
    assert_eq!(format_time(0, 0), "00:00");
    assert_eq!(format_time(1, 9), "01:09");
    assert_eq!(format_time(12, 34), "12:34");
    assert_eq!(format_time(123, 5), "123:05");
    assert_eq!(parse_time(&format_time(59, 59)), Some((59, 59)));
}

#[test]
fn a_tick_gives_the_new_time_and_content() {
    assert_eq!(
        next_tick("4", 2, 59),
        Some(Tick {
            minutes: 3,
            seconds: 0,
            time: "03:00".to_string(),
            content: "Episodio: 4\nTempo: 03:00".to_string(),
        })
    );
    assert_eq!(next_tick("4", u32::MAX, 59), None);
}

#[test]
fn a_timer_starts_once_and_stops() {
    let mut timer = Timer::new("some/watchalong.txt");
    assert_eq!(timer.path(), "some/watchalong.txt");
    assert!(!timer.should_stop());
    assert!(timer.start());
    assert!(!timer.start());
    assert!(!timer.should_stop());
    timer.stop();
    assert!(timer.should_stop());
    // A stopped timer stays started: it is not launched again.
    assert!(!timer.start());
    assert!(timer.should_stop());
}
