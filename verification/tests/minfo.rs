use pseudo_cd_player::cli::{Args, MinfoCli};
use pseudo_cd_player::minfo::{
    check_version_line, chars_of, is_tracks_header, minfo_cli, minfo_command, minfo_track_info,
    parse_decimal, rows_after_header, split_lines, track_from_groups, track_from_line,
    version_command,
};
use pseudo_cd_player::Track;

const MINFO_OUTPUT: &str = "\
cdrskin 1.5.6 : limited cdrecord compatibility wrapper for libburn
Mounted media class:      DVD
Mounted media type:       DVD+R

Track  Sess Type   Start Addr End Addr   Size
==============================================
    1     1 Data   0          1023       1024
    2     2 Data   11344      12367      1024
   3  3 Data 23232 9999999999 9999976768
    4     4 Audio  30000      31000      1001

Last session start address:         23232
    9     9 Data   1          2          3
";

fn line(text: &str) -> Vec<char> {
    text.chars().collect()
}

fn text_of(chars: &[char]) -> String {
    chars.iter().collect()
}

#[test]
fn version_line_is_the_first_line() {
    assert_eq!(check_version_line("cdrskin 1.5.6\nsecond line\n"), "cdrskin 1.5.6");
    assert_eq!(check_version_line("wodim 1.1.11\r\nmore"), "wodim 1.1.11");
    assert_eq!(check_version_line("only line"), "only line");
    assert_eq!(check_version_line(""), "");
    assert_eq!(check_version_line("\nsecond"), "");
    assert_eq!(check_version_line("a\rb\nc"), "a\rb");
    assert_eq!(check_version_line("only\r"), "only\r");
    assert_eq!(check_version_line("\r\n"), "");
    assert_eq!(check_version_line("Cdrecord-ProDVD-ProBD-Clone 3.02 \u{a9} J\u{f6}rg\n"), "Cdrecord-ProDVD-ProBD-Clone 3.02 \u{a9} J\u{f6}rg");
}

#[test]
fn lines_split_like_std() {
    let texts = [
        "",
        "\n",
        "a",
        "a\n",
        "a\nb",
        "a\n\nb\n",
        "a\r\nb\r\n",
        "\r\n",
        "a\r",
        "a\rb\n",
        "\n\n\n",
        "x\r\r\ny",
    ];
    for text in texts {
        let got: Vec<String> = split_lines(&line(text)).iter().map(|l| text_of(l)).collect();
        let expected: Vec<String> = text.lines().map(String::from).collect();
        assert_eq!(got, expected);
    }
}

#[test]
fn chars_are_kept() {
    assert_eq!(chars_of("a\u{e9}\u{4e2d}!"), vec!['a', '\u{e9}', '\u{4e2d}', '!']);
    assert_eq!(chars_of(""), Vec::<char>::new());
}

#[test]
fn decimal_numbers_are_parsed() {
    assert_eq!(parse_decimal(&line("0"), u64::MAX), Some(0));
    assert_eq!(parse_decimal(&line("007"), u64::MAX), Some(7));
    assert_eq!(parse_decimal(&line("11344"), u64::MAX), Some(11344));
    assert_eq!(parse_decimal(&line("18446744073709551615"), u64::MAX), Some(u64::MAX));
    assert_eq!(parse_decimal(&line("4294967295"), u32::MAX as u64), Some(4294967295));
}

#[test]
fn bad_numbers_are_not_parsed() {
    assert_eq!(parse_decimal(&line(""), u64::MAX), None);
    assert_eq!(parse_decimal(&line("12a"), u64::MAX), None);
    assert_eq!(parse_decimal(&line("+5"), u64::MAX), None);
    assert_eq!(parse_decimal(&line("-5"), u64::MAX), None);
    assert_eq!(parse_decimal(&line(" 5"), u64::MAX), None);
    assert_eq!(parse_decimal(&line("\u{663}"), u64::MAX), None);
    assert_eq!(parse_decimal(&line("18446744073709551616"), u64::MAX), None);
    assert_eq!(parse_decimal(&line("99999999999999999999999"), u64::MAX), None);
    assert_eq!(parse_decimal(&line("4294967296"), u32::MAX as u64), None);
    assert_eq!(parse_decimal(&line("1"), 0), None);
    assert_eq!(parse_decimal(&line("0"), 0), Some(0));
}

#[test]
fn header_line_is_recognised() {
    assert!(is_tracks_header(&line("Track  Sess Type   Start Addr End Addr   Size")));
    assert!(is_tracks_header(&line("xx Track Sess Type Start Addr End Addr Size yy")));
    assert!(!is_tracks_header(&line("Track Sess Type Start  Addr End Addr Size")));
    assert!(!is_tracks_header(&line("TrackSess Type Start Addr End Addr Size")));
    assert!(!is_tracks_header(&line("")));
    // a wrapper that handed its text back would take this for a heading
    assert!(!is_tracks_header(&line("Track +Sess +Type +Start Addr +End Addr +Size")));
}

#[test]
fn track_line_is_read() {
    assert_eq!(
        track_from_line(&line("    2     2 Data   11344      12367      1024")),
        Some(Track { track_no: 2, session_no: 2, start_addr: 11344, end_addr: 12367, size: 1024 })
    );
    assert_eq!(
        track_from_line(&line("1 2 Data 3 4 5   ")),
        Some(Track { track_no: 1, session_no: 2, start_addr: 3, end_addr: 4, size: 5 })
    );
    assert_eq!(track_from_line(&line("    4     4 Audio  30000      31000      1001")), None);
    assert_eq!(track_from_line(&line("x 1 1 Data 0 1 2")), None);
    assert_eq!(track_from_line(&line("1 1 Data 0 1")), None);
    assert_eq!(track_from_line(&line("")), None);
    assert_eq!(track_from_line(&line("4294967296 1 Data 0 1 2")), None);
    assert_eq!(track_from_line(&line("1 1 Data 0 1 18446744073709551616")), None);
}

#[test]
fn groups_make_a_track() {
    let groups = |texts: &[Option<&str>]| -> Vec<Option<String>> {
        texts.iter().map(|t| t.map(String::from)).collect()
    };
    assert_eq!(
        track_from_groups(&groups(&[Some("whole"), Some("1"), Some("2"), Some("3"), Some("4"), Some("5")])),
        Some(Track { track_no: 1, session_no: 2, start_addr: 3, end_addr: 4, size: 5 })
    );
    assert_eq!(
        track_from_groups(&groups(&[None, Some("1"), Some("2"), Some("3"), Some("4"), Some("5")])),
        Some(Track { track_no: 1, session_no: 2, start_addr: 3, end_addr: 4, size: 5 })
    );
    assert_eq!(track_from_groups(&groups(&[Some("w"), Some("1"), Some("2"), Some("3"), Some("4")])), None);
    assert_eq!(
        track_from_groups(&groups(&[Some("w"), Some("1"), None, Some("3"), Some("4"), Some("5")])),
        None
    );
    assert_eq!(
        track_from_groups(&groups(&[Some("w"), Some("1"), Some("x"), Some("3"), Some("4"), Some("5")])),
        None
    );
    assert_eq!(track_from_groups(&groups(&[])), None);
}

#[test]
fn track_table_is_read() {
    assert_eq!(
        minfo_track_info(MINFO_OUTPUT),
        vec![
            Track { track_no: 1, session_no: 1, start_addr: 0, end_addr: 1023, size: 1024 },
            Track { track_no: 2, session_no: 2, start_addr: 11344, end_addr: 12367, size: 1024 },
            Track {
                track_no: 3,
                session_no: 3,
                start_addr: 23232,
                end_addr: 9999999999,
                size: 9999976768
            },
        ]
    );
}

#[test]
fn track_table_edge_cases() {
    assert_eq!(minfo_track_info(""), vec![]);
    assert_eq!(minfo_track_info("no table here\n1 1 Data 0 1 2\n"), vec![]);
    let header = "Track Sess Type Start Addr End Addr Size\n";
    assert_eq!(minfo_track_info(header), vec![]);
    // the line under the heading is passed over, whatever it holds
    let text = format!("{header}1 1 Data 0 1 2\n2 2 Data 3 4 5\n");
    assert_eq!(
        minfo_track_info(&text),
        vec![Track { track_no: 2, session_no: 2, start_addr: 3, end_addr: 4, size: 5 }]
    );
    // an empty line ends the table
    let text = format!("{header}====\n\n1 1 Data 0 1 2\n");
    assert_eq!(minfo_track_info(&text), vec![]);
    // the first heading counts
    let text = format!("{header}{header}1 1 Data 0 1 2\r\nrubbish\n7 7 Data 8 9 10");
    assert_eq!(
        minfo_track_info(&text),
        vec![
            Track { track_no: 1, session_no: 1, start_addr: 0, end_addr: 1, size: 2 },
            Track { track_no: 7, session_no: 7, start_addr: 8, end_addr: 9, size: 10 },
        ]
    );
}

#[test]
fn tool_names() {
    assert_eq!(MinfoCli::Cdrskin.name(), "cdrskin");
    assert_eq!(MinfoCli::Cdrecord.name(), "cdrecord");
    assert_eq!(MinfoCli::Wodim.name(), "wodim");
    assert_eq!(MinfoCli::default(), MinfoCli::Cdrskin);
}

#[test]
fn default_args() {
    let args = Args::default();
    assert_eq!(args.drive, "");
    assert_eq!(args.meta_info_track, 0);
    assert!(!args.no_meta);
    assert_eq!(args.minfo_program, MinfoCli::Cdrskin);
    assert_eq!(args.log_file, None);
}

#[test]
fn command_lines() {
    let mut args = Args::default();
    args.drive = String::from("/dev/sr0");
    assert_eq!(minfo_cli(&args), "cdrskin");
    assert_eq!(version_command(&args), vec!["cdrskin", "--version"]);
    assert_eq!(minfo_command(&args), vec!["cdrskin", "dev=/dev/sr0", "-minfo"]);
    args.minfo_program = MinfoCli::Wodim;
    args.drive = String::from("disc.iso");
    assert_eq!(minfo_cli(&args), "wodim");
    assert_eq!(version_command(&args), vec!["wodim", "--version"]);
    assert_eq!(minfo_command(&args), vec!["wodim", "dev=disc.iso", "-minfo"]);
}

#[test]
fn rows_follow_the_heading() {
    let lines: Vec<Vec<char>> =
        ["intro", "heading", "rule", "row 1", "row 2", "", "after"].iter().map(|l| line(l)).collect();
    assert_eq!(rows_after_header(&lines, 1), (3, 5));
    assert_eq!(rows_after_header(&lines, 0), (2, 5));
    assert_eq!(rows_after_header(&lines, 3), (5, 5));
    assert_eq!(rows_after_header(&lines, 4), (6, 7));
    assert_eq!(rows_after_header(&lines, 5), (7, 7));
    assert_eq!(rows_after_header(&lines, 6), (7, 7));
    assert_eq!(rows_after_header(&lines, 7), (7, 7));
    assert_eq!(rows_after_header(&vec![], 0), (0, 0));
}
