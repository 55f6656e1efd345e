//! Reading what the disc-info tool prints: its version line and its table of
//! tracks.
//!
//! The tool is run elsewhere; this module builds its command lines and reads
//! its output. The two patterns of the track table are matched by the `regex`
//! crate.

use vstd::prelude::*;
use vstd::string::StringExecFns;

use crate::cli::Args;
use crate::Track;

verus! {

/// Matches the heading of the table of tracks, anywhere in a line.
pub const TRACKS_HEADER_PATTERN: &'static str = "Track +Sess +Type +Start Addr +End Addr +Size";

/// Matches a whole line of the table that describes a data track, and
/// captures its five numbers.
pub const TRACK_LINE_PATTERN: &'static str =
    "^ *(\\d+) +(\\d+) +Data +(\\d+) +(\\d+) +(\\d+) *$";

/// Whether `pattern`, read as a regular expression of the `regex` crate,
/// matches somewhere in `haystack`; `None` where `pattern` is no such
/// expression.
pub uninterp spec fn regex_is_match(pattern: Seq<char>, haystack: Seq<char>) -> Option<bool>;

/// The capture groups of the leftmost match of `pattern` in `haystack`, group
/// 0 (the whole match) first, each `None` where the group took no part;
/// `None` where `pattern` is no regular expression or matches nowhere.
pub uninterp spec fn regex_first_captures(pattern: Seq<char>, haystack: Seq<char>) -> Option<
    Seq<Option<Seq<char>>>,
>;

/// The texts that a list of capture groups holds.
pub open spec fn group_texts(groups: Seq<Option<String>>) -> Seq<Option<Seq<char>>> {
    Seq::new(
        groups.len(),
        |i: int|
            match groups[i] {
                Some(text) => Some(text@),
                None => None,
            },
    )
}

/// `regex::Regex::new` on `pattern`, then `Regex::is_match` on the text made
/// of `haystack`: whether the expression matches anywhere in it. Nothing is
/// claimed of which texts match.
#[verifier::external_body]
fn regex_match(pattern: &str, haystack: &Vec<char>) -> (found: Option<bool>)
    ensures
        found == regex_is_match(pattern@, haystack@),
{
    let text: String = haystack.iter().collect();
    match regex::Regex::new(pattern) {
        Ok(re) => Some(re.is_match(&text)),
        Err(_) => None,
    }
}

/// `regex::Regex::new` on `pattern`, then the first item of
/// `Regex::captures_iter` on the text made of `haystack`, with the text of
/// each of its groups as `Captures::iter` hands them out. Nothing is claimed
/// of what is captured.
#[verifier::external_body]
fn regex_captures(pattern: &str, haystack: &Vec<char>) -> (groups: Option<Vec<Option<String>>>)
    ensures
        match groups {
            Some(found) => regex_first_captures(pattern@, haystack@) == Some(group_texts(found@)),
            None => regex_first_captures(pattern@, haystack@) is None,
        },
{
    let text: String = haystack.iter().collect();
    match regex::Regex::new(pattern) {
        Ok(re) => match re.captures_iter(&text).next() {
            Some(caps) => Some(caps.iter().map(|m| m.map(|m| m.as_str().to_string())).collect()),
            None => None,
        },
        Err(_) => None,
    }
}

/// The characters of `text`, one by one.
pub fn chars_of(text: &str) -> (chars: Vec<char>)
    ensures
        chars@ == text@,
{
    let mut chars: Vec<char> = Vec::new();
    for c in it: text.chars()
        invariant
            chars@ == it.seq().take(it.index() as int),
    {
        chars.push(c);
    }
    chars
}

/// Where the first line of `s` ends: the index of its first line feed, or
/// its length.
pub open spec fn line_end(s: Seq<char>) -> int
    decreases s.len(),
{
    if s.len() == 0 || s[0] == '\n' {
        0
    } else {
        1 + line_end(s.skip(1))
    }
}

/// A line without the carriage return that may end it.
pub open spec fn without_cr(line: Seq<char>) -> Seq<char> {
    if line.len() > 0 && line.last() == '\r' {
        line.drop_last()
    } else {
        line
    }
}

/// The lines of a text, as `str::lines` gives them. A line ends at a line
/// feed, or at the end of the text; the line feed, and a carriage return
/// just before it, belong to no line. A text that ends in a line feed has no
/// empty line after it.
pub open spec fn lines_of(s: Seq<char>) -> Seq<Seq<char>>
    decreases s.len(),
{
    if s.len() == 0 {
        Seq::empty()
    } else {
        let k = line_end(s);
        if k < 0 || k >= s.len() {
            seq![s]
        } else {
            seq![without_cr(s.take(k))] + lines_of(s.skip(k + 1))
        }
    }
}

/// The first line of a text, or nothing where it has none.
pub open spec fn first_line(s: Seq<char>) -> Seq<char> {
    if line_end(s) < 0 || line_end(s) >= s.len() {
        s
    } else {
        without_cr(s.take(line_end(s)))
    }
}

/// `k` is where the first line ends, if no line feed stands before it and
/// one stands at it, or the text ends there.
pub proof fn lemma_line_end(s: Seq<char>, k: int)
    requires
        0 <= k <= s.len(),
        forall|j: int| 0 <= j < k ==> s[j] != '\n',
        k == s.len() || s[k] == '\n',
    ensures
        line_end(s) == k,
    decreases k,
{
    if k > 0 {
        lemma_line_end(s.skip(1), k - 1);
    }
}

/// The views of a list of lines.
pub open spec fn line_views(lines: Seq<Vec<char>>) -> Seq<Seq<char>> {
    Seq::new(lines.len(), |i: int| lines[i]@)
}

fn copy_range(text: &Vec<char>, from: usize, to: usize) -> (part: Vec<char>)
    requires
        from <= to <= text.len(),
    ensures
        part@ == text@.subrange(from as int, to as int),
{
    let mut part: Vec<char> = Vec::new();
    let mut i: usize = from;
    while i < to
        invariant
            from <= i <= to <= text.len(),
            part@ == text@.subrange(from as int, i as int),
        decreases to - i,
    {
        part.push(text[i]);
        i += 1;
    }
    part
}

/// Where the line that starts at `from` ends, and where the next one starts.
fn scan_line(text: &Vec<char>, from: usize) -> (span: (usize, usize))
    requires
        from < text.len(),
    ensures
        from <= span.0 <= text.len(),
        span.0 - from == line_end(text@.skip(from as int)),
        span.1 == if span.0 < text.len() {
            span.0 + 1
        } else {
            text.len() as int
        },
{
    let n = text.len();
    let mut end: usize = from;
    while end < n && text[end] != '\n'
        invariant
            from <= end <= n,
            n == text.len(),
            forall|j: int| from <= j < end ==> text@[j] != '\n',
        decreases n - end,
    {
        end += 1;
    }
    proof {
        lemma_line_end(text@.skip(from as int), end - from);
    }
    let next = if end < n {
        end + 1
    } else {
        n
    };
    (end, next)
}

/// Where the line that stands between `from` and `end` stops: before the
/// carriage return that ends it, if a line feed follows at `end`.
fn line_stop(text: &Vec<char>, from: usize, end: usize) -> (stop: usize)
    requires
        from <= end <= text.len(),
    ensures
        from <= stop <= end,
        text@.subrange(from as int, stop as int) == if end < text.len() {
            without_cr(text@.subrange(from as int, end as int))
        } else {
            text@.subrange(from as int, end as int)
        },
{
    let stop = if end < text.len() && end > from && text[end - 1] == '\r' {
        end - 1
    } else {
        end
    };
    proof {
        let whole = text@.subrange(from as int, end as int);
        if end > from && text@[end - 1] == '\r' {
            assert(whole.drop_last() =~= text@.subrange(from as int, end - 1));
        }
    }
    stop
}

/// See [`lines_of`].
pub fn split_lines(text: &Vec<char>) -> (lines: Vec<Vec<char>>)
    ensures
        line_views(lines@) == lines_of(text@),
{
    let n = text.len();
    let mut lines: Vec<Vec<char>> = Vec::new();
    let mut pos: usize = 0;
    proof {
        assert(text@.skip(0) =~= text@);
        assert(line_views(lines@) + lines_of(text@) =~= lines_of(text@));
    }
    while pos < n
        invariant
            pos <= n,
            n == text.len(),
            lines_of(text@) == line_views(lines@) + lines_of(text@.skip(pos as int)),
        decreases n - pos,
    {
        let (end, next) = scan_line(text, pos);
        let stop = line_stop(text, pos, end);
        let line = copy_range(text, pos, stop);
        proof {
            let rest = text@.skip(pos as int);
            let k = end - pos;
            assert(rest.take(k) =~= text@.subrange(pos as int, end as int));
            if k >= rest.len() {
                assert(rest =~= text@.subrange(pos as int, end as int));
            }
            assert(lines_of(text@.skip(next as int)) == if k >= rest.len() {
                Seq::<Seq<char>>::empty()
            } else {
                lines_of(rest.skip(k + 1))
            }) by {
                if k < rest.len() {
                    assert(rest.skip(k + 1) =~= text@.skip(next as int));
                }
            }
            assert(lines_of(rest) =~= seq![line@] + lines_of(text@.skip(next as int)));
            assert(line_views(lines@.push(line)) =~= line_views(lines@) + seq![line@]);
        }
        lines.push(line);
        pos = next;
    }
    proof {
        assert(line_views(lines@) + Seq::<Seq<char>>::empty() =~= line_views(lines@));
    }
    lines
}

/// The first line of what the tool prints when asked for its version; an
/// empty text where it printed nothing.
pub fn check_version_line(output: &str) -> (line: String)
    ensures
        line@ == first_line(output@),
{
    let text = chars_of(output);
    if text.len() == 0 {
        return String::new();
    }
    let (end, _) = scan_line(&text, 0);
    let stop = line_stop(&text, 0, end);
    proof {
        assert(text@.skip(0) =~= text@);
        assert(text@.take(end as int) =~= text@.subrange(0, end as int));
        if end >= text.len() {
            assert(text@.subrange(0, end as int) =~= text@);
        }
    }
    output.substring_char(0, stop).to_owned()
}

/// The name of the disc-info tool that `args` chooses.
pub fn minfo_cli(args: &Args) -> (name: String)
    ensures
        name@ == args.minfo_program.spec_name(),
{
    args.minfo_program.name().to_owned()
}

/// The command line that asks the tool for its version: the tool's name and
/// `--version`.
pub fn version_command(args: &Args) -> (command: Vec<String>)
    ensures
        command@.len() == 2,
        command@[0]@ == args.minfo_program.spec_name(),
        command@[1]@ == "--version"@,
{
    let mut command: Vec<String> = Vec::new();
    command.push(minfo_cli(args));
    command.push("--version".to_owned());
    command
}

/// The command line that asks the tool for the medium's info: the tool's
/// name, `dev=` with the drive's path, and `-minfo`.
pub fn minfo_command(args: &Args) -> (command: Vec<String>)
    ensures
        command@.len() == 3,
        command@[0]@ == args.minfo_program.spec_name(),
        command@[1]@ == "dev="@ + args.drive@,
        command@[2]@ == "-minfo"@,
{
    let mut command: Vec<String> = Vec::new();
    command.push(minfo_cli(args));
    let mut device = "dev=".to_owned();
    device.append(args.drive.as_str());
    command.push(device);
    command.push("-minfo".to_owned());
    command
}

/// Whether `c` is one of the digits `0` to `9`.
pub open spec fn is_digit(c: char) -> bool {
    '0' <= c <= '9'
}

/// The number that a run of digits writes in base ten; 0 for no digits.
pub open spec fn digits_value(s: Seq<char>) -> nat
    decreases s.len(),
{
    if s.len() == 0 {
        0
    } else {
        (10 * digits_value(s.drop_last()) + (s.last() as u32 - '0' as u32)) as nat
    }
}

/// The number that `s` writes, where `s` is one digit or more and the
/// number is at most `max`.
pub open spec fn decimal_value(s: Seq<char>, max: int) -> Option<int> {
    if s.len() > 0 && (forall|i: int| 0 <= i < s.len() ==> is_digit(#[trigger] s[i]))
        && digits_value(s) <= max {
        Some(digits_value(s) as int)
    } else {
        None
    }
}

/// Digits written after a number make it no smaller.
pub proof fn lemma_digits_grow(s: Seq<char>, k: int)
    requires
        0 <= k <= s.len(),
        forall|i: int| 0 <= i < s.len() ==> is_digit(#[trigger] s[i]),
    ensures
        digits_value(s.take(k)) <= digits_value(s),
    decreases s.len() - k,
{
    if k == s.len() {
        assert(s.take(k) =~= s);
    } else {
        lemma_digits_grow(s, k + 1);
        assert(s.take(k + 1).drop_last() =~= s.take(k));
        assert(is_digit(s[k]));
        assert(s.take(k + 1).last() == s[k]);
    }
}

/// See [`decimal_value`].
pub fn parse_decimal(text: &Vec<char>, max: u64) -> (value: Option<u64>)
    ensures
        match value {
            Some(v) => decimal_value(text@, max as int) == Some(v as int),
            None => decimal_value(text@, max as int) is None,
        },
{
    let n = text.len();
    if n == 0 {
        return None;
    }
    let mut value: u64 = 0;
    let mut i: usize = 0;
    while i < n
        invariant
            i <= n,
            n == text.len(),
            forall|j: int| 0 <= j < i ==> is_digit(#[trigger] text@[j]),
            value == digits_value(text@.take(i as int)),
            value <= max,
        decreases n - i,
    {
        let c = text[i];
        if c < '0' || c > '9' {
            return None;
        }
        let digit: u64 = (c as u32 - '0' as u32) as u64;
        proof {
            assert(text@.take(i + 1).drop_last() =~= text@.take(i as int));
            assert(text@.take(i + 1).last() == c);
        }
        if max < digit || value > (max - digit) / 10 {
            proof {
                assert(digits_value(text@.take(i + 1)) > max);
                if forall|j: int| 0 <= j < text@.len() ==> is_digit(#[trigger] text@[j]) {
                    lemma_digits_grow(text@, i + 1);
                }
            }
            return None;
        }
        value = value * 10 + digit;
        i += 1;
    }
    proof {
        assert(text@.take(n as int) =~= text@);
    }
    Some(value)
}

/// The track that the capture groups of a line of the table describe:
/// groups 1 to 5 are its number, its session, its first and last sector and
/// its size. There is none where a group is missing, or where its text is
/// no number that fits the field.
pub open spec fn track_of_groups(groups: Seq<Option<Seq<char>>>) -> Option<Track> {
    if groups.len() >= 6 && groups[1] is Some && groups[2] is Some && groups[3] is Some
        && groups[4] is Some && groups[5] is Some {
        let track_no = decimal_value(groups[1]->0, u32::MAX as int);
        let session_no = decimal_value(groups[2]->0, u32::MAX as int);
        let start_addr = decimal_value(groups[3]->0, u64::MAX as int);
        let end_addr = decimal_value(groups[4]->0, u64::MAX as int);
        let size = decimal_value(groups[5]->0, u64::MAX as int);
        if track_no is Some && session_no is Some && start_addr is Some && end_addr is Some
            && size is Some {
            Some(
                Track {
                    track_no: track_no->0 as u32,
                    session_no: session_no->0 as u32,
                    start_addr: start_addr->0 as u64,
                    end_addr: end_addr->0 as u64,
                    size: size->0 as u64,
                },
            )
        } else {
            None
        }
    } else {
        None
    }
}

fn group_number(groups: &Vec<Option<String>>, index: usize, max: u64) -> (value: Option<u64>)
    requires
        index < groups.len(),
    ensures
        match value {
            Some(v) => group_texts(groups@)[index as int] matches Some(text) && decimal_value(
                text,
                max as int,
            ) == Some(v as int),
            None => group_texts(groups@)[index as int] matches Some(text) ==> decimal_value(
                text,
                max as int,
            ) is None,
        },
{
    match &groups[index] {
        Some(text) => {
            let chars = chars_of(text.as_str());
            parse_decimal(&chars, max)
        },
        None => None,
    }
}

/// See [`track_of_groups`].
pub fn track_from_groups(groups: &Vec<Option<String>>) -> (track: Option<Track>)
    ensures
        track == track_of_groups(group_texts(groups@)),
{
    if groups.len() < 6 {
        return None;
    }
    let track_no = group_number(groups, 1, 0xffff_ffff);
    let session_no = group_number(groups, 2, 0xffff_ffff);
    let start_addr = group_number(groups, 3, u64::MAX);
    let end_addr = group_number(groups, 4, u64::MAX);
    let size = group_number(groups, 5, u64::MAX);
    match (track_no, session_no, start_addr, end_addr, size) {
        (Some(track_no), Some(session_no), Some(start_addr), Some(end_addr), Some(size)) => Some(
            Track {
                track_no: track_no as u32,
                session_no: session_no as u32,
                start_addr,
                end_addr,
                size,
            },
        ),
        _ => None,
    }
}

/// Whether a line holds the heading of the table of tracks.
pub open spec fn is_header_line(line: Seq<char>) -> bool {
    regex_is_match(TRACKS_HEADER_PATTERN@, line) == Some(true)
}

/// The track that a line of the table describes, if it describes one.
pub open spec fn track_of_line(line: Seq<char>) -> Option<Track> {
    match regex_first_captures(TRACK_LINE_PATTERN@, line) {
        Some(groups) => track_of_groups(groups),
        None => None,
    }
}

/// The index of the first heading line at or after `from`, or the number of
/// lines where there is none.
pub open spec fn first_header(lines: Seq<Seq<char>>, from: int) -> int
    decreases lines.len() - from,
{
    if from >= lines.len() {
        lines.len() as int
    } else if is_header_line(lines[from]) {
        from
    } else {
        first_header(lines, from + 1)
    }
}

/// The index of the first empty line at or after `from`, or the number of
/// lines where there is none.
pub open spec fn first_blank(lines: Seq<Seq<char>>, from: int) -> int
    decreases lines.len() - from,
{
    if from >= lines.len() {
        lines.len() as int
    } else if lines[from].len() == 0 {
        from
    } else {
        first_blank(lines, from + 1)
    }
}

/// Where the rows of the table start: two lines after the heading (the
/// heading and the rule under it), or past the last line.
pub open spec fn rows_start(lines: Seq<Seq<char>>) -> int {
    if first_header(lines, 0) + 2 <= lines.len() {
        first_header(lines, 0) + 2
    } else {
        lines.len() as int
    }
}

/// The tracks that the lines describe, in their order; lines that describe
/// no track are passed over.
pub open spec fn tracks_of_rows(rows: Seq<Seq<char>>) -> Seq<Track>
    decreases rows.len(),
{
    if rows.len() == 0 {
        Seq::empty()
    } else {
        match track_of_line(rows.last()) {
            Some(track) => tracks_of_rows(rows.drop_last()).push(track),
            None => tracks_of_rows(rows.drop_last()),
        }
    }
}

/// The tracks in what the tool prints: those of the rows that follow the
/// heading of the table, up to the first empty line.
pub open spec fn track_info(output: Seq<char>) -> Seq<Track> {
    let lines = lines_of(output);
    let start = rows_start(lines);
    tracks_of_rows(lines.subrange(start, first_blank(lines, start)))
}

/// The track that one line of the table describes, if it describes one.
pub fn track_from_line(line: &Vec<char>) -> (track: Option<Track>)
    ensures
        track == track_of_line(line@),
{
    match regex_captures(TRACK_LINE_PATTERN, line) {
        Some(groups) => track_from_groups(&groups),
        None => None,
    }
}

/// Whether a line holds the heading of the table of tracks.
pub fn is_tracks_header(line: &Vec<char>) -> (found: bool)
    ensures
        found == is_header_line(line@),
{
    match regex_match(TRACKS_HEADER_PATTERN, line) {
        Some(found) => found,
        None => false,
    }
}

/// The rows of the table whose heading is line `header`: they start two
/// lines after it, or past the last line, and stop before the first empty
/// line from there on. Where no line is the heading, `header` is the number
/// of lines.
pub fn rows_after_header(lines: &Vec<Vec<char>>, header: usize) -> (span: (usize, usize))
    requires
        header <= lines.len(),
    ensures
        span.0 == if header + 2 <= lines.len() {
            header + 2
        } else {
            lines.len() as int
        },
        span.0 <= span.1 <= lines.len(),
        span.1 == first_blank(line_views(lines@), span.0 as int),
        forall|i: int| span.0 <= i < span.1 ==> lines@[i]@.len() > 0,
        span.1 < lines.len() ==> lines@[span.1 as int]@.len() == 0,
{
    let n = lines.len();
    let start: usize = if n - header >= 2 {
        header + 2
    } else {
        n
    };
    let ghost rows = line_views(lines@);
    let mut stop: usize = start;
    while stop < n && lines[stop].len() > 0
        invariant
            start <= stop <= n,
            n == lines.len(),
            rows == line_views(lines@),
            first_blank(rows, start as int) == first_blank(rows, stop as int),
            forall|i: int| start <= i < stop ==> lines@[i]@.len() > 0,
        decreases n - stop,
    {
        stop += 1;
    }
    (start, stop)
}

/// See [`track_info`].
pub fn minfo_track_info(output: &str) -> (tracks: Vec<Track>)
    ensures
        tracks@ == track_info(output@),
{
    let text = chars_of(output);
    let lines = split_lines(&text);
    let ghost rows = line_views(lines@);
    let n = lines.len();
    let mut header: usize = 0;
    while header < n && !is_tracks_header(&lines[header])
        invariant
            header <= n,
            n == lines.len(),
            rows == line_views(lines@),
            first_header(rows, 0) == first_header(rows, header as int),
        decreases n - header,
    {
        header += 1;
    }
    let (start, stop) = rows_after_header(&lines, header);
    let mut tracks: Vec<Track> = Vec::new();
    let mut i: usize = start;
    proof {
        assert(rows.subrange(start as int, i as int) =~= Seq::<Seq<char>>::empty());
    }
    while i < stop
        invariant
            start <= i <= stop <= n,
            n == lines.len(),
            rows == line_views(lines@),
            tracks@ == tracks_of_rows(rows.subrange(start as int, i as int)),
        decreases stop - i,
    {
        let found = track_from_line(&lines[i]);
        proof {
            let upto = rows.subrange(start as int, i + 1);
            assert(upto.drop_last() =~= rows.subrange(start as int, i as int));
            assert(upto.last() == lines@[i as int]@);
        }
        match found {
            Some(track) => {
                tracks.push(track);
            },
            None => {},
        }
        i += 1;
    }
    tracks
}

} // verus!
