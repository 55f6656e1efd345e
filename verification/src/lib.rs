//! Playback of raw PCM audio stored as sector-addressed tracks on an optical
//! medium: the track arithmetic, the playback engine's state machine, the
//! command protocol and the audio sink's sample queue, with their proofs.

use vstd::prelude::*;

pub mod cli;
pub mod engine;
pub mod engine_laws;
pub mod mailbox;
pub mod minfo;
pub mod playback;
pub mod sink;
pub mod tui;

verus! {

/// The sector size optical discs use is 2048 bytes.
pub const SECTOR_SIZE: u64 = 2048;

/// `start_addr`, `end_addr` and `size` are in sectors (see [`SECTOR_SIZE`]).
#[derive(Debug, Clone, Copy, PartialEq, Eq, Structural)]
pub struct Track {
    pub track_no: u32,
    pub session_no: u32,
    pub start_addr: u64,
    pub end_addr: u64,
    pub size: u64,
}

impl Track {
    /// A track starts no later than it ends, and its two byte offsets fit in
    /// 64 bits.
    pub open spec fn bounds_wf(&self) -> bool {
        &&& self.start_addr <= self.end_addr
        &&& self.end_addr * SECTOR_SIZE <= u64::MAX
    }

    /// A track's bounds are well-formed, and its size in bytes fits in 64
    /// bits.
    pub open spec fn wf(&self) -> bool {
        &&& self.bounds_wf()
        &&& self.size * SECTOR_SIZE <= u64::MAX
    }

    /// Decides [`Track::bounds_wf`].
    pub fn has_valid_bounds(&self) -> (b: bool)
        ensures
            b == self.bounds_wf(),
    {
        self.start_addr <= self.end_addr && self.end_addr <= u64::MAX / SECTOR_SIZE
    }

    /// Decides [`Track::wf`].
    pub fn is_valid(&self) -> (b: bool)
        ensures
            b == self.wf(),
    {
        self.has_valid_bounds() && self.size <= u64::MAX / SECTOR_SIZE
    }

    /// Starting offset in bytes
    pub fn start_offset(&self) -> (offset: u64)
        requires
            self.start_addr * SECTOR_SIZE <= u64::MAX,
        ensures
            offset == self.start_addr * SECTOR_SIZE,
            offset % SECTOR_SIZE == 0,
    {
        self.start_addr * SECTOR_SIZE
    }

    /// Ending offset in bytes
    pub fn end_offset(&self) -> (offset: u64)
        requires
            self.end_addr * SECTOR_SIZE <= u64::MAX,
        ensures
            offset == self.end_addr * SECTOR_SIZE,
            offset % SECTOR_SIZE == 0,
    {
        self.end_addr * SECTOR_SIZE
    }

    /// Track length in bytes
    pub fn size_bytes(&self) -> (bytes: u64)
        requires
            self.size * SECTOR_SIZE <= u64::MAX,
        ensures
            bytes == self.size * SECTOR_SIZE,
            bytes % SECTOR_SIZE == 0,
    {
        self.size * SECTOR_SIZE
    }
}

/// One song of the medium.
#[derive(Debug, Default)]
pub struct SongInfo {
    pub name: String,
    /// Session numbers start from one
    pub session_no: usize,
}

/// What the medium says of itself: a title, the time it was made, and its
/// songs in playing order.
#[derive(Debug, Default)]
pub struct MetaInfo {
    pub title: Option<String>,
    pub creation_time: Option<u64>,
    pub list: Vec<SongInfo>,
}

/// The track that holds song `song` of `meta`: the one whose place among
/// `tracks`, counted from one, is the song's session number.
pub open spec fn song_track(meta: MetaInfo, tracks: Seq<Track>, song: int) -> Option<Track> {
    if 0 <= song < meta.list@.len() && 1 <= meta.list@[song].session_no <= tracks.len() {
        Some(tracks[meta.list@[song].session_no - 1])
    } else {
        None
    }
}

impl MetaInfo {
    /// See [`song_track`].
    pub fn track_of_song(&self, tracks: &Vec<Track>, song: usize) -> (track: Option<Track>)
        ensures
            track == song_track(*self, tracks@, song as int),
    {
        if song >= self.list.len() {
            return None;
        }
        let session_no = self.list[song].session_no;
        if session_no >= 1 && session_no <= tracks.len() {
            Some(tracks[session_no - 1])
        } else {
            None
        }
    }
}

/// The track that holds the medium's meta info: the one whose place among
/// `tracks`, counted from one, is `number`.
pub fn meta_info_track(tracks: &Vec<Track>, number: usize) -> (track: Option<Track>)
    ensures
        track == if 1 <= number <= tracks@.len() {
            Some(tracks@[number - 1])
        } else {
            None
        },
{
    if number >= 1 && number <= tracks.len() {
        Some(tracks[number - 1])
    } else {
        None
    }
}

/// The bytes that `u8::is_ascii_whitespace` takes for white space: space,
/// tab, line feed, form feed and carriage return.
pub open spec fn is_ascii_space(b: u8) -> bool {
    b == 0x20 || b == 0x09 || b == 0x0a || b == 0x0c || b == 0x0d
}

/// `end` is where the first NUL of `raw` stands, or the length of `raw` where
/// it holds none.
pub open spec fn is_text_end(raw: Seq<u8>, end: int) -> bool {
    &&& 0 <= end <= raw.len()
    &&& forall|i: int| 0 <= i < end ==> raw[i] != 0
    &&& end == raw.len() || raw[end] == 0
}

/// `len` is the length of the meta info text at the head of `raw`: the text
/// does not end in white space, and only white space stands between it and
/// the first NUL of `raw`, or the end of `raw`.
pub open spec fn frames_meta_info(raw: Seq<u8>, len: int) -> bool {
    &&& 0 <= len <= raw.len()
    &&& len > 0 ==> !is_ascii_space(raw[len - 1])
    &&& exists|end: int|
        #[trigger] is_text_end(raw, end) && len <= end && forall|i: int|
            len <= i < end ==> is_ascii_space(#[trigger] raw[i])
}

/// The text that [`frames_meta_info`] describes is the only one.
pub proof fn lemma_meta_info_frame_is_unique(raw: Seq<u8>, a: int, b: int)
    requires
        frames_meta_info(raw, a),
        frames_meta_info(raw, b),
    ensures
        a == b,
{
    let end_a = choose|end: int|
        #[trigger] is_text_end(raw, end) && a <= end && forall|i: int|
            a <= i < end ==> is_ascii_space(#[trigger] raw[i]);
    let end_b = choose|end: int|
        #[trigger] is_text_end(raw, end) && b <= end && forall|i: int|
            b <= i < end ==> is_ascii_space(#[trigger] raw[i]);
    if end_a < end_b {
        assert(raw[end_a] == 0);
    }
    if end_b < end_a {
        assert(raw[end_b] == 0);
    }
    if a < b {
        assert(is_ascii_space(raw[b - 1]));
    }
    if b < a {
        assert(is_ascii_space(raw[a - 1]));
    }
}

/// The meta info text at the head of a track: everything before the first
/// NUL, without the white space that ends it.
pub fn meta_info_text(raw: &[u8]) -> (text: &[u8])
    ensures
        frames_meta_info(raw@, text@.len() as int),
        text@ == raw@.take(text@.len() as int),
{
    let n = raw.len();
    let mut end: usize = 0;
    while end < n && raw[end] != 0
        invariant
            end <= n,
            n == raw@.len(),
            forall|i: int| 0 <= i < end ==> raw@[i] != 0,
        decreases n - end,
    {
        end += 1;
    }
    let mut len: usize = end;
    while len > 0 && (raw[len - 1] == 0x20 || raw[len - 1] == 0x09 || raw[len - 1] == 0x0a
        || raw[len - 1] == 0x0c || raw[len - 1] == 0x0d)
        invariant
            len <= end <= n,
            n == raw@.len(),
            forall|i: int| len <= i < end ==> is_ascii_space(#[trigger] raw@[i]),
        decreases len,
    {
        len -= 1;
    }
    assert(is_text_end(raw@, end as int));
    vstd::slice::slice_subrange(raw, 0, len)
}

} // verus!
