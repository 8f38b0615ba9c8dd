//! The CD player's state: the disc's table of contents, the track being
//! played, and the play/pause/seek timeline. Times are milliseconds of a
//! monotonic clock that the caller reads; the audio output itself is driven
//! by the caller as the returned values say.
use vstd::prelude::*;

verus! {

/// The status of the CD player.
#[derive(PartialEq, Eq, Structural, Clone, Copy, Debug)]
pub enum PlayerStatus {
    NoDisc,
    DataDisc,
    Scanning,
    Stopped,
    Loading,
    Playing,
    Paused,
}

/// A track of the disc's table of contents.
#[derive(PartialEq, Eq, Structural, Clone, Copy, Debug)]
pub struct TocTrack {
    pub number: u8,
    pub start_lba: u32,
    /// Start as minutes, seconds and frames.
    pub start_minute: u8,
    pub start_second: u8,
    pub start_frame: u8,
    pub is_audio: bool,
}

/// A disc's table of contents.
pub struct Toc {
    pub tracks: Vec<TocTrack>,
    pub leadout_lba: u32,
}

/// The player.
pub struct CdPlayerBackend {
    pub status: PlayerStatus,
    pub toc: Option<Toc>,
    pub current_track: usize,
    /// Whole seconds.
    pub track_duration: u64,
    /// When playback (re)started, shifted back by the part already played.
    pub playback_start_time: Option<i64>,
    pub paused_elapsed_time: Option<u64>,
    /// The samples of the loaded track are kept for seeking.
    pub has_track_data: bool,
}

/// Sectors per second of CD audio.
pub const FRAMES_PER_SECOND: u32 = 75;

/// Whether a table of contents is of an audio disc: it has tracks and every
/// track is audio.
pub open spec fn is_audio_disc(tracks: Seq<TocTrack>) -> bool {
    tracks.len() > 0 && forall|k: int| 0 <= k < tracks.len() ==> (#[trigger] tracks[k]).is_audio
}

/// The sector where track `k` ends: the next track's start, or the disc's
/// lead-out for the last track.
pub open spec fn track_end(tracks: Seq<TocTrack>, leadout: u32, k: int) -> int {
    if k == tracks.len() - 1 {
        leadout as int
    } else {
        tracks[k + 1].start_lba as int
    }
}

/// Whether every track ends at or after its start.
pub open spec fn toc_ordered(t: Toc) -> bool {
    forall|k: int| 0 <= k < t.tracks@.len() ==> t.tracks@[k].start_lba <= #[trigger] track_end(t.tracks@, t.leadout_lba, k)
}

/// Milliseconds played since `start`, at `now`; zero when `start` is ahead.
pub open spec fn since(start: i64, now: i64) -> int {
    if now >= start {
        now - start
    } else {
        0
    }
}

/// The part of the track already played, at `now`.
pub open spec fn elapsed_at(b: CdPlayerBackend, now: i64) -> int {
    if b.status == PlayerStatus::Playing {
        match b.playback_start_time {
            Some(s) => since(s, now),
            None => 0,
        }
    } else if b.status == PlayerStatus::Paused {
        match b.paused_elapsed_time {
            Some(p) => p as int,
            None => 0,
        }
    } else {
        0
    }
}

/// Clock values stay far from the ends of `i64`.
pub open spec fn sane_clock(t: int) -> bool {
    -0x2000_0000_0000_0000 <= t <= 0x2000_0000_0000_0000
}

/// Whether the player can seek: a track is playing or paused and its
/// samples are loaded.
pub open spec fn can_seek(b: CdPlayerBackend) -> bool {
    (b.status == PlayerStatus::Playing || b.status == PlayerStatus::Paused) && b.has_track_data
}

/// Where a seek of `delta` milliseconds lands: forward not past the end of
/// the track, back not before its start.
pub open spec fn seek_target(b: CdPlayerBackend, delta: int, forward: bool, now: i64) -> int {
    let e = elapsed_at(b, now);
    if forward {
        if e + delta < b.track_duration * 1000 {
            e + delta
        } else {
            b.track_duration * 1000
        }
    } else if e >= delta {
        e - delta
    } else {
        0
    }
}

/// The player after a seek.
pub open spec fn after_seek(b: CdPlayerBackend, delta: int, forward: bool, now: i64) -> CdPlayerBackend {
    if !can_seek(b) {
        b
    } else if b.status == PlayerStatus::Paused {
        CdPlayerBackend { paused_elapsed_time: Some(seek_target(b, delta, forward, now) as u64), ..b }
    } else {
        CdPlayerBackend { playback_start_time: Some((now - seek_target(b, delta, forward, now)) as i64), ..b }
    }
}

/// A seek moves the position the right way. Forward from a position within
/// the track it never goes back, lands `delta` further on when that is
/// still within the track, and otherwise at its end; back it never goes
/// forward, lands `delta` earlier when there is that much before, and
/// otherwise at the start. A player that can seek then reports the new
/// position as its elapsed time; one that cannot is left as it was.
pub proof fn law_seek_direction(b: CdPlayerBackend, delta: int, now: i64)
    requires
        0 <= delta <= 0x1000_0000_0000_0000,
        sane_clock(now as int),
        b.playback_start_time matches Some(s) ==> sane_clock(s as int),
        b.paused_elapsed_time matches Some(p) ==> p <= 0x4000_0000_0000_0000,
        b.track_duration <= 0x1000_0000_0000,
    ensures
        ({
            let e = elapsed_at(b, now);
            let end = b.track_duration * 1000;
            let f = seek_target(b, delta, true, now);
            let k = seek_target(b, delta, false, now);
            &&& e <= end ==> e <= f <= end
            &&& e + delta <= end ==> f == e + delta
            &&& e + delta > end ==> f == end
            &&& 0 <= k <= e
            &&& delta <= e ==> k == e - delta
            &&& delta > e ==> k == 0
            &&& can_seek(b) ==> elapsed_at(after_seek(b, delta, true, now), now) == f
            &&& can_seek(b) ==> elapsed_at(after_seek(b, delta, false, now), now) == k
            &&& !can_seek(b) ==> after_seek(b, delta, true, now) == b && after_seek(b, delta, false, now) == b
        }),
{
    let e = elapsed_at(b, now);
    assert(0 <= e <= 0x4000_0000_0000_0000);
    let f = seek_target(b, delta, true, now);
    let k = seek_target(b, delta, false, now);
    assert(0 <= f <= 0x4000_0000_0000_0000 + 0x1000_0000_0000_0000);
    if can_seek(b) && b.status == PlayerStatus::Playing {
        assert(since((now - f) as i64, now) == f);
        assert(since((now - k) as i64, now) == k);
    }
}

/// The player after a pause: a playing track with an output pauses and
/// remembers how much was played.
pub open spec fn after_pause(b: CdPlayerBackend, has_sink: bool, now: i64) -> CdPlayerBackend {
    if has_sink && b.status == PlayerStatus::Playing {
        CdPlayerBackend {
            status: PlayerStatus::Paused,
            paused_elapsed_time: match b.playback_start_time {
                Some(s) => Some(since(s, now) as u64),
                None => b.paused_elapsed_time,
            },
            ..b
        }
    } else {
        b
    }
}

/// The player after a resume: a paused track with an output plays on, its
/// start shifted back by what was played.
pub open spec fn after_resume(b: CdPlayerBackend, has_sink: bool, now: i64) -> CdPlayerBackend {
    if has_sink && b.status == PlayerStatus::Paused {
        CdPlayerBackend {
            status: PlayerStatus::Playing,
            playback_start_time: Some(
                (now - (match b.paused_elapsed_time {
                    Some(p) => p as int,
                    None => 0,
                })) as i64,
            ),
            ..b
        }
    } else {
        b
    }
}

/// Pausing a playing track at `t1` and resuming it at `t2` plays on from
/// where it was paused: at `t2` the elapsed time is what it was at `t1`,
/// and nothing else changes. A resume without an output, or of a player
/// that is not paused, changes nothing.
pub proof fn law_pause_then_resume(b: CdPlayerBackend, t1: i64, t2: i64)
    requires
        b.status == PlayerStatus::Playing,
        b.playback_start_time matches Some(s) && sane_clock(s as int),
        sane_clock(t1 as int),
        sane_clock(t2 as int),
    ensures
        ({
            let r = after_resume(after_pause(b, true, t1), true, t2);
            &&& r.status == PlayerStatus::Playing
            &&& elapsed_at(r, t2) == elapsed_at(b, t1)
            &&& r.toc == b.toc && r.current_track == b.current_track && r.track_duration == b.track_duration
            &&& r.has_track_data == b.has_track_data
        }),
        forall|t: i64| #[trigger] after_resume(b, false, t) == b,
        forall|c: CdPlayerBackend, t: i64| c.status != PlayerStatus::Paused ==> #[trigger] after_resume(c, true, t) == c,
{
    let s = b.playback_start_time->0;
    let e = since(s, t1);
    assert(0 <= e <= 0x4000_0000_0000_0000);
    let p = after_pause(b, true, t1);
    assert(p.paused_elapsed_time == Some(e as u64));
    let r = after_resume(p, true, t2);
    assert(r.playback_start_time == Some((t2 - e) as i64));
    assert(since((t2 - e) as i64, t2) == e);
}

/// The player after an internal stop: no track loaded, and stopped unless
/// there is no audio disc.
pub open spec fn after_stop_internal(b: CdPlayerBackend) -> CdPlayerBackend {
    CdPlayerBackend {
        status: if b.status == PlayerStatus::NoDisc || b.status == PlayerStatus::DataDisc {
            b.status
        } else {
            PlayerStatus::Stopped
        },
        playback_start_time: None,
        paused_elapsed_time: None,
        has_track_data: false,
        ..b
    }
}

impl CdPlayerBackend {
    /// A player about to look at the drive.
    pub fn new() -> (r: CdPlayerBackend)
        ensures
            r.status == PlayerStatus::Scanning,
            r.toc is None,
            r.current_track == 0,
            r.track_duration == 0,
            r.playback_start_time is None,
            r.paused_elapsed_time is None,
            !r.has_track_data,
    {
        CdPlayerBackend {
            status: PlayerStatus::Scanning,
            toc: None,
            current_track: 0,
            track_duration: 0,
            playback_start_time: None,
            paused_elapsed_time: None,
            has_track_data: false,
        }
    }

    /// Takes the result of reading the drive: `None` when it could not be
    /// opened, or the table of contents or the read error. An audio disc
    /// stops the player with its contents; a disc with no tracks or with a
    /// data track is a data disc; no drive or a failed read is no disc.
    pub fn scan_disc(&mut self, read: Option<Result<Toc, String>>)
        ensures
            match read {
                Some(Ok(t)) => if is_audio_disc(t.tracks@) {
                    final(self).status == PlayerStatus::Stopped && final(self).toc == Some(t)
                } else {
                    final(self).status == PlayerStatus::DataDisc && final(self).toc is None
                },
                _ => final(self).status == PlayerStatus::NoDisc && final(self).toc is None,
            },
            final(self).current_track == old(self).current_track,
            final(self).track_duration == old(self).track_duration,
            final(self).playback_start_time == old(self).playback_start_time,
            final(self).paused_elapsed_time == old(self).paused_elapsed_time,
            final(self).has_track_data == old(self).has_track_data,
    {
        self.status = PlayerStatus::Scanning;
        self.toc = None;
        match read {
            Some(Ok(toc)) => {
                let mut all_audio = true;
                let mut i: usize = 0;
                while i < toc.tracks.len()
                    invariant
                        0 <= i <= toc.tracks.len(),
                        all_audio == (forall|k: int| 0 <= k < i ==> (#[trigger] toc.tracks@[k]).is_audio),
                    decreases toc.tracks.len() - i,
                {
                    if !toc.tracks[i].is_audio {
                        all_audio = false;
                    }
                    i = i + 1;
                }
                if toc.tracks.len() > 0 && all_audio {
                    self.status = PlayerStatus::Stopped;
                    self.toc = Some(toc);
                } else {
                    self.status = PlayerStatus::DataDisc;
                    self.toc = None;
                }
            },
            _ => {
                self.status = PlayerStatus::NoDisc;
            },
        }
    }

    /// Stops playback and forgets the loaded track; a player with a disc
    /// comes to a stop.
    pub fn stop_internal(&mut self)
        ensures
            *final(self) == after_stop_internal(*old(self)),
    {
        self.playback_start_time = None;
        self.paused_elapsed_time = None;
        self.has_track_data = false;
        if self.status != PlayerStatus::NoDisc && self.status != PlayerStatus::DataDisc {
            self.status = PlayerStatus::Stopped;
        }
    }

    /// Stops playback, whatever the disc.
    pub fn stop(&mut self)
        ensures
            *final(self) == (CdPlayerBackend { status: PlayerStatus::Stopped, ..after_stop_internal(*old(self)) }),
    {
        self.stop_internal();
        self.status = PlayerStatus::Stopped;
    }

    /// First step of playing track `index`: stop what plays, and work out
    /// the track's length in whole seconds from its sectors. Returns the
    /// track's number for reading it from the drive, or `None` (and stops)
    /// when there is no such track.
    pub fn begin_play(&mut self, index: usize) -> (r: Option<u8>)
        requires
            old(self).toc matches Some(t) ==> toc_ordered(t),
        ensures
            final(self).current_track == index,
            final(self).playback_start_time is None,
            final(self).paused_elapsed_time is None,
            !final(self).has_track_data,
            final(self).toc == old(self).toc,
            match old(self).toc {
                Some(t) => if index < t.tracks@.len() {
                    r == Some(t.tracks@[index as int].number) && final(self).status == PlayerStatus::Loading
                        && final(self).track_duration == (track_end(t.tracks@, t.leadout_lba, index as int)
                        - t.tracks@[index as int].start_lba) / (FRAMES_PER_SECOND as int)
                } else {
                    r is None && final(self).status == PlayerStatus::Stopped
                        && final(self).track_duration == old(self).track_duration
                },
                None => r is None && final(self).status == PlayerStatus::Stopped && final(self).track_duration
                    == old(self).track_duration,
            },
    {
        self.stop_internal();
        self.status = PlayerStatus::Loading;
        self.current_track = index;
        match &self.toc {
            None => {
                self.status = PlayerStatus::Stopped;
                None
            },
            Some(toc) => {
                if index >= toc.tracks.len() {
                    self.status = PlayerStatus::Stopped;
                    return None;
                }
                let track = toc.tracks[index];
                let end_lba = if index == toc.tracks.len() - 1 {
                    toc.leadout_lba
                } else {
                    toc.tracks[index + 1].start_lba
                };
                proof {
                    assert(track.start_lba <= track_end(toc.tracks@, toc.leadout_lba, index as int));
                }
                let total = end_lba - track.start_lba;
                self.track_duration = (total / FRAMES_PER_SECOND) as u64;
                Some(track.number)
            },
        }
    }

    /// Reading the track failed: the player stops.
    pub fn load_failed(&mut self)
        ensures
            final(self).status == PlayerStatus::Stopped,
            final(self).toc == old(self).toc,
            final(self).current_track == old(self).current_track,
            final(self).track_duration == old(self).track_duration,
            final(self).playback_start_time == old(self).playback_start_time,
            final(self).paused_elapsed_time == old(self).paused_elapsed_time,
            final(self).has_track_data == old(self).has_track_data,
    {
        self.status = PlayerStatus::Stopped;
    }

    /// The track is read: playback starts at `now`, unless the player left
    /// the loading state meanwhile. Returns whether it started.
    pub fn start_playing(&mut self, now: i64) -> (started: bool)
        ensures
            started == (old(self).status == PlayerStatus::Loading),
            started ==> final(self).status == PlayerStatus::Playing && final(self).playback_start_time
                == Some(now) && final(self).paused_elapsed_time is None && final(self).has_track_data
                && final(self).toc == old(self).toc && final(self).current_track == old(self).current_track
                && final(self).track_duration == old(self).track_duration,
            !started ==> *final(self) == *old(self),
    {
        if self.status != PlayerStatus::Loading {
            return false;
        }
        self.status = PlayerStatus::Playing;
        self.playback_start_time = Some(now);
        self.paused_elapsed_time = None;
        self.has_track_data = true;
        true
    }

    /// The part of the track already played, in milliseconds.
    pub fn elapsed(&self, now: i64) -> (r: u64)
        requires
            sane_clock(now as int),
            self.playback_start_time matches Some(s) ==> sane_clock(s as int),
        ensures
            r == elapsed_at(*self, now),
    {
        if self.status == PlayerStatus::Playing {
            match self.playback_start_time {
                Some(s) => if now >= s {
                    (now - s) as u64
                } else {
                    0
                },
                None => 0,
            }
        } else if self.status == PlayerStatus::Paused {
            match self.paused_elapsed_time {
                Some(p) => p,
                None => 0,
            }
        } else {
            0
        }
    }

    /// Seeks `delta` milliseconds forward (not past the end of the track)
    /// or back (not before its start). Only a playing or paused track with
    /// its samples loaded can seek; the new position is returned for the
    /// caller to restart the output there (paused if the player is paused).
    pub fn seek(&mut self, delta: u64, forward: bool, now: i64) -> (r: Option<u64>)
        requires
            sane_clock(now as int),
            old(self).playback_start_time matches Some(s) ==> sane_clock(s as int),
            delta <= 0x1000_0000_0000_0000,
            old(self).paused_elapsed_time matches Some(p) ==> p <= 0x4000_0000_0000_0000,
            old(self).track_duration <= 0x1000_0000_0000,
        ensures
            *final(self) == after_seek(*old(self), delta as int, forward, now),
            r == (if can_seek(*old(self)) {
                Some(seek_target(*old(self), delta as int, forward, now) as u64)
            } else {
                None
            }),
    {
        if self.status != PlayerStatus::Playing && self.status != PlayerStatus::Paused {
            return None;
        }
        if !self.has_track_data {
            return None;
        }
        let current = if self.status == PlayerStatus::Playing {
            match self.playback_start_time {
                Some(s) => if now >= s {
                    (now - s) as u64
                } else {
                    0
                },
                None => 0,
            }
        } else {
            match self.paused_elapsed_time {
                Some(p) => p,
                None => 0,
            }
        };
        let new_time = if forward {
            let total = self.track_duration * 1000;
            if current + delta < total {
                current + delta
            } else {
                total
            }
        } else if current >= delta {
            current - delta
        } else {
            0
        };
        if self.status == PlayerStatus::Paused {
            self.paused_elapsed_time = Some(new_time);
        } else {
            self.playback_start_time = Some(now - new_time as i64);
        }
        Some(new_time)
    }

    /// Pauses a playing track, remembering how much was played.
    pub fn pause(&mut self, has_sink: bool, now: i64)
        requires
            sane_clock(now as int),
            old(self).playback_start_time matches Some(s) ==> sane_clock(s as int),
        ensures
            *final(self) == after_pause(*old(self), has_sink, now),
    {
        if has_sink && self.status == PlayerStatus::Playing {
            self.status = PlayerStatus::Paused;
            match self.playback_start_time {
                Some(s) => {
                    let e = if now >= s {
                        (now - s) as u64
                    } else {
                        0
                    };
                    self.paused_elapsed_time = Some(e);
                },
                None => {},
            }
        }
    }

    /// Resumes a paused track, shifting its start back by what was played.
    pub fn resume(&mut self, has_sink: bool, now: i64)
        requires
            sane_clock(now as int),
            old(self).paused_elapsed_time matches Some(p) ==> p <= 0x4000_0000_0000_0000,
        ensures
            *final(self) == after_resume(*old(self), has_sink, now),
    {
        if has_sink && self.status == PlayerStatus::Paused {
            self.status = PlayerStatus::Playing;
            let p = match self.paused_elapsed_time {
                Some(p) => p,
                None => 0,
            };
            self.playback_start_time = Some(now - p as i64);
        }
    }
}

/// The samples of raw CD audio: little-endian 16-bit pairs of bytes; an odd
/// last byte is dropped.
pub open spec fn pcm_samples(bytes: Seq<u8>) -> Seq<i16> {
    Seq::new(
        bytes.len() / 2,
        |k: int| (bytes[2 * k] as int + 256 * bytes[2 * k + 1] as int - (if bytes[2 * k + 1] >= 128 {
            65536int
        } else {
            0
        })) as i16,
    )
}

/// Decodes raw CD audio into 16-bit samples.
pub fn pcm_from_le_bytes(bytes: &[u8]) -> (r: Vec<i16>)
    ensures
        r@ == pcm_samples(bytes@),
{
    let mut r: Vec<i16> = Vec::new();
    let n = bytes.len() / 2;
    let mut k: usize = 0;
    while k < n
        invariant
            0 <= k <= n,
            n == bytes.len() / 2,
            r@.len() == k,
            forall|j: int| 0 <= j < k ==> r@[j] == #[trigger] pcm_samples(bytes@)[j],
        decreases n - k,
    {
        let lo = bytes[2 * k] as i32;
        let hi = bytes[2 * k + 1] as i32;
        let v: i32 = lo + 256 * hi - (if hi >= 128 { 65536i32 } else { 0i32 });
        r.push(v as i16);
        k = k + 1;
    }
    assert(r@ =~= pcm_samples(bytes@));
    r
}

} // verus!
