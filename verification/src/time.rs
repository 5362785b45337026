//! Points in time, as Unix and as Windows count them.
use crate::error::{outcome, TlsError, TlsErrorView};
use vstd::prelude::*;

verus! {

/// Seconds between the Windows epoch, 1 January 1601, and the Unix epoch,
/// 1 January 1970.
pub const UNIX_ADJUSTMENT: u64 = 11_644_473_600;

/// Nanoseconds in a second.
pub const NANOS_PER_SEC: u64 = 1_000_000_000;

/// Nanoseconds in one tick of a [`FileTime`].
pub const NANOS_PER_TICK: u64 = 100;

/// A point in time as Windows represents it: the number of ticks of 100 ns since
/// the Windows epoch, in two halves.
#[derive(Debug, Clone, Copy, PartialEq, Eq, Structural)]
pub struct FileTime {
    pub low: u32,
    pub high: u32,
}

impl FileTime {
    /// The number of ticks since the Windows epoch.
    pub open spec fn ticks(self) -> int {
        self.high * 0x1_0000_0000 + self.low
    }
}

/// Whether a time, in nanoseconds since the Unix epoch, can be counted in whole
/// seconds since the Windows epoch in 64 bits.
pub open spec fn representable(now: i128) -> bool {
    now < (u64::MAX - UNIX_ADJUSTMENT + 1) * NANOS_PER_SEC
}

/// The ticks from the Windows epoch to a time given in nanoseconds since the
/// Unix epoch.
pub open spec fn ticks_at(now: int) -> int {
    (now + UNIX_ADJUSTMENT * NANOS_PER_SEC) / (NANOS_PER_TICK as int)
}

/// The file time that stands for a number of ticks, of which it keeps the low
/// 64 bits.
pub open spec fn file_time_of(ticks: int) -> FileTime {
    FileTime {
        low: (ticks % 0x1_0000_0000) as u32,
        high: (ticks / 0x1_0000_0000 % 0x1_0000_0000) as u32,
    }
}

/// The file time of a time given in nanoseconds since the Unix epoch; an error
/// for a time before that epoch.
pub open spec fn file_time_at(now: i128) -> Result<FileTime, TlsErrorView> {
    if now < 0 {
        Err(TlsErrorView::FailedToGetCurrentTime)
    } else {
        Ok(file_time_of(ticks_at(now as int)))
    }
}

/// Converts a time from nanoseconds since the Unix epoch to a file time.
pub fn file_time(now: i128) -> (result: Result<FileTime, TlsError>)
    requires
        representable(now),
    ensures
        outcome(result) == file_time_at(now),
        now < 0 <==> result == Err::<FileTime, TlsError>(TlsError::FailedToGetCurrentTime),
        now >= 0 <==> result is Ok,
        result matches Ok(time) ==> denotes(time, now as int),
{
    proof {
        law_file_time_denotes_the_time(now);
    }
    if now < 0 {
        return Err(TlsError::FailedToGetCurrentTime);
    }
    let since_unix_epoch: u128 = now as u128;
    let since_windows_epoch: u128 = since_unix_epoch + (UNIX_ADJUSTMENT as u128)
        * (NANOS_PER_SEC as u128);
    let all_ticks: u128 = since_windows_epoch / (NANOS_PER_TICK as u128);
    let intervals: u64 = #[verifier::truncate] (all_ticks as u64);
    let low: u32 = #[verifier::truncate] ((intervals & 0xffff_ffff) as u32);
    let high: u32 = #[verifier::truncate] ((intervals >> 32) as u32);
    proof {
        assert(intervals == all_ticks % 0x1_0000_0000_0000_0000) by (bit_vector)
            requires
                intervals == all_ticks as u64,
        ;
        assert(low == intervals % 0x1_0000_0000) by (bit_vector)
            requires
                low == (intervals & 0xffff_ffff) as u32,
        ;
        assert(high == intervals / 0x1_0000_0000) by (bit_vector)
            requires
                high == (intervals >> 32) as u32,
        ;
        lemma_halves(all_ticks as int);
    }
    Ok(FileTime { low, high })
}

/// `time` stands for the point in time `now`, given in nanoseconds since the Unix epoch:
/// counted from the Windows epoch, which is 11644473600 seconds earlier, the two are less
/// than one tick of 100 ns apart, up to multiples of the 64 bits that the ticks are kept
/// in.
pub open spec fn denotes(time: FileTime, now: int) -> bool {
    let ticks = time.high * 0x1_0000_0000 + time.low;
    let since_windows_epoch = now + 11_644_473_600_000_000_000;
    exists|wraps: int|
        #![trigger wraps * 0x1_0000_0000_0000_0000]
        0 <= since_windows_epoch - 100 * (ticks + wraps * 0x1_0000_0000_0000_0000) < 100
}

/// The file time of a point in time stands for that very point; a time before the Unix
/// epoch has none.
pub proof fn law_file_time_denotes_the_time(now: i128)
    ensures
        now < 0 ==> file_time_at(now) == Err::<FileTime, TlsErrorView>(
            TlsErrorView::FailedToGetCurrentTime,
        ),
        now >= 0 ==> file_time_at(now) is Ok && denotes(file_time_at(now)->Ok_0, now as int),
{
    if now >= 0 {
        let ticks = ticks_at(now as int);
        let time = file_time_of(ticks);
        let wraps = ticks / 0x1_0000_0000_0000_0000;
        lemma_halves(ticks);
        assert(time.high * 0x1_0000_0000 + time.low == ticks % 0x1_0000_0000_0000_0000);
        assert(0 <= now + 11_644_473_600_000_000_000 - 100 * (time.high * 0x1_0000_0000 + time.low
            + wraps * 0x1_0000_0000_0000_0000) < 100);
    }
}

/// Within the range that 64 bits can count, what a file time stands for is exact to the
/// tick, with no wrapping.
pub proof fn law_denoted_time_is_exact(time: FileTime, now: i128)
    requires
        0 <= now,
        now + 11_644_473_600_000_000_000 < 100 * 0x1_0000_0000_0000_0000,
        denotes(time, now as int),
    ensures
        0 <= now + 11_644_473_600_000_000_000 - 100 * (time.high * 0x1_0000_0000 + time.low) < 100,
{
    let ticks = time.high * 0x1_0000_0000 + time.low;
    let since_windows_epoch = now + 11_644_473_600_000_000_000;
    let wraps = choose|wraps: int|
        #![trigger wraps * 0x1_0000_0000_0000_0000]
        0 <= since_windows_epoch - 100 * (ticks + wraps * 0x1_0000_0000_0000_0000) < 100;
    assert(wraps == 0);
}

/// The only times that are left out are those whose count of whole seconds since the
/// Windows epoch does not fit in 64 bits.
pub proof fn law_representable_times(now: i128)
    ensures
        representable(now) <==> now / 1_000_000_000 + 11_644_473_600 <= 0xffff_ffff_ffff_ffff,
{
}

/// The halves of the low 64 bits of a number.
proof fn lemma_halves(n: int)
    requires
        n >= 0,
    ensures
        (n % 0x1_0000_0000_0000_0000) % 0x1_0000_0000 == n % 0x1_0000_0000,
        (n % 0x1_0000_0000_0000_0000) / 0x1_0000_0000 == n / 0x1_0000_0000 % 0x1_0000_0000,
{
}

/// Until the count of ticks overflows 64 bits, far in the future, a file time
/// counts exactly the ticks since the Windows epoch.
pub proof fn law_file_time_counts_ticks(now: i128)
    requires
        0 <= now,
        ticks_at(now as int) < 0x1_0000_0000_0000_0000,
    ensures
        file_time_at(now) matches Ok(time) && time.ticks() == ticks_at(now as int),
{
}

/// A later time never has an earlier file time, as long as the count of ticks
/// does not overflow.
pub proof fn law_file_time_is_monotonic(earlier: i128, later: i128)
    requires
        0 <= earlier <= later,
        ticks_at(later as int) < 0x1_0000_0000_0000_0000,
    ensures
        file_time_at(earlier)->Ok_0.ticks() <= file_time_at(later)->Ok_0.ticks(),
{
    law_file_time_counts_ticks(earlier);
    law_file_time_counts_ticks(later);
}

/// A file time is exact to the tick: it determines the time up to what a tick
/// lasts.
pub proof fn law_file_time_is_exact_to_the_tick(now: i128)
    requires
        0 <= now,
        ticks_at(now as int) < 0x1_0000_0000_0000_0000,
    ensures
        0 <= now + UNIX_ADJUSTMENT * NANOS_PER_SEC - file_time_at(now)->Ok_0.ticks()
            * NANOS_PER_TICK < NANOS_PER_TICK,
{
    law_file_time_counts_ticks(now);
}

} // verus!
