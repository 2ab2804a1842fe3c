//! The logging settings as the logger applies them: the level, the notice
//! printed at start, and which old log files are removed.
use vstd::prelude::*;
use crate::text::{lowercase_text, owned, spec_lowercase, starts_with, str_eq, str_starts_with};

verus! {

/// How much is logged.
#[derive(Debug, Clone, Copy, PartialEq, Eq, Structural)]
pub enum LogLevel {
    Trace,
    Debug,
    Info,
    Warn,
    Error,
}

/// The level a lowercase level name selects: `info` for any name but
/// `trace`, `debug`, `warn` and `error`.
pub open spec fn level_named(name: Seq<char>) -> LogLevel {
    if name == "trace"@ {
        LogLevel::Trace
    } else if name == "debug"@ {
        LogLevel::Debug
    } else if name == "warn"@ {
        LogLevel::Warn
    } else if name == "error"@ {
        LogLevel::Error
    } else {
        LogLevel::Info
    }
}

/// The level of the configured level name, read without regard to case.
pub fn log_level_of(level: &str) -> (r: LogLevel)
    ensures
        r == level_named(spec_lowercase(level@)),
{
    let name = lowercase_text(level);
    let n = name.as_str();
    if str_eq(n, "trace") {
        LogLevel::Trace
    } else if str_eq(n, "debug") {
        LogLevel::Debug
    } else if str_eq(n, "warn") {
        LogLevel::Warn
    } else if str_eq(n, "error") {
        LogLevel::Error
    } else {
        LogLevel::Info
    }
}

/// The line printed when the logger starts: the configured file, or the
/// default one.
pub fn logging_notice(configured: Option<&str>, default_path: &str) -> (r: String)
    ensures
        r@ == match configured {
            Some(f) => "Logging to file: "@ + f@ + " (with rotation)"@,
            None => "No log file configured. Logging to default file: "@ + default_path@
                + " (with rotation)"@,
        },
{
    match configured {
        Some(f) => {
            let mut r = owned("Logging to file: ");
            r.append(f);
            r.append(" (with rotation)");
            r
        },
        None => {
            let mut r = owned("No log file configured. Logging to default file: ");
            r.append(default_path);
            r.append(" (with rotation)");
            r
        },
    }
}

/// The size at which the log file is rotated: the configured megabytes in
/// bytes, where that fits in 64 bits.
pub fn max_log_size_bytes(max_file_size_mb: u64) -> (r: Option<u64>)
    ensures
        match r {
            Some(n) => n == max_file_size_mb * 1024 * 1024,
            None => max_file_size_mb * 1024 * 1024 > u64::MAX,
        },
{
    match max_file_size_mb.checked_mul(1024 * 1024) {
        Some(n) => Some(n),
        None => None,
    }
}

/// A file found in the log directory: its name and when it was last
/// modified, in nanoseconds from the Unix epoch (the epoch where unknown).
#[derive(Debug, Clone)]
pub struct LogFileEntry {
    pub name: String,
    pub modified_nanos: i128,
}

/// The name is that of a backup of the log `filename`: `{filename}.log.`
/// followed by anything.
pub open spec fn is_backup_name(name: Seq<char>, filename: Seq<char>) -> bool {
    starts_with(name, filename + ".log."@)
}

/// The backups among `entries`, as their modification time and position, in
/// the order found.
pub open spec fn backup_keys(entries: Seq<LogFileEntry>, filename: Seq<char>) -> Seq<(i128, int)>
    decreases entries.len(),
{
    if entries.len() == 0 {
        Seq::empty()
    } else {
        let rest = backup_keys(entries.drop_last(), filename);
        if is_backup_name(entries.last().name@, filename) {
            rest.push((entries.last().modified_nanos, entries.len() - 1))
        } else {
            rest
        }
    }
}

/// Newest first; among files modified at the same time, in the order found
/// (a stable sort by time).
pub open spec fn newest_first() -> spec_fn((i128, int), (i128, int)) -> bool {
    |a: (i128, int), b: (i128, int)| a.0 > b.0 || (a.0 == b.0 && a.1 <= b.1)
}

/// The backups to remove: all but the `max_backups` newest.
pub open spec fn backups_removed(entries: Seq<LogFileEntry>, filename: Seq<char>, max_backups: nat) -> Seq<
    Seq<char>,
> {
    let sorted = backup_keys(entries, filename).sort_by(newest_first());
    if sorted.len() > max_backups {
        sorted.skip(max_backups as int).map_values(|k: (i128, int)| entries[k.1].name@)
    } else {
        Seq::empty()
    }
}

/// Newest first is a total order.
proof fn lemma_newest_first_total()
    ensures
        vstd::relations::total_ordering(newest_first()),
{
}

/// Every key refers to an entry.
proof fn lemma_backup_keys_in_range(entries: Seq<LogFileEntry>, filename: Seq<char>)
    ensures
        forall|i: int|
            0 <= i < backup_keys(entries, filename).len() ==> 0 <= (#[trigger] backup_keys(
                entries,
                filename,
            )[i]).1 < entries.len(),
    decreases entries.len(),
{
    if entries.len() > 0 {
        lemma_backup_keys_in_range(entries.drop_last(), filename);
        let rest = backup_keys(entries.drop_last(), filename);
        let all = backup_keys(entries, filename);
        assert forall|i: int| 0 <= i < all.len() implies 0 <= (#[trigger] all[i]).1 < entries.len() by {
            if i < rest.len() {
                assert(all[i] == rest[i]);
            }
        }
    }
}

/// The names of the old backups of the log `filename` to remove, keeping
/// the `max_backups` newest.
pub fn backups_to_remove(filename: &str, entries: &Vec<LogFileEntry>, max_backups: u32) -> (r: Vec<
    String,
>)
    ensures
        crate::messages::string_views(r@) == backups_removed(entries@, filename@, max_backups as nat),
{
    let mut pattern = owned(filename);
    pattern.append(".log.");
    let mut keys: Vec<(i128, usize)> = Vec::new();
    let mut i: usize = 0;
    while i < entries.len()
        invariant
            i <= entries.len(),
            pattern@ == filename@ + ".log."@,
            keys@.map_values(|k: (i128, usize)| (k.0, k.1 as int)) == backup_keys(
                entries@.take(i as int),
                filename@,
            ),
        decreases entries.len() - i,
    {
        proof {
            assert(entries@.take(i + 1).drop_last() =~= entries@.take(i as int));
            assert(entries@.take(i + 1).last() == entries@[i as int]);
        }
        if str_starts_with(entries[i].name.as_str(), pattern.as_str()) {
            let ghost before = keys@;
            keys.push((entries[i].modified_nanos, i));
            proof {
                assert(keys@.map_values(|k: (i128, usize)| (k.0, k.1 as int)) =~= before.map_values(
                    |k: (i128, usize)| (k.0, k.1 as int),
                ).push((entries@[i as int].modified_nanos, i as int)));
            }
        }
        i = i + 1;
    }
    proof {
        assert(entries@.take(entries.len() as int) =~= entries@);
    }
    let ghost input = keys@.map_values(|k: (i128, usize)| (k.0, k.1 as int));
    let mut sorted: Vec<(i128, usize)> = Vec::new();
    let mut n: usize = 0;
    proof {
        lemma_newest_first_total();
        assert(sorted@.map_values(|k: (i128, usize)| (k.0, k.1 as int)) =~= Seq::<(i128, int)>::empty());
        assert(input.take(0) =~= Seq::<(i128, int)>::empty());
    }
    while n < keys.len()
        invariant
            n <= keys.len(),
            input == keys@.map_values(|k: (i128, usize)| (k.0, k.1 as int)),
            vstd::relations::total_ordering(newest_first()),
            vstd::relations::sorted_by(
                sorted@.map_values(|k: (i128, usize)| (k.0, k.1 as int)),
                newest_first(),
            ),
            sorted@.map_values(|k: (i128, usize)| (k.0, k.1 as int)).to_multiset() == input.take(
                n as int,
            ).to_multiset(),
        decreases keys.len() - n,
    {
        let x = keys[n];
        let ghost xv = (x.0, x.1 as int);
        let ghost sv = sorted@.map_values(|k: (i128, usize)| (k.0, k.1 as int));
        let mut j: usize = 0;
        while j < sorted.len() && (sorted[j].0 > x.0 || (sorted[j].0 == x.0 && sorted[j].1 <= x.1))
            invariant
                j <= sorted.len(),
                sv == sorted@.map_values(|k: (i128, usize)| (k.0, k.1 as int)),
                xv == (x.0, x.1 as int),
                forall|k: int| 0 <= k < j ==> newest_first()(#[trigger] sv[k], xv),
            decreases sorted.len() - j,
        {
            proof {
                assert(sv[j as int] == (sorted@[j as int].0, sorted@[j as int].1 as int));
            }
            j = j + 1;
        }
        proof {
            if j < sorted.len() {
                assert(sv[j as int] == (sorted@[j as int].0, sorted@[j as int].1 as int));
                assert(!newest_first()(sv[j as int], xv));
                assert(newest_first()(xv, sv[j as int]));
            }
        }
        sorted.insert(j, x);
        proof {
            let nv = sorted@.map_values(|k: (i128, usize)| (k.0, k.1 as int));
            assert(nv =~= sv.insert(j as int, xv));
            vstd::seq_lib::to_multiset_insert(sv, j as int, xv);
            assert(input[n as int] == xv);
            assert(input.take(n + 1) =~= input.take(n as int).push(xv));
            vstd::seq_lib::to_multiset_build(input.take(n as int), xv);
            assert(nv.to_multiset() =~= input.take(n + 1).to_multiset());
            assert forall|a: int, b: int| 0 <= a < b < nv.len() implies #[trigger] newest_first()(
                nv[a],
                nv[b],
            ) by {
                if b < j {
                    assert(nv[a] == sv[a] && nv[b] == sv[b]);
                } else if b == j {
                    assert(nv[a] == sv[a] && nv[b] == xv);
                } else if a < j {
                    assert(nv[a] == sv[a] && nv[b] == sv[b - 1]);
                } else if a == j {
                    assert(nv[a] == xv && nv[b] == sv[b - 1]);
                    if j as int != b - 1 {
                        assert(newest_first()(sv[j as int], sv[b - 1]));
                    }
                } else {
                    assert(nv[a] == sv[a - 1] && nv[b] == sv[b - 1]);
                }
            }
        }
        n = n + 1;
    }
    let ghost sortedv = sorted@.map_values(|k: (i128, usize)| (k.0, k.1 as int));
    proof {
        assert(input.take(keys.len() as int) =~= input);
        assert(input =~= backup_keys(entries@, filename@));
        input.lemma_sort_by_ensures(newest_first());
        vstd::seq_lib::lemma_sorted_unique(sortedv, input.sort_by(newest_first()), newest_first());
        lemma_backup_keys_in_range(entries@, filename@);
        assert forall|t: int| 0 <= t < sortedv.len() implies 0 <= (#[trigger] sortedv[t]).1
            < entries@.len() by {
            assert(sortedv.contains(sortedv[t]));
            assert(input.contains(sortedv[t]));
            let i = choose|i: int| 0 <= i < input.len() && input[i] == sortedv[t];
            assert(0 <= input[i].1 < entries@.len());
        }
    }
    let mut removed: Vec<String> = Vec::new();
    let keep = max_backups as usize;
    if sorted.len() > keep {
        let mut k: usize = keep;
        while k < sorted.len()
            invariant
                keep <= k <= sorted.len(),
                keep == max_backups as usize,
                sortedv == sorted@.map_values(|k: (i128, usize)| (k.0, k.1 as int)),
                sortedv == backup_keys(entries@, filename@).sort_by(newest_first()),
                forall|t: int| 0 <= t < sortedv.len() ==> 0 <= (#[trigger] sortedv[t]).1 < entries@.len(),
                crate::messages::string_views(removed@) == sortedv.subrange(keep as int, k as int).map_values(
                    |kk: (i128, int)| entries@[kk.1].name@,
                ),
            decreases sorted.len() - k,
        {
            proof {
                assert(sortedv[k as int] == (sorted@[k as int].0, sorted@[k as int].1 as int));
                assert(backup_keys(entries@, filename@).sort_by(newest_first()).contains(sortedv[k as int]));
            }
            let idx = sorted[k].1;
            proof {
                assert(0 <= sortedv[k as int].1 < entries@.len());
            }
            let ghost before = removed@;
            removed.push(entries[idx].name.clone());
            proof {
                assert(sortedv.subrange(keep as int, k + 1) =~= sortedv.subrange(keep as int, k as int).push(
                    sortedv[k as int],
                ));
                assert(crate::messages::string_views(removed@) =~= crate::messages::string_views(
                    before,
                ).push(entries@[idx as int].name@));
            }
            k = k + 1;
        }
        proof {
            assert(sortedv.subrange(keep as int, sorted.len() as int) =~= sortedv.skip(keep as int));
        }
    } else {
        proof {
            assert(crate::messages::string_views(removed@) =~= Seq::<Seq<char>>::empty());
        }
    }
    removed
}

/// How much of its size limit the current log file has used.
pub struct LogSizeTracker {
    /// Bytes in the current log file.
    pub current_size: u64,
    /// Size at which the file is moved aside and a new one started.
    pub max_size: u64,
}

impl LogSizeTracker {
    /// A tracker for a file that already holds `current_size` bytes.
    pub fn new(current_size: u64, max_size: u64) -> (r: Self)
        ensures
            r.current_size == current_size,
            r.max_size == max_size,
    {
        LogSizeTracker { current_size, max_size }
    }

    /// Counts `written` more bytes in the current file.
    pub fn record_write(&mut self, written: u64)
        requires
            old(self).current_size + written <= u64::MAX,
        ensures
            final(self).current_size == old(self).current_size + written,
            final(self).max_size == old(self).max_size,
    {
        self.current_size = self.current_size + written;
    }

    /// Whether the file has reached its limit and must be rotated.
    pub fn needs_rotation(&self) -> (r: bool)
        ensures
            r == (self.current_size >= self.max_size),
    {
        self.current_size >= self.max_size
    }

    /// A new, empty file was started.
    pub fn rotated(&mut self)
        ensures
            final(self).current_size == 0,
            final(self).max_size == old(self).max_size,
    {
        self.current_size = 0;
    }
}

/// The extension of the backup a full log file is moved to: `log.` and the
/// time of the rotation.
pub fn backup_extension(timestamp: &str) -> (r: String)
    ensures
        r@ == "log."@ + timestamp@,
{
    let mut r = crate::text::owned("log.");
    r.append(timestamp);
    r
}

} // verus!
