//! The reaction log: an append-only table of "wa" replies, keyed by the id
//! of the reply, with the aggregate queries the bot asks of it.
use vstd::prelude::*;
use vstd::string::*;

use crate::clock::utcNow;
use crate::error::Error;

verus! {

/// A wa message.
pub struct WaEntry {
    /// The id of the message that the wa is for.
    pub wa_to: i64,
    /// The id of the wa message itself; the key of the table.
    pub id: i64,
    /// The id of the user that sent the wa.
    pub waer: i64,
    /// The display name of the waer: a nick name or a full name.
    pub waer_name: String,
    /// When the wa was sent, in seconds since the Unix epoch.
    pub time: i64,
}

/// No two rows share an id.
pub open spec fn unique_ids(rows: Seq<WaEntry>) -> bool {
    forall|i: int, j: int| 0 <= i < j < rows.len() ==> rows[i].id != rows[j].id
}

/// Some row has the id `id`.
pub open spec fn has_id(rows: Seq<WaEntry>, id: i64) -> bool {
    exists|i: int| 0 <= i < rows.len() && #[trigger] rows[i].id == id
}

/// The rows that are reactions to `target`.
pub open spec fn is_for(target: i64) -> spec_fn(WaEntry) -> bool {
    |e: WaEntry| e.wa_to == target
}

/// How many reactions `target` has.
pub open spec fn count_for(rows: Seq<WaEntry>, target: i64) -> nat {
    rows.filter(is_for(target)).len()
}

/// Every target's count fits the 32 bits in which counts are given.
pub open spec fn counts_fit(rows: Seq<WaEntry>) -> bool {
    forall|target: i64| #[trigger] count_for(rows, target) <= u32::MAX
}

/// The row was sent strictly less than `period` seconds before `now`.
pub open spec fn in_window(e: WaEntry, now: i64, period: i64) -> bool {
    e.time > now - period
}

/// The rows in the window that `waer` sent.
pub open spec fn by_waer(now: i64, period: i64, waer: i64) -> spec_fn(WaEntry) -> bool {
    |e: WaEntry| in_window(e, now, period) && e.waer == waer
}

/// The rows in the window that react to `target`.
pub open spec fn by_target(now: i64, period: i64, target: i64) -> spec_fn(WaEntry) -> bool {
    |e: WaEntry| in_window(e, now, period) && e.wa_to == target
}

/// How many reactions `waer` sent in the window.
pub open spec fn waer_count(rows: Seq<WaEntry>, now: i64, period: i64, waer: i64) -> nat {
    rows.filter(by_waer(now, period, waer)).len()
}

/// How many reactions `target` got in the window.
pub open spec fn waable_count(rows: Seq<WaEntry>, now: i64, period: i64, target: i64) -> nat {
    rows.filter(by_target(now, period, target)).len()
}

/// No row lies in the window.
pub open spec fn window_empty(rows: Seq<WaEntry>, now: i64, period: i64) -> bool {
    forall|i: int| 0 <= i < rows.len() ==> !in_window(#[trigger] rows[i], now, period)
}

/// Row `i` is the first row of the window whose sender has sent the most
/// reactions in the window. At most one row is.
pub open spec fn is_best_waer_row(rows: Seq<WaEntry>, now: i64, period: i64, i: int) -> bool {
    &&& 0 <= i < rows.len()
    &&& in_window(rows[i], now, period)
    &&& forall|j: int|
        0 <= j < rows.len() && in_window(#[trigger] rows[j], now, period) ==> waer_count(
            rows,
            now,
            period,
            rows[j].waer,
        ) <= waer_count(rows, now, period, rows[i].waer)
    &&& forall|j: int|
        0 <= j < i && in_window(#[trigger] rows[j], now, period) ==> waer_count(
            rows,
            now,
            period,
            rows[j].waer,
        ) < waer_count(rows, now, period, rows[i].waer)
}

/// Row `i` is the first row of the window whose target has got the most
/// reactions in the window. At most one row is.
pub open spec fn is_best_waable_row(rows: Seq<WaEntry>, now: i64, period: i64, i: int) -> bool {
    &&& 0 <= i < rows.len()
    &&& in_window(rows[i], now, period)
    &&& forall|j: int|
        0 <= j < rows.len() && in_window(#[trigger] rows[j], now, period) ==> waable_count(
            rows,
            now,
            period,
            rows[j].wa_to,
        ) <= waable_count(rows, now, period, rows[i].wa_to)
    &&& forall|j: int|
        0 <= j < i && in_window(#[trigger] rows[j], now, period) ==> waable_count(
            rows,
            now,
            period,
            rows[j].wa_to,
        ) < waable_count(rows, now, period, rows[i].wa_to)
}

/// The best sender of the window has sent more reactions in it than the 32
/// bits of a count can tell.
pub open spec fn best_waer_overflows(rows: Seq<WaEntry>, now: i64, period: i64) -> bool {
    exists|i: int|
        #![trigger rows[i]]
        is_best_waer_row(rows, now, period, i) && waer_count(rows, now, period, rows[i].waer)
            > u32::MAX
}

/// What the top-reactor query answers at time `now`: the name on the best
/// row and its sender's count; `NotFound` when the window is empty; a
/// database error when the count does not fit its 32 bits.
pub open spec fn best_waer_answer(
    rows: Seq<WaEntry>,
    now: i64,
    period: i64,
    r: Result<(String, u32), Error>,
) -> bool {
    match r {
        Ok((name, count)) => exists|i: int|
            #![trigger rows[i]]
            is_best_waer_row(rows, now, period, i) && name@ == rows[i].waer_name@ && count
                == waer_count(rows, now, period, rows[i].waer),
        Err(e) => if window_empty(rows, now, period) {
            e is NotFound && e.message() == "No wa in this period"@
        } else {
            best_waer_overflows(rows, now, period) && e is DBError && e.message()
                == "Failed to get wa count"@
        },
    }
}

/// What the top-target query answers at time `now`: the target of the best
/// row and its count, or `NotFound` when the window is empty.
pub open spec fn best_waable_answer(
    rows: Seq<WaEntry>,
    now: i64,
    period: i64,
    r: Result<(i64, u32), Error>,
) -> bool {
    match r {
        Ok((target, count)) => exists|i: int|
            #![trigger rows[i]]
            is_best_waable_row(rows, now, period, i) && target == rows[i].wa_to && count
                == waable_count(rows, now, period, target),
        Err(e) => window_empty(rows, now, period) && e is NotFound && e.message()
            == "No wa in this period"@,
    }
}

/// The table of reactions, oldest row first.
pub struct WaLog {
    rows: Vec<WaEntry>,
}

impl View for WaLog {
    type V = Seq<WaEntry>;

    closed spec fn view(&self) -> Seq<WaEntry> {
        self.rows@
    }
}

impl WaLog {
    /// The table keeps its key unique and the count of every target within
    /// the 32 bits in which counts are given.
    pub open spec fn wf(&self) -> bool {
        unique_ids(self@) && counts_fit(self@)
    }

    /// The number of rows.
    pub fn len(&self) -> (n: usize)
        ensures
            n == self@.len(),
    {
        self.rows.len()
    }

    /// The row at position `i`, oldest first.
    pub fn row(&self, i: usize) -> (e: &WaEntry)
        requires
            i < self@.len(),
        ensures
            *e == self@[i as int],
    {
        &self.rows[i]
    }

    /// Whether some row has the id `id`.
    pub fn containsId(&self, id: i64) -> (found: bool)
        ensures
            found == has_id(self@, id),
    {
        let n = self.rows.len();
        let mut k: usize = 0;
        while k < n
            invariant
                n == self.rows@.len(),
                k <= n,
                forall|i: int| 0 <= i < k ==> self.rows@[i].id != id,
            decreases n - k,
        {
            if self.rows[k].id == id {
                return true;
            }
            k += 1;
        }
        false
    }

    /// How many reactions `target` has.
    pub fn count(&self, target: i64) -> (n: u32)
        requires
            self.wf(),
        ensures
            n == count_for(self@, target),
    {
        let len = self.rows.len();
        let mut n: u32 = 0;
        let mut k: usize = 0;
        while k < len
            invariant
                len == self.rows@.len(),
                count_for(self.rows@, target) <= u32::MAX,
                k <= len,
                n == self.rows@.take(k as int).filter(is_for(target)).len(),
            decreases len - k,
        {
            proof {
                self.rows@.lemma_take_succ_push(k as int);
                self.rows@.take(k as int).lemma_filter_len_push(is_for(target), self.rows@[k as int]);
                self.rows@.lemma_filter_take_len(is_for(target), k + 1);
            }
            if self.rows[k].wa_to == target {
                n += 1;
            }
            k += 1;
        }
        proof {
            self.rows@.lemma_take_len();
        }
        n
    }

    /// How many reactions `waer` sent in the window that ends at `now`.
    pub fn countByWaer(&self, now: i64, period: i64, waer: i64) -> (n: usize)
        ensures
            n == waer_count(self@, now, period, waer),
    {
        let len = self.rows.len();
        let mut n: usize = 0;
        let mut k: usize = 0;
        while k < len
            invariant
                len == self.rows@.len(),
                k <= len,
                n <= k,
                n == self.rows@.take(k as int).filter(by_waer(now, period, waer)).len(),
            decreases len - k,
        {
            proof {
                self.rows@.lemma_take_succ_push(k as int);
                self.rows@.take(k as int).lemma_filter_len_push(
                    by_waer(now, period, waer),
                    self.rows@[k as int],
                );
            }
            if within(&self.rows[k], now, period) && self.rows[k].waer == waer {
                n += 1;
            }
            k += 1;
        }
        proof {
            self.rows@.lemma_take_len();
        }
        n
    }

    /// How many reactions `target` got in the window that ends at `now`.
    pub fn countByTarget(&self, now: i64, period: i64, target: i64) -> (n: usize)
        ensures
            n == waable_count(self@, now, period, target),
    {
        let len = self.rows.len();
        let mut n: usize = 0;
        let mut k: usize = 0;
        while k < len
            invariant
                len == self.rows@.len(),
                k <= len,
                n <= k,
                n == self.rows@.take(k as int).filter(by_target(now, period, target)).len(),
            decreases len - k,
        {
            proof {
                self.rows@.lemma_take_succ_push(k as int);
                self.rows@.take(k as int).lemma_filter_len_push(
                    by_target(now, period, target),
                    self.rows@[k as int],
                );
            }
            if within(&self.rows[k], now, period) && self.rows[k].wa_to == target {
                n += 1;
            }
            k += 1;
        }
        proof {
            self.rows@.lemma_take_len();
        }
        n
    }
}

/// A target has no more reactions in a window than it has in all.
pub proof fn lemma_window_count_bounded(rows: Seq<WaEntry>, now: i64, period: i64, target: i64)
    ensures
        waable_count(rows, now, period, target) <= count_for(rows, target),
    decreases rows.len(),
{
    if rows.len() > 0 {
        let front = rows.drop_last();
        lemma_window_count_bounded(front, now, period, target);
        assert(rows =~= front.push(rows.last()));
        front.lemma_filter_len_push(by_target(now, period, target), rows.last());
        front.lemma_filter_len_push(is_for(target), rows.last());
    }
}

/// Whether the row lies in the window of `period` seconds that ends at `now`.
pub fn within(e: &WaEntry, now: i64, period: i64) -> (b: bool)
    ensures
        b == in_window(*e, now, period),
{
    (e.time as i128) > (now as i128) - (period as i128)
}

/// A new, empty table.
pub fn initialize() -> (log: WaLog)
    ensures
        log@ == Seq::<WaEntry>::empty(),
        log.wf(),
{
    WaLog { rows: Vec::new() }
}

/// Adds a wa message to the table and returns the number of wa-s that its
/// target then has, this one included. The row is refused, and the table
/// left as it was, when its id is already in the table, or when its target
/// has so many wa-s that one more could not be told in 32 bits.
pub fn addWa(log: &mut WaLog, wa: WaEntry) -> (r: Result<u32, Error>)
    requires
        old(log).wf(),
    ensures
        final(log).wf(),
        r is Ok <==> !has_id(old(log)@, wa.id) && count_for(old(log)@, wa.wa_to) < u32::MAX,
        match r {
            Ok(n) => final(log)@ == old(log)@.push(wa) && n == count_for(final(log)@, wa.wa_to)
                && n == count_for(old(log)@, wa.wa_to) + 1,
            Err(e) => final(log)@ == old(log)@ && e is DBError && e.message()
                == "Failed to add a wa"@,
        },
{
    let before = log.count(wa.wa_to);
    if before == u32::MAX || log.containsId(wa.id) {
        return Err(Error::DBError(String::from_str("Failed to add a wa")));
    }
    proof {
        log.rows@.lemma_filter_len_push(is_for(wa.wa_to), wa);
        assert forall|target: i64| #[trigger]
            count_for(log.rows@.push(wa), target) <= u32::MAX by {
            log.rows@.lemma_filter_len_push(is_for(target), wa);
            assert(count_for(log.rows@, target) <= u32::MAX);
        }
    }
    log.rows.push(wa);
    Ok(before + 1)
}

/// Who did the most wa-s in the `time_period` seconds before `now`? Returns
/// the name of the waer and the number of wa-s from this waer. Of several
/// waers with the same number, the one whose wa comes first in the table.
/// A number that does not fit 32 bits is a database error.
pub fn bestWaerAt(log: &WaLog, now: i64, time_period: i64) -> (r: Result<(String, u32), Error>)
    requires
        log.wf(),
    ensures
        best_waer_answer(log@, now, time_period, r),
{
    let len = log.rows.len();
    let mut best: usize = 0;
    let mut best_count: usize = 0;
    let mut found = false;
    let mut k: usize = 0;
    while k < len
        invariant
            log.wf(),
            len == log.rows@.len(),
            k <= len,
            !found ==> forall|j: int| 0 <= j < k ==> !in_window(#[trigger] log@[j], now, time_period),
            found ==> {
                &&& best < k
                &&& in_window(log@[best as int], now, time_period)
                &&& best_count == waer_count(log@, now, time_period, log@[best as int].waer)
                &&& forall|j: int|
                    0 <= j < k && in_window(#[trigger] log@[j], now, time_period) ==> waer_count(
                        log@,
                        now,
                        time_period,
                        log@[j].waer,
                    ) <= best_count
                &&& forall|j: int|
                    0 <= j < best && in_window(#[trigger] log@[j], now, time_period) ==> waer_count(
                        log@,
                        now,
                        time_period,
                        log@[j].waer,
                    ) < best_count
            },
        decreases len - k,
    {
        if within(&log.rows[k], now, time_period) {
            let c = log.countByWaer(now, time_period, log.rows[k].waer);
            if !found || c > best_count {
                best = k;
                best_count = c;
                found = true;
            }
        }
        k += 1;
    }
    if found {
        assert(is_best_waer_row(log@, now, time_period, best as int));
        if best_count > u32::MAX as usize {
            Err(Error::DBError(String::from_str("Failed to get wa count")))
        } else {
            Ok((log.rows[best].waer_name.clone(), best_count as u32))
        }
    } else {
        Err(Error::NotFound(String::from_str("No wa in this period")))
    }
}

/// Which message got the most wa-s in the `time_period` seconds before
/// `now`? Returns its id and the number of wa-s. Of several messages with
/// the same number, the one whose wa comes first in the table.
pub fn bestWaableAt(log: &WaLog, now: i64, time_period: i64) -> (r: Result<(i64, u32), Error>)
    requires
        log.wf(),
    ensures
        best_waable_answer(log@, now, time_period, r),
{
    let len = log.rows.len();
    let mut best: usize = 0;
    let mut best_count: usize = 0;
    let mut found = false;
    let mut k: usize = 0;
    while k < len
        invariant
            log.wf(),
            len == log.rows@.len(),
            k <= len,
            !found ==> forall|j: int| 0 <= j < k ==> !in_window(#[trigger] log@[j], now, time_period),
            found ==> {
                &&& best < k
                &&& in_window(log@[best as int], now, time_period)
                &&& best_count == waable_count(log@, now, time_period, log@[best as int].wa_to)
                &&& forall|j: int|
                    0 <= j < k && in_window(#[trigger] log@[j], now, time_period) ==> waable_count(
                        log@,
                        now,
                        time_period,
                        log@[j].wa_to,
                    ) <= best_count
                &&& forall|j: int|
                    0 <= j < best && in_window(#[trigger] log@[j], now, time_period)
                        ==> waable_count(log@, now, time_period, log@[j].wa_to) < best_count
            },
        decreases len - k,
    {
        if within(&log.rows[k], now, time_period) {
            let c = log.countByTarget(now, time_period, log.rows[k].wa_to);
            if !found || c > best_count {
                best = k;
                best_count = c;
                found = true;
            }
        }
        k += 1;
    }
    if found {
        assert(is_best_waable_row(log@, now, time_period, best as int));
        proof {
            lemma_window_count_bounded(log@, now, time_period, log@[best as int].wa_to);
            assert(count_for(log@, log@[best as int].wa_to) <= u32::MAX);
        }
        Ok((log.rows[best].wa_to, best_count as u32))
    } else {
        Err(Error::NotFound(String::from_str("No wa in this period")))
    }
}

/// Who did the most wa-s in the last `time_period` seconds? Reads the clock
/// and answers as `bestWaerAt` does for the time it read.
pub fn bestWaer(log: &WaLog, time_period: i64) -> (r: Result<(String, u32), Error>)
    requires
        log.wf(),
    ensures
        exists|now: i64| best_waer_answer(log@, now, time_period, r),
{
    let now = utcNow();
    bestWaerAt(log, now, time_period)
}

/// Which message got the most wa-s in the last `time_period` seconds? Reads
/// the clock and answers as `bestWaableAt` does for the time it read.
pub fn bestWaable(log: &WaLog, time_period: i64) -> (r: Result<(i64, u32), Error>)
    requires
        log.wf(),
    ensures
        exists|now: i64| best_waable_answer(log@, now, time_period, r),
{
    let now = utcNow();
    bestWaableAt(log, now, time_period)
}

/// Reactions to one target, recorded one after another, are all counted:
/// after adding `added` to a table, the target's count is what it was
/// before plus the number of reactions added. None is lost and none is
/// counted twice.
pub proof fn lemma_every_reaction_counted(rows: Seq<WaEntry>, added: Seq<WaEntry>, target: i64)
    requires
        forall|i: int| 0 <= i < added.len() ==> (#[trigger] added[i]).wa_to == target,
    ensures
        count_for(rows + added, target) == count_for(rows, target) + added.len(),
    decreases added.len(),
{
    if added.len() == 0 {
        assert(rows + added =~= rows);
    } else {
        let front = added.drop_last();
        lemma_every_reaction_counted(rows, front, target);
        assert(rows + added =~= (rows + front).push(added.last()));
        (rows + front).lemma_filter_len_push(is_for(target), added.last());
    }
}

/// A reaction to another message leaves a target's count as it was.
pub proof fn lemma_other_target_not_counted(rows: Seq<WaEntry>, wa: WaEntry, target: i64)
    requires
        wa.wa_to != target,
    ensures
        count_for(rows.push(wa), target) == count_for(rows, target),
{
    rows.lemma_filter_len_push(is_for(target), wa);
}

/// At most one row is the best row of a window, so the two aggregate
/// queries have one answer each.
pub proof fn lemma_best_rows_unique(rows: Seq<WaEntry>, now: i64, period: i64, i: int, j: int)
    ensures
        is_best_waer_row(rows, now, period, i) && is_best_waer_row(rows, now, period, j) ==> i
            == j,
        is_best_waable_row(rows, now, period, i) && is_best_waable_row(rows, now, period, j)
            ==> i == j,
{
}

} // verus!
