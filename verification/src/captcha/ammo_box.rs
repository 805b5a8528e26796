//! The pool of challenges made in advance.
//!
//! Challenges wait in a bounded first-in-first-out queue in memory and
//! are handed out from its front. A maintainer looks at the pool once a
//! second and decides, from how full it is and how busy the machine is,
//! whether to make more, to load some from the disk spool, or to copy
//! some to it.

use crossbeam_queue::ArrayQueue;
use vstd::prelude::*;

use crate::captcha::spool::LoadProgress;
use crate::captcha::svg::{
    data_url, data_url_of, embedded_image, is_image_of, random_svg,
};
use crate::clock::{is_clock_reading, unix_now};
use crate::random::random_in;
use crate::text::string_of;
use crate::types::CaptchaDifficulty;

verus! {

/// The largest pool that can be made.
pub const MAX_RAM_CAPACITY: usize = usize::MAX / 2;

/// `crossbeam_queue::ArrayQueue`, the bounded queue that holds the pool.
/// Nothing is known of its inside; what it holds is spoken of through
/// `queued` and `queue_limit`.
#[verifier::external_type_specification]
#[verifier::external_body]
#[verifier::reject_recursive_types(T)]
pub struct ExArrayQueue<T>(crossbeam_queue::ArrayQueue<T>);

/// A challenge made in advance, ready to be handed out.
#[derive(Debug)]
pub struct PregenCaptcha {
    /// The answer.
    pub answer: String,
    /// The image, as a data URL.
    pub image_data: String,
    /// The difficulty that the image was drawn for.
    pub difficulty: CaptchaDifficulty,
    /// Unix time at which the challenge was made.
    pub generated_at: i64,
}

impl Clone for PregenCaptcha {
    fn clone(&self) -> (r: Self)
        ensures
            r == *self,
    {
        PregenCaptcha {
            answer: self.answer.clone(),
            image_data: self.image_data.clone(),
            difficulty: self.difficulty,
            generated_at: self.generated_at,
        }
    }
}

/// What the queue holds, the item that leaves next first.
pub uninterp spec fn queued(q: ArrayQueue<PregenCaptcha>) -> Seq<PregenCaptcha>;

/// The capacity that the queue was made with.
pub uninterp spec fn queue_limit(q: ArrayQueue<PregenCaptcha>) -> nat;

/// `ArrayQueue::new`: an empty queue of the given capacity. A capacity of
/// zero, or one whose successor has no power of two above it, is left
/// out: the crate stops on it.
#[verifier::external_body]
fn queue_new(capacity: usize) -> (q: ArrayQueue<PregenCaptcha>)
    requires
        0 < capacity <= MAX_RAM_CAPACITY,
    ensures
        queued(q) == Seq::<PregenCaptcha>::empty(),
        queue_limit(q) == capacity,
{
    ArrayQueue::new(capacity)
}

/// `ArrayQueue::push`: puts `item` at the back of the queue, or hands it
/// back where the queue is full.
#[verifier::external_body]
fn queue_push(q: &mut ArrayQueue<PregenCaptcha>, item: PregenCaptcha) -> (r: Result<
    (),
    PregenCaptcha,
>)
    ensures
        queue_limit(*final(q)) == queue_limit(*old(q)),
        match r {
            Ok(_) => queued(*old(q)).len() < queue_limit(*old(q)) && queued(*final(q)) == queued(
                *old(q),
            ).push(item),
            Err(back) => queued(*old(q)).len() >= queue_limit(*old(q)) && back == item && queued(
                *final(q),
            ) == queued(*old(q)),
        },
{
    q.push(item)
}

/// `ArrayQueue::pop`: takes the item at the front of the queue, if there
/// is one.
#[verifier::external_body]
fn queue_pop(q: &mut ArrayQueue<PregenCaptcha>) -> (r: Option<PregenCaptcha>)
    ensures
        queue_limit(*final(q)) == queue_limit(*old(q)),
        match r {
            Some(item) => queued(*old(q)).len() > 0 && item == queued(*old(q))[0] && queued(
                *final(q),
            ) == queued(*old(q)).drop_first(),
            None => queued(*old(q)).len() == 0 && queued(*final(q)) == queued(*old(q)),
        },
{
    q.pop()
}

/// `ArrayQueue::len`: the number of items in the queue, which is never
/// above its capacity.
#[verifier::external_body]
fn queue_len(q: &ArrayQueue<PregenCaptcha>) -> (n: usize)
    ensures
        n == queued(*q).len(),
        n <= queue_limit(*q),
{
    q.len()
}

/// Settings of the pool.
#[derive(Debug)]
pub struct AmmoBoxConfig {
    /// Most challenges kept in memory.
    pub ram_capacity: usize,
    /// Directory of the disk spool.
    pub disk_cache_path: String,
    /// Most files kept in the disk spool.
    pub max_disk_cache: usize,
    /// Free disk space, in gigabytes, below which nothing is written.
    pub min_disk_free_gb: u64,
    /// Seconds between two copies of the pool to disk.
    pub dump_interval_secs: u64,
}

impl Default for AmmoBoxConfig {
    fn default() -> (r: Self)
        ensures
            r.ram_capacity == 10_000,
            r.disk_cache_path@ == "/var/lib/cerberus/ammo"@,
            r.max_disk_cache == 100_000,
            r.min_disk_free_gb == 5,
            r.dump_interval_secs == 300,
    {
        AmmoBoxConfig {
            ram_capacity: 10_000,
            disk_cache_path: String::from_str("/var/lib/cerberus/ammo"),
            max_disk_cache: 100_000,
            min_disk_free_gb: 5,
            dump_interval_secs: 300,
        }
    }
}

/// Counters of what the pool has done. Each counts up and never down; at
/// the end of its range it stays.
#[derive(Debug, Clone, Copy, PartialEq, Eq, Structural)]
pub struct AmmoBoxStats {
    /// Challenges handed out from the pool.
    pub served: u64,
    /// Challenges generated.
    pub generated: u64,
    /// Challenges loaded from disk.
    pub loaded_from_disk: u64,
    /// Challenges copied to disk.
    pub dumped_to_disk: u64,
    /// Requests that found the pool empty.
    pub pool_misses: u64,
}

/// Counters that have counted nothing yet.
pub open spec fn no_stats() -> AmmoBoxStats {
    AmmoBoxStats { served: 0, generated: 0, loaded_from_disk: 0, dumped_to_disk: 0, pool_misses: 0 }
}

impl Default for AmmoBoxStats {
    fn default() -> (r: Self)
        ensures
            r == no_stats(),
    {
        AmmoBoxStats {
            served: 0,
            generated: 0,
            loaded_from_disk: 0,
            dumped_to_disk: 0,
            pool_misses: 0,
        }
    }
}

/// The pool's state and counters at one moment.
#[derive(Debug, Clone, Copy, PartialEq, Eq, Structural)]
pub struct AmmoBoxStatsSnapshot {
    pub pool_size: usize,
    pub pool_capacity: usize,
    pub fill_percent: u8,
    pub served: u64,
    pub generated: u64,
    pub loaded_from_disk: u64,
    pub dumped_to_disk: u64,
    pub pool_misses: u64,
}

/// A counter after `n` more events. A counter never goes down: it
/// counts up to the end of its range and stays there.
pub open spec fn counted(counter: u64, n: nat) -> u64 {
    if counter + n > u64::MAX {
        u64::MAX
    } else {
        (counter + n) as u64
    }
}

/// Counters are monotonic: no event takes a counter down, and short of
/// the end of its range every event is counted.
pub proof fn lemma_counters_monotonic(counter: u64, n: nat)
    ensures
        counted(counter, n) >= counter,
        counter + n <= u64::MAX ==> counted(counter, n) == counter + n,
{
}

/// How full a pool is, in percent, rounded down.
pub open spec fn fill_of(len: nat, capacity: nat) -> nat {
    if capacity == 0 {
        0
    } else {
        (len * 100) / capacity
    }
}

/// The number of characters of an answer at the given difficulty.
pub open spec fn answer_len(difficulty: CaptchaDifficulty) -> nat {
    match difficulty {
        CaptchaDifficulty::Easy => 4,
        CaptchaDifficulty::Medium => 5,
        CaptchaDifficulty::Hard => 6,
        CaptchaDifficulty::Extreme => 8,
    }
}

/// Whether `c` may stand in an answer: a digit or a capital letter.
pub open spec fn is_answer_char(c: char) -> bool {
    ('0' <= c && c <= '9') || ('A' <= c && c <= 'Z')
}

/// Whether `answer` is an answer of the given difficulty.
pub open spec fn is_answer(answer: Seq<char>, difficulty: CaptchaDifficulty) -> bool {
    answer.len() == answer_len(difficulty) && forall|i: int|
        0 <= i < answer.len() ==> is_answer_char(#[trigger] answer[i])
}

/// The character of an answer that stands for `index`, a number below 36.
pub open spec fn answer_symbol(index: int) -> char {
    if index < 10 {
        ((48 + index) as u8) as char
    } else {
        ((55 + index) as u8) as char
    }
}

/// The character of an answer that stands for `index`.
pub fn answer_char(index: u8) -> (c: char)
    requires
        index < 36,
    ensures
        c == answer_symbol(index as int),
        is_answer_char(c),
{
    if index < 10 {
        (48 + index) as char
    } else {
        (55 + index) as char
    }
}

/// The number of characters of an answer at the given difficulty.
pub fn answer_length(difficulty: CaptchaDifficulty) -> (n: usize)
    ensures
        n == answer_len(difficulty),
{
    match difficulty {
        CaptchaDifficulty::Easy => 4,
        CaptchaDifficulty::Medium => 5,
        CaptchaDifficulty::Hard => 6,
        CaptchaDifficulty::Extreme => 8,
    }
}

/// Generate a random answer: digits and capital letters, as many as the
/// difficulty asks for.
pub fn generate_answer(difficulty: CaptchaDifficulty) -> (answer: String)
    ensures
        is_answer(answer@, difficulty),
{
    let length = answer_length(difficulty);
    let mut chars: Vec<char> = Vec::new();
    while chars.len() < length
        invariant
            chars@.len() <= length,
            forall|i: int| 0 <= i < chars@.len() ==> is_answer_char(#[trigger] chars@[i]),
        decreases length - chars@.len(),
    {
        let index = random_in(0, 36);
        chars.push(answer_char(index as u8));
    }
    string_of(chars.as_slice())
}

/// Whether `url` is the data URL of an image of `text` at the given
/// difficulty, from which the image can be read again.
pub open spec fn is_image_url_of(url: Seq<char>, text: Seq<char>, difficulty: CaptchaDifficulty) -> bool {
    exists|svg: Seq<char>|
        #[trigger] is_image_of(svg, text, difficulty) && url == data_url_of(svg) && embedded_image(
            url,
        ) == svg
}

/// Generate the image of `text` at the given difficulty, as a data URL.
pub fn generate_svg(text: &str, difficulty: CaptchaDifficulty) -> (url: String)
    ensures
        is_image_url_of(url@, text@, difficulty),
{
    let svg = random_svg(text, difficulty);
    data_url(svg.as_str())
}

/// Whether `item` is a challenge of the given difficulty made at `now`:
/// an answer of the difficulty, and an image of that answer.
pub open spec fn is_fresh_captcha(item: PregenCaptcha, difficulty: CaptchaDifficulty, now: i64) -> bool {
    &&& item.difficulty == difficulty
    &&& item.generated_at == now
    &&& is_answer(item.answer@, difficulty)
    &&& is_image_url_of(item.image_data@, item.answer@, difficulty)
}

/// Makes one challenge of the given difficulty, stamped with `now`.
pub fn make_captcha(difficulty: CaptchaDifficulty, now: i64) -> (item: PregenCaptcha)
    ensures
        is_fresh_captcha(item, difficulty, now),
{
    let answer = generate_answer(difficulty);
    let image_data = generate_svg(answer.as_str(), difficulty);
    PregenCaptcha { answer, image_data, difficulty, generated_at: now }
}

/// The pool of challenges made in advance.
pub struct AmmoBox {
    pool: ArrayQueue<PregenCaptcha>,
    config: AmmoBoxConfig,
    last_dump_ms: u64,
    stats: AmmoBoxStats,
}

/// The number of items of a batch of `offered` items that a pool with
/// `room` free places takes.
pub open spec fn taken(offered: nat, room: nat) -> nat {
    if offered <= room {
        offered
    } else {
        room
    }
}

impl AmmoBox {
    /// Whether the pool is what its settings say: as large as configured.
    pub closed spec fn wf(&self) -> bool {
        &&& queue_limit(self.pool) == self.config.ram_capacity
        &&& queued(self.pool).len() <= self.config.ram_capacity
        &&& 0 < self.config.ram_capacity
    }

    /// The challenges in the pool, the one that is handed out next first.
    pub closed spec fn items(&self) -> Seq<PregenCaptcha> {
        queued(self.pool)
    }

    /// The most challenges that the pool holds.
    pub closed spec fn limit(&self) -> nat {
        self.config.ram_capacity as nat
    }

    /// The counters of the pool.
    pub closed spec fn counters(&self) -> AmmoBoxStats {
        self.stats
    }

    /// Seconds between two copies of the pool to disk.
    pub closed spec fn dump_interval(&self) -> u64 {
        self.config.dump_interval_secs
    }

    /// The time of the last copy to disk, in milliseconds of the
    /// maintainer's clock.
    pub closed spec fn last_dump(&self) -> u64 {
        self.last_dump_ms
    }

    /// The directory of the disk spool.
    pub closed spec fn spool_directory(&self) -> Seq<char> {
        self.config.disk_cache_path@
    }

    /// Most files kept in the disk spool.
    pub closed spec fn disk_limit(&self) -> usize {
        self.config.max_disk_cache
    }

    /// Free disk space, in gigabytes, below which nothing is written.
    pub closed spec fn disk_reserve(&self) -> u64 {
        self.config.min_disk_free_gb
    }

    /// A pool is never fuller than its limit.
    pub proof fn lemma_bounded(&self)
        requires
            self.wf(),
        ensures
            self.items().len() <= self.limit(),
            0 < self.limit(),
    {
    }

    /// Create a new, empty pool; `now_ms` is the reading of the
    /// maintainer's clock, from which the time to the first copy to disk
    /// is counted.
    pub fn new(config: AmmoBoxConfig, now_ms: u64) -> (r: Self)
        requires
            0 < config.ram_capacity <= MAX_RAM_CAPACITY,
        ensures
            r.wf(),
            r.items() == Seq::<PregenCaptcha>::empty(),
            r.limit() == config.ram_capacity,
            r.counters() == no_stats(),
            r.dump_interval() == config.dump_interval_secs,
            r.last_dump() == now_ms,
            r.disk_limit() == config.max_disk_cache,
            r.disk_reserve() == config.min_disk_free_gb,
            r.spool_directory() == config.disk_cache_path@,
    {
        let pool = queue_new(config.ram_capacity);
        AmmoBox { pool, config, last_dump_ms: now_ms, stats: AmmoBoxStats::default() }
    }

    /// The directory of the disk spool.
    pub fn disk_cache_path(&self) -> (path: &str)
        ensures
            path@ == self.spool_directory(),
    {
        self.config.disk_cache_path.as_str()
    }

    /// Get pool capacity.
    pub fn capacity(&self) -> (n: usize)
        ensures
            n == self.limit(),
    {
        self.config.ram_capacity
    }

    /// Get current pool size.
    pub fn len(&self) -> (n: usize)
        requires
            self.wf(),
        ensures
            n == self.items().len(),
            n <= self.limit(),
    {
        queue_len(&self.pool)
    }

    /// Check if pool is empty.
    pub fn is_empty(&self) -> (r: bool)
        requires
            self.wf(),
        ensures
            r == (self.items().len() == 0),
    {
        queue_len(&self.pool) == 0
    }

    /// Get pool fill percentage (0-100).
    pub fn fill_percent(&self) -> (pct: u8)
        requires
            self.wf(),
        ensures
            pct == fill_of(self.items().len(), self.limit()),
            pct <= 100,
    {
        let len = queue_len(&self.pool);
        let capacity = self.config.ram_capacity;
        proof {
            assert((len * 100) / (capacity as int) <= 100) by (nonlinear_arith)
                requires
                    0 <= len <= capacity,
                    0 < capacity,
            ;
        }
        ((len as u128 * 100) / (capacity as u128)) as u8
    }

    /// Pop a challenge from the front of the pool. An empty pool hands
    /// out nothing and counts a miss; the caller then generates one.
    pub fn pop(&mut self) -> (r: Option<PregenCaptcha>)
        requires
            old(self).wf(),
        ensures
            final(self).wf(),
            final(self).limit() == old(self).limit(),
            final(self).dump_interval() == old(self).dump_interval(),
            final(self).last_dump() == old(self).last_dump(),
            match r {
                Some(item) => {
                    &&& old(self).items().len() > 0
                    &&& item == old(self).items()[0]
                    &&& final(self).items() == old(self).items().drop_first()
                    &&& final(self).counters() == (AmmoBoxStats {
                        served: counted(old(self).counters().served, 1),
                        ..old(self).counters()
                    })
                },
                None => {
                    &&& old(self).items().len() == 0
                    &&& final(self).items() == old(self).items()
                    &&& final(self).counters() == (AmmoBoxStats {
                        pool_misses: counted(old(self).counters().pool_misses, 1),
                        ..old(self).counters()
                    })
                },
            },
    {
        let captcha = queue_pop(&mut self.pool);
        if captcha.is_some() {
            self.stats.served = self.stats.served.saturating_add(1);
        } else {
            self.stats.pool_misses = self.stats.pool_misses.saturating_add(1);
        }
        captcha
    }

    /// Push a challenge to the back of the pool. A full pool hands the
    /// challenge back unchanged.
    pub fn push(&mut self, captcha: PregenCaptcha) -> (r: Result<(), PregenCaptcha>)
        requires
            old(self).wf(),
        ensures
            final(self).wf(),
            final(self).limit() == old(self).limit(),
            final(self).counters() == old(self).counters(),
            final(self).dump_interval() == old(self).dump_interval(),
            final(self).last_dump() == old(self).last_dump(),
            match r {
                Ok(_) => old(self).items().len() < old(self).limit() && final(self).items() == old(
                    self,
                ).items().push(captcha),
                Err(back) => old(self).items().len() == old(self).limit() && back == captcha
                    && final(self).items() == old(self).items(),
            },
    {
        queue_push(&mut self.pool, captcha)
    }

    /// Push a batch of challenges into the pool, in order, until the pool
    /// is full. Returns how many went in; the rest is dropped.
    pub fn push_batch(&mut self, batch: Vec<PregenCaptcha>) -> (pushed: usize)
        requires
            old(self).wf(),
        ensures
            final(self).wf(),
            final(self).limit() == old(self).limit(),
            final(self).counters() == old(self).counters(),
            final(self).dump_interval() == old(self).dump_interval(),
            final(self).last_dump() == old(self).last_dump(),
            pushed == taken(batch@.len(), (old(self).limit() - old(self).items().len()) as nat),
            final(self).items() == old(self).items() + batch@.take(pushed as int),
    {
        let mut pushed: usize = 0;
        proof {
            assert(batch@.take(0) =~= Seq::<PregenCaptcha>::empty());
            assert(old(self).items() + batch@.take(0) =~= old(self).items());
        }
        for captcha in it: batch
            invariant
                self.wf(),
                self.limit() == old(self).limit(),
                self.counters() == old(self).counters(),
                self.dump_interval() == old(self).dump_interval(),
                self.last_dump() == old(self).last_dump(),
                it.seq() == batch@,
                pushed == it.index(),
                self.items() == old(self).items() + batch@.take(pushed as int),
        {
            match queue_push(&mut self.pool, captcha) {
                Ok(_) => {
                    proof {
                        assert(batch@.take(pushed + 1) =~= batch@.take(pushed as int).push(
                            batch@[pushed as int],
                        ));
                        assert(self.items() =~= old(self).items() + batch@.take(pushed + 1));
                    }
                    pushed += 1;
                },
                Err(_) => {
                    return pushed;
                },
            }
        }
        proof {
            assert(batch@.take(pushed as int) =~= batch@);
        }
        pushed
    }
}

/// How many challenges an emergency refill makes.
pub const EMERGENCY_BATCH: usize = 500;

/// How many challenges a routine refill makes.
pub const ROUTINE_BATCH: usize = 100;

/// How many challenges are loaded from disk, or copied to it, at once.
pub const SPOOL_BATCH: usize = 1000;

/// What the maintainer does at one tick.
#[derive(Debug, Clone, Copy, PartialEq, Eq, Structural)]
pub enum MaintenanceAction {
    /// Nothing.
    Idle,
    /// Load up to `max_count` challenges from the disk spool.
    LoadFromDisk { max_count: usize },
    /// Generate `count` challenges and push them into the pool.
    Generate { count: usize, difficulty: CaptchaDifficulty },
    /// Copy up to `batch_size` challenges to a new spool file.
    DumpToDisk { batch_size: usize },
}

/// What the maintainer does for a pool that is `fill_pct` percent full
/// on a machine whose processors are `cpu_load` percent busy, where
/// `dump_due` says whether the last copy to disk is old enough.
///
/// - Below 10 percent: load from disk if the machine is more than 80
///   percent busy, else generate an emergency batch.
/// - Below 80 percent: generate a routine batch if the machine is less
///   than 50 percent busy.
/// - Above 95 percent: copy to disk if the machine is less than 20
///   percent busy and a copy is due.
pub open spec fn maintenance(fill_pct: u8, cpu_load: u8, dump_due: bool) -> MaintenanceAction {
    if fill_pct < 10 {
        if cpu_load > 80 {
            MaintenanceAction::LoadFromDisk { max_count: SPOOL_BATCH }
        } else {
            MaintenanceAction::Generate {
                count: EMERGENCY_BATCH,
                difficulty: CaptchaDifficulty::Medium,
            }
        }
    } else if fill_pct < 80 {
        if cpu_load < 50 {
            MaintenanceAction::Generate { count: ROUTINE_BATCH, difficulty: CaptchaDifficulty::Medium }
        } else {
            MaintenanceAction::Idle
        }
    } else if fill_pct > 95 && cpu_load < 20 && dump_due {
        MaintenanceAction::DumpToDisk { batch_size: SPOOL_BATCH }
    } else {
        MaintenanceAction::Idle
    }
}

/// Whether a copy to disk is due at `now_ms`: more than `interval_secs`
/// seconds have passed since `last_ms`.
pub open spec fn dump_due(last_ms: u64, interval_secs: u64, now_ms: u64) -> bool {
    now_ms - last_ms > interval_secs * 1000
}

/// The rotation of a queue that a copy of `k` items to disk leaves: the
/// copied items go from the front to the back.
pub open spec fn rotated(items: Seq<PregenCaptcha>, k: int) -> Seq<PregenCaptcha> {
    items.skip(k) + items.take(k)
}

/// A copy to disk moves no challenge out of the pool and none into it:
/// the rotated queue holds what the queue held.
pub proof fn lemma_rotation_keeps_items(items: Seq<PregenCaptcha>, k: int)
    requires
        0 <= k <= items.len(),
    ensures
        rotated(items, k).to_multiset() == items.to_multiset(),
        rotated(items, k).len() == items.len(),
{
    vstd::seq_lib::lemma_multiset_commutative(items.skip(k), items.take(k));
    vstd::seq_lib::lemma_multiset_commutative(items.take(k), items.skip(k));
    assert(items.take(k) + items.skip(k) =~= items);
    assert(items.skip(k).to_multiset().add(items.take(k).to_multiset()) =~= items.take(
        k,
    ).to_multiset().add(items.skip(k).to_multiset()));
}

impl AmmoBox {
    /// Generate a batch of `count` challenges of the given difficulty,
    /// all stamped with one reading of the clock.
    pub fn generate_batch(&mut self, count: usize, difficulty: CaptchaDifficulty) -> (batch: Vec<
        PregenCaptcha,
    >)
        requires
            old(self).wf(),
        ensures
            final(self).wf(),
            final(self).items() == old(self).items(),
            final(self).limit() == old(self).limit(),
            final(self).dump_interval() == old(self).dump_interval(),
            final(self).last_dump() == old(self).last_dump(),
            final(self).counters() == (AmmoBoxStats {
                generated: counted(old(self).counters().generated, count as nat),
                ..old(self).counters()
            }),
            batch@.len() == count,
            exists|now: i64|
                is_clock_reading(now) && forall|i: int|
                    0 <= i < batch@.len() ==> #[trigger] is_fresh_captcha(batch@[i], difficulty, now),
    {
        let mut batch: Vec<PregenCaptcha> = Vec::new();
        let now = unix_now();
        while batch.len() < count
            invariant
                self.wf(),
                self.items() == old(self).items(),
                self.limit() == old(self).limit(),
                self.dump_interval() == old(self).dump_interval(),
                self.last_dump() == old(self).last_dump(),
                batch@.len() <= count,
                self.counters() == (AmmoBoxStats {
                    generated: counted(old(self).counters().generated, batch@.len()),
                    ..old(self).counters()
                }),
                forall|i: int|
                    0 <= i < batch@.len() ==> #[trigger] is_fresh_captcha(batch@[i], difficulty, now),
            decreases count - batch@.len(),
        {
            batch.push(make_captcha(difficulty, now));
            self.stats.generated = self.stats.generated.saturating_add(1);
        }
        batch
    }

    /// Takes up to `batch_size` challenges for a copy to disk: they leave
    /// the front of the pool and enter it again at the back, and copies of
    /// them are handed out, in the order in which they left.
    pub fn dump_to_disk(&mut self, batch_size: usize) -> (batch: Vec<PregenCaptcha>)
        requires
            old(self).wf(),
        ensures
            final(self).wf(),
            final(self).limit() == old(self).limit(),
            final(self).counters() == old(self).counters(),
            final(self).dump_interval() == old(self).dump_interval(),
            final(self).last_dump() == old(self).last_dump(),
            batch@.len() == taken(old(self).items().len(), batch_size as nat),
            batch@ == old(self).items().take(batch@.len() as int),
            final(self).items() == rotated(old(self).items(), batch@.len() as int),
            final(self).items().to_multiset() == old(self).items().to_multiset(),
    {
        let mut batch: Vec<PregenCaptcha> = Vec::new();
        let ghost start = self.items();
        let total = queue_len(&self.pool);
        let wanted = if batch_size < total {
            batch_size
        } else {
            total
        };
        proof {
            assert(start.skip(0) =~= start);
            assert(start.take(0) =~= Seq::<PregenCaptcha>::empty());
            assert(rotated(start, 0) =~= start);
        }
        while batch.len() < wanted
            invariant
                self.wf(),
                self.limit() == old(self).limit(),
                self.counters() == old(self).counters(),
                self.dump_interval() == old(self).dump_interval(),
                self.last_dump() == old(self).last_dump(),
                start == old(self).items(),
                wanted <= start.len(),
                batch@.len() <= wanted,
                batch@ == start.take(batch@.len() as int),
                self.items() == rotated(start, batch@.len() as int),
            decreases wanted - batch@.len(),
        {
            let ghost k = batch@.len() as int;
            match queue_pop(&mut self.pool) {
                None => {
                    proof {
                        assert(rotated(start, k).len() == start.len());
                        lemma_rotation_keeps_items(start, k);
                    }
                    return batch;
                },
                Some(captcha) => {
                    proof {
                        assert(rotated(start, k)[0] == start[k]);
                    }
                    let copy = captcha.clone();
                    match queue_push(&mut self.pool, captcha) {
                        Ok(_) => {},
                        Err(_) => {
                            proof {
                                assert(rotated(start, k).drop_first().len() == start.len() - 1);
                            }
                        },
                    }
                    batch.push(copy);
                    proof {
                        assert(batch@ =~= start.take(k + 1));
                        assert(self.items() =~= rotated(start, k + 1));
                    }
                },
            }
        }
        proof {
            lemma_rotation_keeps_items(start, batch@.len() as int);
        }
        batch
    }

    /// Counts `count` challenges as copied to disk.
    pub fn record_dumped(&mut self, count: usize)
        requires
            old(self).wf(),
        ensures
            final(self).wf(),
            final(self).items() == old(self).items(),
            final(self).limit() == old(self).limit(),
            final(self).dump_interval() == old(self).dump_interval(),
            final(self).last_dump() == old(self).last_dump(),
            final(self).counters() == (AmmoBoxStats {
                dumped_to_disk: counted(old(self).counters().dumped_to_disk, count as nat),
                ..old(self).counters()
            }),
    {
        self.stats.dumped_to_disk = self.stats.dumped_to_disk.saturating_add(count as u64);
    }

    /// Loads the batch of one spool file: its challenges enter the pool
    /// in order, as many as the load may still take and the pool has room
    /// for, and are counted as loaded from disk; the rest is dropped.
    /// Returns how many went in.
    pub fn load_batch(&mut self, batch: Vec<PregenCaptcha>, progress: &mut LoadProgress) -> (pushed:
        usize)
        requires
            old(self).wf(),
        ensures
            final(self).wf(),
            final(self).limit() == old(self).limit(),
            final(self).dump_interval() == old(self).dump_interval(),
            final(self).last_dump() == old(self).last_dump(),
            pushed == taken(
                taken(batch@.len(), (old(progress).limit() - old(progress).count()) as nat),
                (old(self).limit() - old(self).items().len()) as nat,
            ),
            pushed <= batch@.len(),
            final(self).items() == old(self).items() + batch@.take(pushed as int),
            final(self).items().len() == old(self).items().len() + pushed,
            final(self).counters() == (AmmoBoxStats {
                loaded_from_disk: counted(old(self).counters().loaded_from_disk, pushed as nat),
                ..old(self).counters()
            }),
            final(progress).limit() == old(progress).limit(),
            final(progress).count() == old(progress).count() + pushed,
            final(progress).count() <= final(progress).limit(),
    {
        let room = progress.room();
        let mut wanted = batch;
        wanted.truncate(room);
        let ghost offered = wanted@;
        proof {
            assert(offered =~= batch@.take(taken(batch@.len(), room as nat) as int));
        }
        let pushed = self.push_batch(wanted);
        proof {
            assert(offered.take(pushed as int) =~= batch@.take(pushed as int));
        }
        self.stats.loaded_from_disk = self.stats.loaded_from_disk.saturating_add(pushed as u64);
        progress.add(pushed);
        pushed
    }

    /// Get statistics snapshot.
    pub fn get_stats(&self) -> (snapshot: AmmoBoxStatsSnapshot)
        requires
            self.wf(),
        ensures
            snapshot == (AmmoBoxStatsSnapshot {
                pool_size: self.items().len() as usize,
                pool_capacity: self.limit() as usize,
                fill_percent: fill_of(self.items().len(), self.limit()) as u8,
                served: self.counters().served,
                generated: self.counters().generated,
                loaded_from_disk: self.counters().loaded_from_disk,
                dumped_to_disk: self.counters().dumped_to_disk,
                pool_misses: self.counters().pool_misses,
            }),
    {
        AmmoBoxStatsSnapshot {
            pool_size: queue_len(&self.pool),
            pool_capacity: self.config.ram_capacity,
            fill_percent: self.fill_percent(),
            served: self.stats.served,
            generated: self.stats.generated,
            loaded_from_disk: self.stats.loaded_from_disk,
            dumped_to_disk: self.stats.dumped_to_disk,
            pool_misses: self.stats.pool_misses,
        }
    }

    /// Check if we should dump to disk: whether more than the configured
    /// interval has passed since the last copy, at the reading `now_ms`
    /// of the maintainer's clock.
    pub fn should_dump(&self, now_ms: u64) -> (r: bool)
        ensures
            r == dump_due(self.last_dump(), self.dump_interval(), now_ms),
    {
        if now_ms <= self.last_dump_ms {
            return false;
        }
        let elapsed = now_ms - self.last_dump_ms;
        elapsed / 1000 > self.config.dump_interval_secs || (elapsed / 1000
            == self.config.dump_interval_secs && elapsed % 1000 > 0)
    }

    /// Update last dump time.
    pub fn mark_dumped(&mut self, now_ms: u64)
        requires
            old(self).wf(),
        ensures
            final(self).wf(),
            final(self).items() == old(self).items(),
            final(self).limit() == old(self).limit(),
            final(self).counters() == old(self).counters(),
            final(self).dump_interval() == old(self).dump_interval(),
            final(self).last_dump() == now_ms,
    {
        self.last_dump_ms = now_ms;
    }

    /// Whether a spool file may be written: the spool holds fewer files
    /// than it may, and the disk has the reserve of free space.
    pub fn may_write_spool(&self, spool_files: usize, free_disk_gb: u64) -> (r: bool)
        ensures
            r == (spool_files < self.disk_limit() && free_disk_gb >= self.disk_reserve()),
    {
        spool_files < self.config.max_disk_cache && free_disk_gb >= self.config.min_disk_free_gb
    }
}

/// Decides what the maintainer does at one tick.
pub fn maintain_ammo_box(ammo: &AmmoBox, cpu_load: u8, now_ms: u64) -> (action: MaintenanceAction)
    requires
        ammo.wf(),
    ensures
        action == maintenance(
            fill_of(ammo.items().len(), ammo.limit()) as u8,
            cpu_load,
            dump_due(ammo.last_dump(), ammo.dump_interval(), now_ms),
        ),
{
    let fill_pct = ammo.fill_percent();
    if fill_pct < 10 {
        if cpu_load > 80 {
            MaintenanceAction::LoadFromDisk { max_count: SPOOL_BATCH }
        } else {
            MaintenanceAction::Generate {
                count: EMERGENCY_BATCH,
                difficulty: CaptchaDifficulty::Medium,
            }
        }
    } else if fill_pct < 80 {
        if cpu_load < 50 {
            MaintenanceAction::Generate { count: ROUTINE_BATCH, difficulty: CaptchaDifficulty::Medium }
        } else {
            MaintenanceAction::Idle
        }
    } else if fill_pct > 95 && cpu_load < 20 && ammo.should_dump(now_ms) {
        MaintenanceAction::DumpToDisk { batch_size: SPOOL_BATCH }
    } else {
        MaintenanceAction::Idle
    }
}

} // verus!
