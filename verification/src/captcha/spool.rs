//! The disk spool of the pool: batches of challenges in files that are
//! named by the time of their writing, so that their names sort by age.
//!
//! Reading and writing the files is left to the caller; here is how a
//! file is named, which files are loaded, and in what order.

use vstd::prelude::*;
use vstd::seq_lib::{to_multiset_build, to_multiset_insert};

use crate::text::{
    chars_eq, chars_of, lines, lines_of, parse_bounded, parse_unsigned, push_decimal,
    signed_decimal, slice_chars, split_whitespace, string_of, texts, utf8, words,
};

verus! {

/// What begins the name of a spool file.
pub const SPOOL_PREFIX: &'static str = "ammo_";

/// What ends the name of a spool file.
pub const SPOOL_SUFFIX: &'static str = ".bin";

/// The extension of a spool file.
pub const SPOOL_EXTENSION: &'static str = "bin";

/// The name of the spool file written at `unix_millis`.
pub open spec fn spool_name(unix_millis: int) -> Seq<char> {
    SPOOL_PREFIX@ + signed_decimal(unix_millis) + SPOOL_SUFFIX@
}

/// The name of the spool file written at `unix_millis`.
pub fn spool_file_name(unix_millis: i64) -> (name: String)
    ensures
        name@ == spool_name(unix_millis as int),
{
    let mut digits: Vec<char> = Vec::new();
    if unix_millis < 0 {
        digits.push('-');
        push_decimal(&mut digits, (-(unix_millis as i128)) as u64);
    } else {
        push_decimal(&mut digits, unix_millis as u64);
    }
    proof {
        assert(digits@ =~= signed_decimal(unix_millis as int));
    }
    let number = string_of(digits.as_slice());
    let mut name = String::from_str(SPOOL_PREFIX);
    name.append(number.as_str());
    name.append(SPOOL_SUFFIX);
    name
}

/// The position of the last `c` in `s`, or -1 where there is none.
pub open spec fn last_index(s: Seq<char>, c: char) -> int
    decreases s.len(),
{
    if s.len() == 0 {
        -1
    } else if s.last() == c {
        s.len() - 1
    } else {
        last_index(s.drop_last(), c)
    }
}

/// The extension of a file name: what follows its last dot, unless the
/// name has no dot or no other than its first character.
pub open spec fn extension_of(name: Seq<char>) -> Option<Seq<char>> {
    let i = last_index(name, '.');
    if 0 < i < name.len() {
        Some(name.skip(i + 1))
    } else {
        None
    }
}

/// Whether a file of this name is a spool file: its extension is `bin`.
pub open spec fn is_spool_name(name: Seq<char>) -> bool {
    extension_of(name) == Some(SPOOL_EXTENSION@)
}

/// A position that holds `c` and that no `c` follows is the last index.
proof fn lemma_last_index_is(s: Seq<char>, c: char, k: int)
    requires
        -1 <= k < s.len(),
        k >= 0 ==> s[k] == c,
        forall|j: int| k < j < s.len() ==> s[j] != c,
    ensures
        last_index(s, c) == k,
    decreases s.len(),
{
    if s.len() > 0 && s.last() != c {
        lemma_last_index_is(s.drop_last(), c, k);
    }
}

/// Tests whether a file of this name is a spool file.
pub fn is_spool_file(name: &str) -> (r: bool)
    ensures
        r == is_spool_name(name@),
{
    let chars = chars_of(name);
    let n = chars.len();
    let mut i: usize = n;
    while i > 0 && chars[i - 1] != '.'
        invariant
            i <= n,
            n == chars@.len(),
            forall|j: int| i <= j < n ==> chars@[j] != '.',
        decreases i,
    {
        i -= 1;
    }
    proof {
        lemma_last_index_is(chars@, '.', i - 1);
    }
    if i <= 1 {
        return false;
    }
    let extension = slice_chars(chars.as_slice(), i, n);
    let wanted = chars_of(SPOOL_EXTENSION);
    proof {
        assert(chars@.skip(i as int) =~= extension@);
    }
    chars_eq(extension.as_slice(), wanted.as_slice())
}

/// Whether `a` comes before `b`, or is `b`, in the order of their bytes.
pub open spec fn bytes_le(a: Seq<u8>, b: Seq<u8>) -> bool
    decreases a.len(),
{
    if a.len() == 0 {
        true
    } else if b.len() == 0 {
        false
    } else if a[0] != b[0] {
        a[0] < b[0]
    } else {
        bytes_le(a.drop_first(), b.drop_first())
    }
}

/// Whether the name `a` sorts before the name `b`, or is `b`.
pub open spec fn name_le(a: String, b: String) -> bool {
    bytes_le(utf8(a@), utf8(b@))
}

/// Of two byte strings, one comes before the other or is the other.
pub proof fn lemma_bytes_le_total(a: Seq<u8>, b: Seq<u8>)
    ensures
        bytes_le(a, b) || bytes_le(b, a),
    decreases a.len(),
{
    if a.len() > 0 && b.len() > 0 && a[0] == b[0] {
        lemma_bytes_le_total(a.drop_first(), b.drop_first());
    }
}

/// The order of byte strings is transitive.
pub proof fn lemma_bytes_le_transitive(a: Seq<u8>, b: Seq<u8>, c: Seq<u8>)
    requires
        bytes_le(a, b),
        bytes_le(b, c),
    ensures
        bytes_le(a, c),
    decreases a.len(),
{
    if a.len() > 0 && b.len() > 0 && c.len() > 0 && a[0] == b[0] && b[0] == c[0] {
        lemma_bytes_le_transitive(a.drop_first(), b.drop_first(), c.drop_first());
    }
}

/// Tests whether `a` comes before `b`, or is `b`, in the order of their
/// bytes.
pub fn bytes_before(a: &[u8], b: &[u8]) -> (r: bool)
    ensures
        r == bytes_le(a@, b@),
{
    let mut i: usize = 0;
    proof {
        assert(a@.skip(0) =~= a@);
        assert(b@.skip(0) =~= b@);
    }
    while i < a.len() && i < b.len()
        invariant
            i <= a.len(),
            i <= b.len(),
            bytes_le(a@, b@) == bytes_le(a@.skip(i as int), b@.skip(i as int)),
        decreases a.len() - i,
    {
        proof {
            assert(a@.skip(i as int)[0] == a@[i as int]);
            assert(b@.skip(i as int)[0] == b@[i as int]);
            assert(a@.skip(i as int).drop_first() =~= a@.skip(i + 1));
            assert(b@.skip(i as int).drop_first() =~= b@.skip(i + 1));
        }
        if a[i] != b[i] {
            return a[i] < b[i];
        }
        i += 1;
    }
    i == a.len()
}

/// Whether the names are in ascending order.
pub open spec fn names_sorted(names: Seq<String>) -> bool {
    forall|i: int, j: int| 0 <= i <= j < names.len() ==> name_le(names[i], names[j])
}

/// The spool files among `names`, in the order of `names`.
pub open spec fn spool_files(names: Seq<String>) -> Seq<String>
    decreases names.len(),
{
    if names.len() == 0 {
        Seq::empty()
    } else if is_spool_name(names.last()@) {
        spool_files(names.drop_last()).push(names.last())
    } else {
        spool_files(names.drop_last())
    }
}

/// The first `count` names, or all of them where there are fewer.
pub open spec fn first_of(names: Seq<String>, count: nat) -> Seq<String> {
    if count < names.len() {
        names.take(count as int)
    } else {
        names
    }
}

/// The names in ascending order.
pub fn sort_names(names: &Vec<String>) -> (sorted: Vec<String>)
    ensures
        names_sorted(sorted@),
        sorted@.to_multiset() == names@.to_multiset(),
        sorted@.len() == names@.len(),
{
    let mut sorted: Vec<String> = Vec::new();
    let mut i: usize = 0;
    proof {
        assert(names@.take(0) =~= Seq::<String>::empty());
    }
    while i < names.len()
        invariant
            i <= names@.len(),
            sorted@.len() == i,
            names_sorted(sorted@),
            sorted@.to_multiset() == names@.take(i as int).to_multiset(),
        decreases names@.len() - i,
    {
        let name = names[i].clone();
        let mut at: usize = 0;
        while at < sorted.len() && bytes_before(sorted[at].as_str().as_bytes(), name.as_str().as_bytes())
            invariant
                at <= sorted@.len(),
                forall|k: int| 0 <= k < at ==> name_le(sorted@[k], name),
            decreases sorted@.len() - at,
        {
            at += 1;
        }
        proof {
            to_multiset_insert(sorted@, at as int, name);
            to_multiset_build(names@.take(i as int), name);
            assert(names@.take(i + 1) =~= names@.take(i as int).push(name));
            let next = sorted@.insert(at as int, name);
            if at < sorted@.len() {
                lemma_bytes_le_total(utf8(sorted@[at as int]@), utf8(name@));
            }
            assert forall|a: int, b: int| 0 <= a <= b < next.len() implies name_le(next[a], next[b]) by {
                if a == b {
                    lemma_bytes_le_total(utf8(next[a]@), utf8(next[a]@));
                } else if a < at && b < at {
                    assert(next[a] == sorted@[a] && next[b] == sorted@[b]);
                } else if a < at && b == at {
                    assert(next[a] == sorted@[a]);
                } else if a < at && b > at {
                    assert(next[a] == sorted@[a] && next[b] == sorted@[b - 1]);
                } else if a == at && b > at {
                    assert(next[b] == sorted@[b - 1]);
                    assert(name_le(sorted@[at as int], sorted@[b - 1]));
                    lemma_bytes_le_transitive(
                        utf8(name@),
                        utf8(sorted@[at as int]@),
                        utf8(sorted@[b - 1]@),
                    );
                } else {
                    assert(next[a] == sorted@[a - 1] && next[b] == sorted@[b - 1]);
                }
            }
        }
        sorted.insert(at, name);
        i += 1;
    }
    proof {
        assert(names@.take(i as int) =~= names@);
    }
    sorted
}

/// Which files of the spool directory are loaded, and in what order: of
/// the entries, sorted by name so that the oldest comes first, the first
/// `max_count` are looked at, and those of them that are spool files are
/// loaded.
pub fn load_from_disk(names: &Vec<String>, max_count: usize) -> (files: Vec<String>)
    ensures
        exists|sorted: Seq<String>|
            {
                &&& #[trigger] names_sorted(sorted)
                &&& sorted.to_multiset() == names@.to_multiset()
                &&& spool_files(first_of(sorted, max_count as nat)) == files@
            },
{
    let sorted = sort_names(names);
    let limit = if max_count < sorted.len() {
        max_count
    } else {
        sorted.len()
    };
    let mut files: Vec<String> = Vec::new();
    let mut i: usize = 0;
    proof {
        assert(sorted@.take(limit as int).take(0) =~= Seq::<String>::empty());
    }
    while i < limit
        invariant
            i <= limit <= sorted@.len(),
            files@ == spool_files(sorted@.take(limit as int).take(i as int)),
        decreases limit - i,
    {
        proof {
            let looked = sorted@.take(limit as int);
            assert(looked.take(i + 1).drop_last() =~= looked.take(i as int));
            assert(looked.take(i + 1).last() == sorted@[i as int]);
        }
        if is_spool_file(sorted[i].as_str()) {
            files.push(sorted[i].clone());
        }
        i += 1;
    }
    proof {
        let looked = sorted@.take(limit as int);
        assert(looked.take(i as int) =~= looked);
        assert(looked =~= first_of(sorted@, max_count as nat));
        assert(names_sorted(sorted@));
    }
    files
}

/// The column of a disk report that holds the free space.
pub const FREE_SPACE_COLUMN: usize = 3;

/// Kibibytes in a gibibyte.
pub const KIB_PER_GIB: u64 = 1_048_576;

/// The free space, in whole gigabytes, that a disk report states: the
/// number in the fourth column of the report's last line counts
/// kilobytes. A report without such a number states nothing.
pub open spec fn free_space_of(report: Seq<char>) -> Option<u64> {
    let rows = lines_of(report);
    if rows.len() == 0 {
        None
    } else {
        let columns = words(rows.last());
        if columns.len() <= FREE_SPACE_COLUMN {
            None
        } else {
            match parse_unsigned(columns[FREE_SPACE_COLUMN as int], u64::MAX as nat) {
                Some(kilobytes) => Some((kilobytes / (KIB_PER_GIB as nat)) as u64),
                None => None,
            }
        }
    }
}

/// Reads the free space, in whole gigabytes, from a disk report.
pub fn free_gigabytes(report: &str) -> (r: Option<u64>)
    ensures
        r == free_space_of(report@),
{
    let chars = chars_of(report);
    let rows = lines(chars.as_slice());
    if rows.len() == 0 {
        return None;
    }
    let row = &rows[rows.len() - 1];
    proof {
        assert(texts(rows@).last() == row@);
    }
    let columns = split_whitespace(row.as_slice());
    if columns.len() <= FREE_SPACE_COLUMN {
        return None;
    }
    proof {
        assert(texts(columns@)[FREE_SPACE_COLUMN as int] == columns@[FREE_SPACE_COLUMN as int]@);
    }
    match parse_bounded(columns[FREE_SPACE_COLUMN].as_slice(), u64::MAX) {
        Some(kilobytes) => Some(kilobytes / KIB_PER_GIB),
        None => None,
    }
}

/// How far a load from the spool has come: how many challenges are
/// loaded, and after how many loading stops. There are never more loaded
/// than that.
#[derive(Debug)]
pub struct LoadProgress {
    loaded: usize,
    max_count: usize,
}

impl LoadProgress {
    #[verifier::type_invariant]
    closed spec fn within_limit(self) -> bool {
        self.loaded <= self.max_count
    }

    /// Challenges loaded so far.
    pub closed spec fn count(&self) -> usize {
        self.loaded
    }

    /// Challenges after which loading stops.
    pub closed spec fn limit(&self) -> usize {
        self.max_count
    }

    /// A load of at most `max_count` challenges, of which none is loaded
    /// yet.
    pub fn start(max_count: usize) -> (r: Self)
        ensures
            r.count() == 0,
            r.limit() == max_count,
    {
        LoadProgress { loaded: 0, max_count }
    }

    /// Challenges loaded so far; never more than the limit.
    pub fn loaded(&self) -> (n: usize)
        ensures
            n == self.count(),
            n <= self.limit(),
    {
        proof {
            use_type_invariant(self);
        }
        self.loaded
    }

    /// Challenges after which loading stops.
    pub fn max_count(&self) -> (n: usize)
        ensures
            n == self.limit(),
    {
        self.max_count
    }

    /// How many more challenges may be loaded.
    pub fn room(&self) -> (n: usize)
        ensures
            n == self.limit() - self.count(),
    {
        proof {
            use_type_invariant(self);
        }
        self.max_count - self.loaded
    }

    /// Whether loading goes on: it stops once the limit is reached.
    pub fn goes_on(&self) -> (r: bool)
        ensures
            r == (self.count() < self.limit()),
    {
        self.loaded < self.max_count
    }

    /// Counts `count` more challenges as loaded.
    pub fn add(&mut self, count: usize)
        requires
            old(self).count() + count <= old(self).limit(),
        ensures
            final(self).count() == old(self).count() + count,
            final(self).limit() == old(self).limit(),
    {
        self.loaded = self.loaded + count;
    }
}

} // verus!
