//! The upstream proxy's runtime interface: the commands that tell it of
//! a circuit's standing, and the reading of its answers.
//!
//! The proxy keeps one entry for each circuit in a stick table; its
//! first general-purpose counter says how the circuit stands.

use vstd::prelude::*;

use crate::text::{
    chars_of, contains_text, decimal, find_char, find_text, first_index, first_match, has_prefix,
    lemma_split_len, lines, lines_of, parse_bounded, parse_unsigned, push_decimal,
    slice_chars, split, split_chars, split_whitespace, starts_with, string_of, texts, trim,
    trimmed, words,
};

verus! {

/// Where the proxy's runtime socket is found by default.
pub const DEFAULT_SOCKET_PATH: &'static str = "/var/run/haproxy.sock";

/// The stick table that tracks circuits by default.
pub const DEFAULT_STICK_TABLE: &'static str = "be_stick_tables";

/// Stands before the number of open connections of an entry.
pub const CONN_CUR: &'static str = "conn_cur=";

/// Begins the word that holds the connection rate of an entry.
pub const CONN_RATE: &'static str = "conn_rate";

/// Begins the word that holds the request rate of an entry.
pub const HTTP_REQ_RATE: &'static str = "http_req_rate";

/// Stands before the first general-purpose counter of an entry.
pub const GPC0: &'static str = "gpc0=";

/// Stands before the seconds that an entry has left.
pub const EXP: &'static str = "exp=";

/// Begins the command that changes an entry.
pub const SET_TABLE: &'static str = "set table ";

/// Begins the command that removes an entry.
pub const CLEAR_TABLE: &'static str = "clear table ";

/// Begins the command that shows a table or an entry.
pub const SHOW_TABLE: &'static str = "show table ";

/// The command that shows the proxy's statistics.
pub const SHOW_STAT: &'static str = "show stat";

/// Stands before the key of an entry in a command.
pub const KEY: &'static str = " key ";

/// Stands before the new value of the first general-purpose counter.
pub const DATA_GPC0: &'static str = " data.gpc0 ";

/// How a circuit stands with the proxy.
#[derive(Debug, Clone, Copy, PartialEq, Eq, Structural)]
pub enum HaproxyCircuitStatus {
    /// An ordinary circuit.
    Normal,
    /// A VIP: rate limits do not apply.
    Vip,
    /// Banned: the proxy turns the circuit away.
    Banned,
}

impl HaproxyCircuitStatus {
    /// The value of the counter that stands for the status.
    pub open spec fn spec_code(&self) -> u8 {
        match self {
            HaproxyCircuitStatus::Normal => 0,
            HaproxyCircuitStatus::Vip => 1,
            HaproxyCircuitStatus::Banned => 2,
        }
    }

    /// The value of the counter that stands for the status.
    pub fn code(&self) -> (c: u8)
        ensures
            c == self.spec_code(),
    {
        match self {
            HaproxyCircuitStatus::Normal => 0,
            HaproxyCircuitStatus::Vip => 1,
            HaproxyCircuitStatus::Banned => 2,
        }
    }
}

/// Where the proxy's runtime interface is found.
#[derive(Debug)]
pub struct HaproxyApi {
    socket_path: String,
    stick_table: String,
}

impl HaproxyApi {
    /// The path of the proxy's runtime socket.
    pub closed spec fn socket(&self) -> Seq<char> {
        self.socket_path@
    }

    /// The name of the stick table that tracks circuits.
    pub closed spec fn table(&self) -> Seq<char> {
        self.stick_table@
    }

    /// The command that sets the standing of a circuit.
    pub open spec fn set_status_text(&self, circuit_id: Seq<char>, status: HaproxyCircuitStatus) -> Seq<
        char,
    > {
        SET_TABLE@ + self.table() + KEY@ + circuit_id + DATA_GPC0@ + decimal(status.spec_code() as nat)
    }

    /// The command that removes a circuit's entry.
    pub open spec fn clear_text(&self, circuit_id: Seq<char>) -> Seq<char> {
        CLEAR_TABLE@ + self.table() + KEY@ + circuit_id
    }

    /// The command that shows a circuit's entry.
    pub open spec fn show_text(&self, circuit_id: Seq<char>) -> Seq<char> {
        SHOW_TABLE@ + self.table() + KEY@ + circuit_id
    }

    /// Create a new client of the proxy's runtime interface.
    pub fn new(socket_path: String, stick_table: String) -> (r: Self)
        ensures
            r.socket() == socket_path@,
            r.table() == stick_table@,
    {
        HaproxyApi { socket_path, stick_table }
    }

    /// Create with default paths.
    pub fn default_paths() -> (r: Self)
        ensures
            r.socket() == DEFAULT_SOCKET_PATH@,
            r.table() == DEFAULT_STICK_TABLE@,
    {
        HaproxyApi {
            socket_path: String::from_str(DEFAULT_SOCKET_PATH),
            stick_table: String::from_str(DEFAULT_STICK_TABLE),
        }
    }

    /// The path of the proxy's runtime socket.
    pub fn socket_path(&self) -> (r: &str)
        ensures
            r@ == self.socket(),
    {
        self.socket_path.as_str()
    }

    /// The command that sets the standing of `circuit_id` to `status`.
    pub fn set_circuit_status(&self, circuit_id: &str, status: HaproxyCircuitStatus) -> (command:
        String)
        ensures
            command@ == self.set_status_text(circuit_id@, status),
    {
        let mut digits: Vec<char> = Vec::new();
        push_decimal(&mut digits, status.code() as u64);
        let number = string_of(digits.as_slice());
        let mut command = String::from_str(SET_TABLE);
        command.append(self.stick_table.as_str());
        command.append(KEY);
        command.append(circuit_id);
        command.append(DATA_GPC0);
        command.append(number.as_str());
        proof {
            assert(Seq::<char>::empty() + decimal(status.spec_code() as nat) =~= decimal(
                status.spec_code() as nat,
            ));
        }
        command
    }

    /// The command that promotes a circuit to VIP.
    pub fn promote_to_vip(&self, circuit_id: &str) -> (command: String)
        ensures
            command@ == self.set_status_text(circuit_id@, HaproxyCircuitStatus::Vip),
    {
        self.set_circuit_status(circuit_id, HaproxyCircuitStatus::Vip)
    }

    /// The command that bans a circuit at the proxy.
    pub fn ban_circuit(&self, circuit_id: &str) -> (command: String)
        ensures
            command@ == self.set_status_text(circuit_id@, HaproxyCircuitStatus::Banned),
    {
        self.set_circuit_status(circuit_id, HaproxyCircuitStatus::Banned)
    }

    /// The command that removes a circuit's entry.
    pub fn clear_circuit(&self, circuit_id: &str) -> (command: String)
        ensures
            command@ == self.clear_text(circuit_id@),
    {
        let mut command = String::from_str(CLEAR_TABLE);
        command.append(self.stick_table.as_str());
        command.append(KEY);
        command.append(circuit_id);
        command
    }

    /// The command that shows a circuit's entry.
    pub fn get_circuit_info(&self, circuit_id: &str) -> (command: String)
        ensures
            command@ == self.show_text(circuit_id@),
    {
        let mut command = String::from_str(SHOW_TABLE);
        command.append(self.stick_table.as_str());
        command.append(KEY);
        command.append(circuit_id);
        command
    }

    /// The command that shows the proxy's statistics.
    pub fn get_stats(&self) -> (command: String)
        ensures
            command@ == SHOW_STAT@,
    {
        String::from_str(SHOW_STAT)
    }

    /// The command that shows the stick table.
    pub fn get_table_stats(&self) -> (command: String)
        ensures
            command@ == SHOW_TABLE@ + self.table(),
    {
        let mut command = String::from_str(SHOW_TABLE);
        command.append(self.stick_table.as_str());
        command
    }
}

/// One entry of the stick table.
#[derive(Debug, Clone, Copy, PartialEq, Eq, Structural)]
pub struct StickTableEntry {
    pub conn_cur: u32,
    pub conn_rate: u32,
    pub http_req_rate: u32,
    pub gpc0: u8,
    pub expire_secs: u64,
}

/// The number that `s` denotes as an unsigned decimal of at most `max`,
/// or zero where it denotes none.
pub open spec fn number_or_zero(s: Seq<char>, max: nat) -> nat {
    match parse_unsigned(s, max) {
        Some(n) => n,
        None => 0,
    }
}

/// What follows the first `=` of `part`, if there is one.
pub open spec fn after_equals(part: Seq<char>) -> Option<Seq<char>> {
    let i = first_index(part, '=');
    if 0 <= i < part.len() {
        Some(part.skip(i + 1))
    } else {
        None
    }
}

/// The entry once one word of the line has been read into it.
pub open spec fn with_part(entry: StickTableEntry, part: Seq<char>) -> StickTableEntry {
    if has_prefix(part, CONN_CUR@) {
        StickTableEntry {
            conn_cur: number_or_zero(part.skip(CONN_CUR@.len() as int), u32::MAX as nat) as u32,
            ..entry
        }
    } else if has_prefix(part, CONN_RATE@) {
        match after_equals(part) {
            Some(v) => StickTableEntry {
                conn_rate: number_or_zero(v, u32::MAX as nat) as u32,
                ..entry
            },
            None => entry,
        }
    } else if has_prefix(part, HTTP_REQ_RATE@) {
        match after_equals(part) {
            Some(v) => StickTableEntry {
                http_req_rate: number_or_zero(v, u32::MAX as nat) as u32,
                ..entry
            },
            None => entry,
        }
    } else if has_prefix(part, GPC0@) {
        StickTableEntry {
            gpc0: number_or_zero(part.skip(GPC0@.len() as int), u8::MAX as nat) as u8,
            ..entry
        }
    } else if has_prefix(part, EXP@) {
        StickTableEntry {
            expire_secs: number_or_zero(part.skip(EXP@.len() as int), u64::MAX as nat) as u64,
            ..entry
        }
    } else {
        entry
    }
}

/// The entry once the given words have been read into it, in order.
pub open spec fn with_parts(entry: StickTableEntry, parts: Seq<Seq<char>>) -> StickTableEntry
    decreases parts.len(),
{
    if parts.len() == 0 {
        entry
    } else {
        with_part(with_parts(entry, parts.drop_last()), parts.last())
    }
}

/// The entry in which nothing has been read yet.
pub open spec fn empty_entry() -> StickTableEntry {
    StickTableEntry { conn_cur: 0, conn_rate: 0, http_req_rate: 0, gpc0: 0, expire_secs: 0 }
}

/// The entry that a line of the proxy's answer describes.
pub open spec fn entry_of(line: Seq<char>) -> StickTableEntry {
    with_parts(empty_entry(), words(line))
}

/// Reads `s` as an unsigned decimal of at most `max`, or as zero.
fn read_number(s: &[char], max: u64) -> (n: u64)
    ensures
        n == number_or_zero(s@, max as nat),
        n <= max,
{
    match parse_bounded(s, max) {
        Some(n) => n,
        None => 0,
    }
}

/// Reads what follows the first `=` of `part` as a number of 32 bits.
fn read_after_equals(part: &[char]) -> (r: Option<u32>)
    ensures
        match r {
            Some(n) => after_equals(part@) is Some && n == number_or_zero(
                after_equals(part@)->0,
                u32::MAX as nat,
            ),
            None => after_equals(part@) is None,
        },
{
    let end = part.len();
    match find_char(part, '=') {
        Some(i) => {
            let value = slice_chars(part, i + 1, end);
            Some(read_number(value.as_slice(), u32::MAX as u64) as u32)
        },
        None => None,
    }
}

impl Default for StickTableEntry {
    fn default() -> (r: Self)
        ensures
            r == empty_entry(),
    {
        StickTableEntry { conn_cur: 0, conn_rate: 0, http_req_rate: 0, gpc0: 0, expire_secs: 0 }
    }
}

impl StickTableEntry {
    /// Reads one word of a line into the entry.
    pub fn read_part(self, part: &[char]) -> (r: Self)
        ensures
            r == with_part(self, part@),
    {
        let conn_cur = chars_of(CONN_CUR);
        let conn_rate = chars_of(CONN_RATE);
        let http_req_rate = chars_of(HTTP_REQ_RATE);
        let gpc0 = chars_of(GPC0);
        let exp = chars_of(EXP);
        let mut entry = self;
        if starts_with(part, conn_cur.as_slice()) {
            let value = slice_chars(part, conn_cur.len(), part.len());
            entry.conn_cur = read_number(value.as_slice(), u32::MAX as u64) as u32;
        } else if starts_with(part, conn_rate.as_slice()) {
            match read_after_equals(part) {
                Some(n) => {
                    entry.conn_rate = n;
                },
                None => {},
            }
        } else if starts_with(part, http_req_rate.as_slice()) {
            match read_after_equals(part) {
                Some(n) => {
                    entry.http_req_rate = n;
                },
                None => {},
            }
        } else if starts_with(part, gpc0.as_slice()) {
            let value = slice_chars(part, gpc0.len(), part.len());
            entry.gpc0 = read_number(value.as_slice(), u8::MAX as u64) as u8;
        } else if starts_with(part, exp.as_slice()) {
            let value = slice_chars(part, exp.len(), part.len());
            entry.expire_secs = read_number(value.as_slice(), u64::MAX);
        }
        entry
    }

    /// Reads the entry that a line of the proxy's answer describes. The
    /// words of the line are read in order; a later word overrides an
    /// earlier one, a word that is not understood is passed over, and a
    /// value that is no number counts as zero.
    pub fn parse(line: &str) -> (r: Result<Self, crate::error::CerberusError>)
        ensures
            r matches Ok(entry) && entry == entry_of(line@),
    {
        let chars = chars_of(line);
        let parts = split_whitespace(chars.as_slice());
        let mut entry = StickTableEntry::default();
        let mut i: usize = 0;
        proof {
            assert(texts(parts@).take(0) =~= Seq::<Seq<char>>::empty());
        }
        while i < parts.len()
            invariant
                i <= parts@.len(),
                entry == with_parts(empty_entry(), texts(parts@).take(i as int)),
            decreases parts@.len() - i,
        {
            proof {
                assert(texts(parts@).take(i + 1).drop_last() =~= texts(parts@).take(i as int));
                assert(texts(parts@).take(i + 1).last() == parts@[i as int]@);
            }
            entry = entry.read_part(parts[i].as_slice());
            i += 1;
        }
        proof {
            assert(texts(parts@).take(i as int) =~= texts(parts@));
        }
        Ok(entry)
    }
}

/// Counts of the proxy's sessions.
#[derive(Debug, Clone, Copy, PartialEq, Eq, Structural)]
pub struct HaproxyStats {
    pub current_sessions: u64,
    pub total_sessions: u64,
}

impl Default for HaproxyStats {
    fn default() -> (r: Self)
        ensures
            r.current_sessions == 0,
            r.total_sessions == 0,
    {
        HaproxyStats { current_sessions: 0, total_sessions: 0 }
    }
}

/// How full the stick table is.
#[derive(Debug, Clone, Copy, PartialEq, Eq, Structural)]
pub struct TableStats {
    pub entries_used: u64,
    pub entries_max: u64,
}

impl Default for TableStats {
    fn default() -> (r: Self)
        ensures
            r.entries_used == 0,
            r.entries_max == 0,
    {
        TableStats { entries_used: 0, entries_max: 0 }
    }
}

/// What the proxy says of a key that it does not hold.
pub const NOT_FOUND: &'static str = "not found";

/// What begins the proxy's answer to a change of an entry.
pub const ENTRY: &'static str = "Entry";

/// What stands before the number of entries in use.
pub const USED: &'static str = "used:";

/// What stands before the size of the table.
pub const SIZE: &'static str = "size:";

/// What begins a comment line of the proxy's statistics.
pub const COMMENT: &'static str = "#";

/// The fewest fields of a line of statistics that is counted.
pub const STAT_FIELDS: usize = 10;

/// The field of a line of statistics that holds the current sessions.
pub const CURRENT_SESSIONS_FIELD: usize = 4;

/// The field of a line of statistics that holds the sessions in all.
pub const TOTAL_SESSIONS_FIELD: usize = 7;

/// Whether the proxy's answer to a change of an entry is not what is
/// expected: it is not empty and does not begin with `Entry`.
pub open spec fn unexpected(response: Seq<char>) -> bool {
    response.len() > 0 && !has_prefix(response, ENTRY@)
}

/// Tests whether the proxy's answer to a change of an entry is not what
/// is expected.
pub fn is_unexpected_response(response: &str) -> (r: bool)
    ensures
        r == unexpected(response@),
{
    let chars = chars_of(response);
    let entry = chars_of(ENTRY);
    chars.len() > 0 && !starts_with(chars.as_slice(), entry.as_slice())
}

/// The entry that the first of the lines that hold `id` describes.
pub open spec fn first_entry(lines: Seq<Seq<char>>, id: Seq<char>) -> Option<StickTableEntry>
    decreases lines.len(),
{
    if lines.len() == 0 {
        None
    } else if contains_text(lines[0], id) {
        Some(entry_of(lines[0]))
    } else {
        first_entry(lines.drop_first(), id)
    }
}

/// The entry of the circuit `id` that the proxy's answer describes, if
/// it describes one: an empty answer, or one that says that the key was
/// not found, describes none.
pub open spec fn circuit_entry(response: Seq<char>, id: Seq<char>) -> Option<StickTableEntry> {
    if response.len() == 0 || contains_text(response, NOT_FOUND@) {
        None
    } else {
        first_entry(lines_of(response), id)
    }
}

/// Reads the entry of `circuit_id` from the proxy's answer.
pub fn read_circuit_info(response: &str, circuit_id: &str) -> (r: Option<StickTableEntry>)
    ensures
        r == circuit_entry(response@, circuit_id@),
{
    let chars = chars_of(response);
    let not_found = chars_of(NOT_FOUND);
    if chars.len() == 0 || find_text(chars.as_slice(), not_found.as_slice(), 0).is_some() {
        return None;
    }
    let id = chars_of(circuit_id);
    let all = lines(chars.as_slice());
    let mut i: usize = 0;
    proof {
        assert(texts(all@).skip(0) =~= texts(all@));
    }
    while i < all.len()
        invariant
            i <= all@.len(),
            texts(all@) == lines_of(response@),
            id@ == circuit_id@,
            response@.len() > 0,
            !contains_text(response@, NOT_FOUND@),
            first_entry(lines_of(response@), circuit_id@) == first_entry(
                texts(all@).skip(i as int),
                circuit_id@,
            ),
        decreases all@.len() - i,
    {
        proof {
            assert(texts(all@).skip(i as int)[0] == all@[i as int]@);
            assert(texts(all@).skip(i as int).drop_first() =~= texts(all@).skip(i + 1));
        }
        if find_text(all[i].as_slice(), id.as_slice(), 0).is_some() {
            let line = string_of(all[i].as_slice());
            return match StickTableEntry::parse(line.as_str()) {
                Ok(entry) => Some(entry),
                Err(_) => None,
            };
        }
        i += 1;
    }
    None
}

/// A counter after `n` more sessions; it wraps around at the end of its
/// range.
pub open spec fn added(counter: u64, n: nat) -> u64 {
    ((counter + n) % 0x1_0000_0000_0000_0000) as u64
}

/// The statistics once one line of the proxy's answer has been counted.
/// A comment, an empty line and a line of fewer than ten fields count
/// nothing; of any other line the fifth field counts as current sessions
/// and the eighth as sessions in all, where they are numbers.
pub open spec fn with_stat_line(stats: HaproxyStats, line: Seq<char>) -> HaproxyStats {
    let fields = split(line, ',');
    if has_prefix(line, COMMENT@) || line.len() == 0 || fields.len() < STAT_FIELDS {
        stats
    } else {
        HaproxyStats {
            current_sessions: added(
                stats.current_sessions,
                number_or_zero(fields[CURRENT_SESSIONS_FIELD as int], u64::MAX as nat),
            ),
            total_sessions: added(
                stats.total_sessions,
                number_or_zero(fields[TOTAL_SESSIONS_FIELD as int], u64::MAX as nat),
            ),
        }
    }
}

/// The statistics once the given lines have been counted.
pub open spec fn with_stat_lines(stats: HaproxyStats, lines: Seq<Seq<char>>) -> HaproxyStats
    decreases lines.len(),
{
    if lines.len() == 0 {
        stats
    } else {
        with_stat_line(with_stat_lines(stats, lines.drop_last()), lines.last())
    }
}

/// The statistics that the proxy's answer gives.
pub open spec fn stats_of(response: Seq<char>) -> HaproxyStats {
    with_stat_lines(HaproxyStats { current_sessions: 0, total_sessions: 0 }, lines_of(response))
}

impl HaproxyStats {
    /// Counts one line of the proxy's answer.
    pub fn count_line(self, line: &[char]) -> (r: Self)
        ensures
            r == with_stat_line(self, line@),
    {
        let comment = chars_of(COMMENT);
        if starts_with(line, comment.as_slice()) || line.len() == 0 {
            return self;
        }
        let fields = split_chars(line, ',');
        if fields.len() < STAT_FIELDS {
            return self;
        }
        proof {
            assert(texts(fields@)[CURRENT_SESSIONS_FIELD as int]
                == fields@[CURRENT_SESSIONS_FIELD as int]@);
            assert(texts(fields@)[TOTAL_SESSIONS_FIELD as int]
                == fields@[TOTAL_SESSIONS_FIELD as int]@);
        }
        let current = read_number(fields[CURRENT_SESSIONS_FIELD].as_slice(), u64::MAX);
        let total = read_number(fields[TOTAL_SESSIONS_FIELD].as_slice(), u64::MAX);
        HaproxyStats {
            current_sessions: self.current_sessions.wrapping_add(current),
            total_sessions: self.total_sessions.wrapping_add(total),
        }
    }
}

/// Reads the proxy's statistics from its answer.
pub fn read_stats(response: &str) -> (stats: HaproxyStats)
    ensures
        stats == stats_of(response@),
{
    let chars = chars_of(response);
    let all = lines(chars.as_slice());
    let mut stats = HaproxyStats::default();
    let mut i: usize = 0;
    proof {
        assert(texts(all@).take(0) =~= Seq::<Seq<char>>::empty());
    }
    while i < all.len()
        invariant
            i <= all@.len(),
            stats == with_stat_lines(
                HaproxyStats { current_sessions: 0, total_sessions: 0 },
                texts(all@).take(i as int),
            ),
        decreases all@.len() - i,
    {
        proof {
            assert(texts(all@).take(i + 1).drop_last() =~= texts(all@).take(i as int));
            assert(texts(all@).take(i + 1).last() == all@[i as int]@);
        }
        stats = stats.count_line(all[i].as_slice());
        i += 1;
    }
    proof {
        assert(texts(all@).take(i as int) =~= texts(all@));
    }
    stats
}

/// What stands in `s` between the first `marker` and the next, or the
/// end.
pub open spec fn after_marker(s: Seq<char>, marker: Seq<char>) -> Option<Seq<char>> {
    let i = first_match(s, marker, 0);
    if i < 0 {
        None
    } else {
        let rest = s.skip(i + marker.len());
        let j = first_match(rest, marker, 0);
        if j < 0 {
            Some(rest)
        } else {
            Some(rest.take(j))
        }
    }
}

/// What stands in `s` between the first `marker` and the next, or the
/// end.
pub fn read_after_marker(s: &[char], marker: &[char]) -> (r: Option<Vec<char>>)
    ensures
        match r {
            Some(part) => after_marker(s@, marker@) == Some(part@),
            None => after_marker(s@, marker@) is None,
        },
{
    let n = s.len();
    match find_text(s, marker, 0) {
        None => None,
        Some(i) => {
            let rest = slice_chars(s, i + marker.len(), n);
            proof {
                assert(rest@ =~= s@.skip(i + marker@.len()));
            }
            let m = rest.len();
            match find_text(rest.as_slice(), marker, 0) {
                None => Some(rest),
                Some(j) => {
                    let part = slice_chars(rest.as_slice(), 0, j);
                    proof {
                        assert(part@ =~= rest@.take(j as int));
                    }
                    Some(part)
                },
            }
        },
    }
}

/// How full the table is, by the header of the proxy's answer: the
/// number after `used:` and the number after `size:`, up to the next
/// comma; either counts as zero where it is missing or no number.
pub open spec fn table_stats_of(response: Seq<char>) -> TableStats {
    let all = lines_of(response);
    if all.len() == 0 {
        TableStats { entries_used: 0, entries_max: 0 }
    } else {
        TableStats {
            entries_used: match after_marker(all[0], USED@) {
                Some(part) => number_or_zero(trimmed(part), u64::MAX as nat) as u64,
                None => 0,
            },
            entries_max: match after_marker(all[0], SIZE@) {
                Some(part) => number_or_zero(trimmed(split(part, ',')[0]), u64::MAX as nat) as u64,
                None => 0,
            },
        }
    }
}

/// Reads how full the table is from the proxy's answer.
pub fn read_table_stats(response: &str) -> (stats: TableStats)
    ensures
        stats == table_stats_of(response@),
{
    let chars = chars_of(response);
    let all = lines(chars.as_slice());
    if all.len() == 0 {
        return TableStats::default();
    }
    let header = &all[0];
    proof {
        assert(texts(all@)[0] == header@);
    }
    let used = chars_of(USED);
    let size = chars_of(SIZE);
    let entries_used = match read_after_marker(header.as_slice(), used.as_slice()) {
        Some(part) => {
            let number = trim(part.as_slice());
            read_number(number.as_slice(), u64::MAX)
        },
        None => 0,
    };
    let entries_max = match read_after_marker(header.as_slice(), size.as_slice()) {
        Some(part) => {
            let fields = split_chars(part.as_slice(), ',');
            proof {
                lemma_split_len(part@, ',');
                assert(texts(fields@)[0] == fields@[0]@);
            }
            let number = trim(fields[0].as_slice());
            read_number(number.as_slice(), u64::MAX)
        },
        None => 0,
    };
    TableStats { entries_used, entries_max }
}

} // verus!
