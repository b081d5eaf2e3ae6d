//! Timestamped backups of the two configuration files, and restoration of
//! the most recent one of each kind.
//!
//! The store models the backup directory: one entry per file name, where a
//! name is the kind prefix followed by a fixed-width timestamp. Restoring
//! selects, for each kind, the entry with the greatest timestamp; a kind
//! with no backup leaves the corresponding live file untouched.

use vstd::prelude::*;
use vstd::arithmetic::power::pow;
use crate::digits::{dec_seq, dec_value, dec_string, read_dec, lemma_dec_seq_wf, lemma_dec_round_trip};
use crate::chars::{is_digit_char, matches_at};

verus! {

/// Which of the two configuration files a backup belongs to.
#[derive(Clone, Copy, PartialEq, Eq, Structural, Debug)]
pub enum FileKind {
    Storage,
    State,
}

/// Timestamps are packed decimal `YYYYMMDDHHMMSS`, so they always have
/// fewer than 15 digits.
pub const STAMP_LIMIT: u64 = 100_000_000_000_000;

/// The live contents of the two configuration files; `None` stands for a
/// file that does not exist.
pub struct ConfigContents {
    pub storage: Option<Vec<u8>>,
    pub state: Option<Vec<u8>>,
}

/// Mathematical model of [`ConfigContents`].
pub struct ContentsModel {
    pub storage: Option<Seq<u8>>,
    pub state: Option<Seq<u8>>,
}

impl View for ConfigContents {
    type V = ContentsModel;

    open spec fn view(&self) -> ContentsModel {
        ContentsModel {
            storage: match self.storage {
                Some(v) => Some(v@),
                None => None,
            },
            state: match self.state {
                Some(v) => Some(v@),
                None => None,
            },
        }
    }
}

/// One backup: a byte-identical copy of a file of the given kind, taken at
/// the given timestamp.
pub struct BackupEntry {
    pub kind: FileKind,
    pub stamp: u64,
    pub content: Vec<u8>,
}

/// Mathematical model of [`BackupEntry`].
pub struct EntryModel {
    pub kind: FileKind,
    pub stamp: u64,
    pub content: Seq<u8>,
}

impl View for BackupEntry {
    type V = EntryModel;

    open spec fn view(&self) -> EntryModel {
        EntryModel { kind: self.kind, stamp: self.stamp, content: self.content@ }
    }
}

/// The backup of kind `k` with the greatest timestamp, if any; between two
/// entries with equal stamps the later one stands, as a later copy under
/// the same file name overwrites the earlier one.
pub open spec fn best_backup(s: Seq<EntryModel>, k: FileKind) -> Option<EntryModel>
    decreases s.len(),
{
    if s.len() == 0 {
        None
    } else {
        let prev = best_backup(s.drop_last(), k);
        let e = s.last();
        if e.kind != k {
            prev
        } else {
            match prev {
                None => Some(e),
                Some(p) => if e.stamp >= p.stamp {
                    Some(e)
                } else {
                    Some(p)
                },
            }
        }
    }
}

/// What backing up adds to the store: one entry per live file that exists.
pub open spec fn spec_backup(s: Seq<EntryModel>, c: ContentsModel, stamp: u64) -> Seq<EntryModel> {
    let s1 = match c.storage {
        Some(bytes) => s.push(EntryModel { kind: FileKind::Storage, stamp, content: bytes }),
        None => s,
    };
    match c.state {
        Some(bytes) => s1.push(EntryModel { kind: FileKind::State, stamp, content: bytes }),
        None => s1,
    }
}

/// What restoring does to the live files: each kind with a backup takes the
/// content of its most recent one; a kind without a backup is untouched.
pub open spec fn spec_restore(s: Seq<EntryModel>, c: ContentsModel) -> ContentsModel {
    ContentsModel {
        storage: match best_backup(s, FileKind::Storage) {
            Some(e) => Some(e.content),
            None => c.storage,
        },
        state: match best_backup(s, FileKind::State) {
            Some(e) => Some(e.content),
            None => c.state,
        },
    }
}

/// The backup directory.
pub struct BackupStore {
    entries: Vec<BackupEntry>,
}

impl View for BackupStore {
    type V = Seq<EntryModel>;

    closed spec fn view(&self) -> Seq<EntryModel> {
        self.entries@.map_values(|e: BackupEntry| e@)
    }
}

fn copy_bytes(src: &Vec<u8>) -> (r: Vec<u8>)
    ensures
        r@ == src@,
{
    let mut out: Vec<u8> = Vec::new();
    let mut i: usize = 0;
    while i < src.len()
        invariant
            0 <= i <= src.len(),
            out@ =~= src@.subrange(0, i as int),
        decreases src.len() - i,
    {
        out.push(src[i]);
        i = i + 1;
    }
    proof {
        assert(out@ =~= src@);
    }
    out
}

impl BackupStore {
    pub fn new() -> (r: BackupStore)
        ensures
            r@ =~= Seq::<EntryModel>::empty(),
    {
        BackupStore { entries: Vec::new() }
    }

    pub fn push_entry(&mut self, entry: BackupEntry)
        ensures
            final(self)@ =~= old(self)@.push(entry@),
    {
        self.entries.push(entry);
        proof {
            assert(final(self)@ =~= old(self)@.push(entry@));
        }
    }

    pub fn len(&self) -> (r: usize)
        ensures
            r == self@.len(),
    {
        self.entries.len()
    }

    /// Copies every live file that exists into the store under the given
    /// timestamp; a missing live file is skipped, not an error.
    pub fn backup(&mut self, live: &ConfigContents, stamp: u64)
        ensures
            final(self)@ =~= spec_backup(old(self)@, live@, stamp),
    {
        if let Some(content) = &live.storage {
            let entry = BackupEntry {
                kind: FileKind::Storage,
                stamp,
                content: copy_bytes(content),
            };
            self.push_entry(entry);
        }
        if let Some(content) = &live.state {
            let entry = BackupEntry { kind: FileKind::State, stamp, content: copy_bytes(content) };
            self.push_entry(entry);
        }
    }

    /// Overwrites each live file with the most recent backup of its kind;
    /// a kind with no backup leaves the live file as it was.
    pub fn restore(&self, live: &mut ConfigContents)
        ensures
            final(live)@ == spec_restore(self@, old(live)@),
    {
        let mut best_storage: Option<usize> = None;
        let mut best_state: Option<usize> = None;
        let mut i: usize = 0;
        proof {
            assert(self@.subrange(0, 0) =~= Seq::<EntryModel>::empty());
        }
        while i < self.entries.len()
            invariant
                0 <= i <= self.entries.len(),
                self@.len() == self.entries@.len(),
                forall|j: int| 0 <= j < self.entries@.len() ==> self@[j] == self.entries@[j]@,
                match best_storage {
                    Some(b) => 0 <= b < i && best_backup(self@.subrange(0, i as int), FileKind::Storage)
                        == Some(self@[b as int]),
                    None => best_backup(self@.subrange(0, i as int), FileKind::Storage) is None,
                },
                match best_state {
                    Some(b) => 0 <= b < i && best_backup(self@.subrange(0, i as int), FileKind::State)
                        == Some(self@[b as int]),
                    None => best_backup(self@.subrange(0, i as int), FileKind::State) is None,
                },
            decreases self.entries.len() - i,
        {
            let ghost pre = self@.subrange(0, i as int);
            let ghost post = self@.subrange(0, i as int + 1);
            proof {
                assert(post.drop_last() =~= pre);
                assert(post.last() == self@[i as int]);
            }
            let e = &self.entries[i];
            match e.kind {
                FileKind::Storage => {
                    let replace = match best_storage {
                        None => true,
                        Some(b) => e.stamp >= self.entries[b].stamp,
                    };
                    if replace {
                        best_storage = Some(i);
                    }
                },
                FileKind::State => {
                    let replace = match best_state {
                        None => true,
                        Some(b) => e.stamp >= self.entries[b].stamp,
                    };
                    if replace {
                        best_state = Some(i);
                    }
                },
            }
            i = i + 1;
        }
        proof {
            assert(self@.subrange(0, self@.len() as int) =~= self@);
        }
        if let Some(b) = best_storage {
            live.storage = Some(copy_bytes(&self.entries[b].content));
        }
        if let Some(b) = best_state {
            live.state = Some(copy_bytes(&self.entries[b].content));
        }
    }
}

/// Every best backup is an entry of the store.
proof fn lemma_best_is_member(s: Seq<EntryModel>, k: FileKind)
    requires
        best_backup(s, k) is Some,
    ensures
        exists|i: int| 0 <= i < s.len() && s[i] == best_backup(s, k).unwrap(),
    decreases s.len(),
{
    let e = s.last();
    if e.kind == k && best_backup(s, k) == Some(e) {
        assert(s[s.len() - 1] == e);
    } else {
        lemma_best_is_member(s.drop_last(), k);
        let p = best_backup(s.drop_last(), k).unwrap();
        let i = choose|i: int| 0 <= i < s.drop_last().len() && s.drop_last()[i] == p;
        assert(s[i] == p);
    }
}

/// Pushing an entry of kind `k` whose stamp is no older than anything in the
/// store makes it the best backup of kind `k`.
proof fn lemma_best_push_newest(s: Seq<EntryModel>, e: EntryModel, k: FileKind)
    requires
        e.kind == k,
        forall|i: int| 0 <= i < s.len() ==> (#[trigger] s[i]).stamp <= e.stamp,
    ensures
        best_backup(s.push(e), k) == Some(e),
{
    assert(s.push(e).drop_last() =~= s);
    assert(s.push(e).last() == e);
    match best_backup(s, k) {
        None => {},
        Some(p) => {
            lemma_best_is_member(s, k);
            assert(p.stamp <= e.stamp);
        },
    }
}

/// Pushing an entry of another kind does not change the best backup of `k`.
proof fn lemma_best_push_other(s: Seq<EntryModel>, e: EntryModel, k: FileKind)
    requires
        e.kind != k,
    ensures
        best_backup(s.push(e), k) == best_backup(s, k),
{
    assert(s.push(e).drop_last() =~= s);
    assert(s.push(e).last() == e);
}

/// Rollback safety: if both configuration files existed when they were
/// backed up with a fresh timestamp, then whatever a failed mutation left
/// behind, restoring brings both files back to their pre-attempt contents.
pub proof fn lemma_backup_then_restore(
    s: Seq<EntryModel>,
    c: ContentsModel,
    damaged: ContentsModel,
    stamp: u64,
)
    requires
        c.storage is Some,
        c.state is Some,
        forall|i: int| 0 <= i < s.len() ==> (#[trigger] s[i]).stamp <= stamp,
    ensures
        spec_restore(spec_backup(s, c, stamp), damaged) == c,
{
    let e1 = EntryModel { kind: FileKind::Storage, stamp, content: c.storage.unwrap() };
    let e2 = EntryModel { kind: FileKind::State, stamp, content: c.state.unwrap() };
    let s1 = s.push(e1);
    let s2 = s1.push(e2);
    assert(spec_backup(s, c, stamp) =~= s2);
    lemma_best_push_newest(s, e1, FileKind::Storage);
    lemma_best_push_other(s1, e2, FileKind::Storage);
    assert(forall|i: int| 0 <= i < s1.len() ==> (#[trigger] s1[i]).stamp <= stamp);
    lemma_best_push_newest(s1, e2, FileKind::State);
    assert(spec_restore(s2, damaged).storage == c.storage);
    assert(spec_restore(s2, damaged).state == c.state);
}

/// Round trip: backing up and immediately restoring, with no mutation in
/// between, reproduces the live contents exactly.
pub proof fn lemma_backup_restore_round_trip(s: Seq<EntryModel>, c: ContentsModel, stamp: u64)
    requires
        c.storage is Some,
        c.state is Some,
        forall|i: int| 0 <= i < s.len() ==> (#[trigger] s[i]).stamp <= stamp,
    ensures
        spec_restore(spec_backup(s, c, stamp), c) == c,
{
    lemma_backup_then_restore(s, c, c, stamp);
}

/// Restoring from an empty backup directory modifies nothing.
pub proof fn lemma_restore_empty_no_op(s: Seq<EntryModel>, c: ContentsModel)
    requires
        s.len() == 0,
    ensures
        spec_restore(s, c) == c,
{
}

/// The two kinds restore independently: a kind with no backup is left
/// alone even when the other kind is restored.
pub proof fn lemma_restore_kind_independent(s: Seq<EntryModel>, c: ContentsModel)
    ensures
        best_backup(s, FileKind::Storage) is None ==> spec_restore(s, c).storage == c.storage,
        best_backup(s, FileKind::State) is None ==> spec_restore(s, c).state == c.state,
{
}

/// The prefix a backup file name carries for each kind.
pub open spec fn kind_prefix(k: FileKind) -> Seq<char> {
    match k {
        FileKind::Storage => "storage_"@,
        FileKind::State => "state_"@,
    }
}

/// The name of a backup file: kind prefix, eight date digits, an
/// underscore, six time digits, and the `.json` suffix.
pub open spec fn spec_backup_name(k: FileKind, stamp: u64) -> Seq<char> {
    kind_prefix(k) + dec_seq(stamp as int / 1_000_000, 8) + "_"@ + dec_seq(stamp as int % 1_000_000, 6)
        + ".json"@
}

/// Whether the characters of `s` from position `p` on read as a backup
/// name's tail: eight digits, an underscore, six digits, then `.json`.
pub open spec fn tail_ok(s: Seq<char>, p: int) -> bool {
    &&& forall|j: int| p <= j < p + 8 ==> is_digit_char(#[trigger] s[j])
    &&& s[p + 8] == '_'
    &&& forall|j: int| p + 9 <= j < p + 15 ==> is_digit_char(#[trigger] s[j])
    &&& s.subrange(p + 15, p + 20) == ".json"@
}

/// The timestamp the tail of a backup name carries.
pub open spec fn tail_stamp(s: Seq<char>, p: int) -> u64 {
    (dec_value(s.subrange(p, p + 8)) * 1_000_000 + dec_value(s.subrange(p + 9, p + 15))) as u64
}

/// The kind and timestamp a file name denotes, if it is a backup name.
pub open spec fn spec_parse_name(s: Seq<char>) -> Option<(FileKind, u64)> {
    if s.len() == 28 && s.subrange(0, 8) == "storage_"@ && tail_ok(s, 8) {
        Some((FileKind::Storage, tail_stamp(s, 8)))
    } else if s.len() == 26 && s.subrange(0, 6) == "state_"@ && tail_ok(s, 6) {
        Some((FileKind::State, tail_stamp(s, 6)))
    } else {
        None
    }
}

/// Reads a backup file name back into its kind and timestamp; `None` for
/// any name that is not exactly of the backup shape.
pub fn parse_backup_name(name: &str) -> (r: Option<(FileKind, u64)>)
    ensures
        r == spec_parse_name(name@),
{
    proof {
        reveal_strlit("storage_");
        reveal_strlit("state_");
        reveal_strlit(".json");
    }
    let n = name.unicode_len();
    let (kind, p): (FileKind, usize) = if n == 28 && matches_at(name, 0, "storage_") {
        (FileKind::Storage, 8)
    } else if n == 26 && matches_at(name, 0, "state_") {
        (FileKind::State, 6)
    } else {
        return None;
    };
    let d1 = match read_dec(name, p, 8) {
        Some(v) => v,
        None => {
            return None;
        },
    };
    if name.get_char(p + 8) != '_' {
        return None;
    }
    let d2 = match read_dec(name, p + 9, 6) {
        Some(v) => v,
        None => {
            return None;
        },
    };
    if !matches_at(name, p + 15, ".json") {
        return None;
    }
    proof {
        reveal(vstd::arithmetic::power::pow);
        assert(d1 < 100_000_000) by {
            reveal_with_fuel(vstd::arithmetic::power::pow, 9);
        }
        assert(d2 < 1_000_000) by {
            reveal_with_fuel(vstd::arithmetic::power::pow, 7);
        }
    }
    let stamp = d1 * 1_000_000 + d2;
    Some((kind, stamp))
}

/// A rendered backup name reads back as exactly its kind and timestamp.
pub proof fn lemma_backup_name_round_trip(k: FileKind, stamp: u64)
    requires
        stamp < STAMP_LIMIT,
    ensures
        spec_parse_name(spec_backup_name(k, stamp)) == Some((k, stamp)),
{
    reveal_strlit("storage_");
    reveal_strlit("state_");
    reveal_strlit("_");
    reveal_strlit(".json");
    let s = spec_backup_name(k, stamp);
    let hi = stamp as int / 1_000_000;
    let lo = stamp as int % 1_000_000;
    let p = kind_prefix(k).len() as int;
    lemma_dec_seq_wf(hi, 8);
    lemma_dec_seq_wf(lo, 6);
    assert(s.len() == p + 20);
    assert(s.subrange(0, p) =~= kind_prefix(k));
    assert(s.subrange(p, p + 8) =~= dec_seq(hi, 8));
    assert(s[p + 8] == '_');
    assert(s.subrange(p + 9, p + 15) =~= dec_seq(lo, 6));
    assert(s.subrange(p + 15, p + 20) =~= ".json"@);
    assert forall|j: int| p <= j < p + 8 implies is_digit_char(#[trigger] s[j]) by {
        assert(s[j] == dec_seq(hi, 8)[j - p]);
    }
    assert forall|j: int| p + 9 <= j < p + 15 implies is_digit_char(#[trigger] s[j]) by {
        assert(s[j] == dec_seq(lo, 6)[j - p - 9]);
    }
    assert(tail_ok(s, p));
    assert(hi < 100_000_000 && lo < 1_000_000) by (nonlinear_arith)
        requires
            hi == stamp as int / 1_000_000,
            lo == stamp as int % 1_000_000,
            0 <= stamp < 100_000_000_000_000,
    ;
    assert(100_000_000 == pow(10, 8) && 1_000_000 == pow(10, 6)) by {
        reveal_with_fuel(vstd::arithmetic::power::pow, 9);
    }
    lemma_dec_round_trip(hi, 8);
    lemma_dec_round_trip(lo, 6);
    vstd::arithmetic::div_mod::lemma_fundamental_div_mod(stamp as int, 1_000_000);
    assert(tail_stamp(s, p) == stamp);
    match k {
        FileKind::Storage => {
            assert(spec_parse_name(s) == Some((k, stamp)));
        },
        FileKind::State => {
            assert(s.len() == 26);
            assert(spec_parse_name(s) == Some((k, stamp)));
        },
    }
}

/// For one kind, the lexicographic order of backup file names is exactly
/// the order of their timestamps, since every numeric field is zero-padded:
/// picking the greatest name of a kind, as a directory listing invites,
/// picks the most recent backup.
pub proof fn lemma_backup_name_order(k: FileKind, s1: u64, s2: u64)
    requires
        s1 < s2 < STAMP_LIMIT,
    ensures
        crate::chars::lex_lt(spec_backup_name(k, s1), spec_backup_name(k, s2)),
{
    let hi1 = s1 as int / 1_000_000;
    let lo1 = s1 as int % 1_000_000;
    let hi2 = s2 as int / 1_000_000;
    let lo2 = s2 as int % 1_000_000;
    lemma_dec_seq_wf(hi1, 8);
    lemma_dec_seq_wf(hi2, 8);
    lemma_dec_seq_wf(lo1, 6);
    lemma_dec_seq_wf(lo2, 6);
    assert(100_000_000 == pow(10, 8) && 1_000_000 == pow(10, 6)) by {
        reveal_with_fuel(vstd::arithmetic::power::pow, 9);
    }
    assert(hi1 < 100_000_000 && hi2 < 100_000_000 && lo1 < 1_000_000 && lo2 < 1_000_000)
        by (nonlinear_arith)
        requires
            hi1 == s1 as int / 1_000_000,
            lo1 == s1 as int % 1_000_000,
            hi2 == s2 as int / 1_000_000,
            lo2 == s2 as int % 1_000_000,
            0 <= s1 < 100_000_000_000_000,
            0 <= s2 < 100_000_000_000_000,
    ;
    vstd::arithmetic::div_mod::lemma_div_is_ordered(s1 as int, s2 as int, 1_000_000);
    vstd::arithmetic::div_mod::lemma_fundamental_div_mod(s1 as int, 1_000_000);
    vstd::arithmetic::div_mod::lemma_fundamental_div_mod(s2 as int, 1_000_000);
    let tail1 = "_"@ + dec_seq(lo1, 6) + ".json"@;
    let tail2 = "_"@ + dec_seq(lo2, 6) + ".json"@;
    assert(spec_backup_name(k, s1) =~= kind_prefix(k) + (dec_seq(hi1, 8) + tail1));
    assert(spec_backup_name(k, s2) =~= kind_prefix(k) + (dec_seq(hi2, 8) + tail2));
    if hi1 < hi2 {
        crate::digits::lemma_dec_seq_ordered(hi1, hi2, 8);
        crate::chars::lemma_lex_append(dec_seq(hi1, 8), dec_seq(hi2, 8), tail1, tail2);
    } else {
        assert(hi1 == hi2 && lo1 < lo2);
        crate::digits::lemma_dec_seq_ordered(lo1, lo2, 6);
        crate::chars::lemma_lex_append(dec_seq(lo1, 6), dec_seq(lo2, 6), ".json"@, ".json"@);
        assert(dec_seq(hi1, 8) + tail1 =~= (dec_seq(hi1, 8) + "_"@) + (dec_seq(lo1, 6)
            + ".json"@));
        assert(dec_seq(hi2, 8) + tail2 =~= (dec_seq(hi1, 8) + "_"@) + (dec_seq(lo2, 6)
            + ".json"@));
        crate::chars::lemma_lex_common_prefix(
            dec_seq(hi1, 8) + "_"@,
            dec_seq(lo1, 6) + ".json"@,
            dec_seq(lo2, 6) + ".json"@,
        );
    }
    crate::chars::lemma_lex_common_prefix(
        kind_prefix(k),
        dec_seq(hi1, 8) + tail1,
        dec_seq(hi2, 8) + tail2,
    );
}

/// Backup file names are unique: two names coincide only for the same kind
/// and the same timestamp, so one directory entry stands for one backup.
pub proof fn lemma_backup_names_unique(k1: FileKind, s1: u64, k2: FileKind, s2: u64)
    requires
        s1 < STAMP_LIMIT,
        s2 < STAMP_LIMIT,
        spec_backup_name(k1, s1) == spec_backup_name(k2, s2),
    ensures
        k1 == k2,
        s1 == s2,
{
    lemma_backup_name_round_trip(k1, s1);
    lemma_backup_name_round_trip(k2, s2);
}

/// Renders the backup file name for one kind and timestamp.
pub fn backup_file_name(k: FileKind, stamp: u64) -> (r: String)
    ensures
        r@ == spec_backup_name(k, stamp),
{
    let mut s = match k {
        FileKind::Storage => String::from_str("storage_"),
        FileKind::State => String::from_str("state_"),
    };
    let date = dec_string(stamp / 1_000_000, 8);
    s.append(date.as_str());
    s.append("_");
    let time = dec_string(stamp % 1_000_000, 6);
    s.append(time.as_str());
    s.append(".json");
    s
}

} // verus!
