//! The append-only audit log: immutable records filed per subject (an
//! algorithm id), with gapless per-subject sequence numbers starting at
//! zero and a paginated range read. Records are stamped with the host's
//! clock at write time, never with a caller-supplied timestamp.

use vstd::prelude::*;
use crate::base::{Address, Error};

verus! {

/// One immutable audit entry. Created once by a successful append and
/// never changed thereafter.
#[derive(Debug, PartialEq, Eq)]
pub struct Record {
    /// The host clock's reading when the record was appended.
    pub ts: u64,
    /// The algorithm this record is filed under.
    pub algo_id: u32,
    /// External transaction or settlement reference.
    pub tx_hash: String,
    /// Free-form annotation.
    pub note: String,
}

/// The mathematical value of a `Record`.
pub ghost struct RecordView {
    pub ts: u64,
    pub algo_id: u32,
    pub tx_hash: Seq<char>,
    pub note: Seq<char>,
}

impl View for Record {
    type V = RecordView;

    open spec fn view(&self) -> RecordView {
        RecordView {
            ts: self.ts,
            algo_id: self.algo_id,
            tx_hash: self.tx_hash@,
            note: self.note@,
        }
    }
}

/// All records filed under one subject, in append order.
pub struct SubjectLog {
    pub subject: u32,
    pub records: Vec<Record>,
}

/// The values of a run of records, in the same order.
pub open spec fn views_of(rs: Seq<Record>) -> Seq<RecordView> {
    rs.map_values(|r: Record| r@)
}

/// The history filed under `subject` in a run of per-subject logs: the
/// records of the first log entry carrying that subject, or the empty
/// sequence when none does.
pub open spec fn subject_seq(logs: Seq<SubjectLog>, subject: u32) -> Seq<RecordView>
    decreases logs.len(),
{
    if logs.len() == 0 {
        Seq::empty()
    } else if logs[0].subject == subject {
        views_of(logs[0].records@)
    } else {
        subject_seq(logs.skip(1), subject)
    }
}

/// A subject nowhere in the run has an empty history.
pub proof fn lemma_subject_seq_not_present(logs: Seq<SubjectLog>, subject: u32)
    requires
        forall|j: int| 0 <= j < logs.len() ==> logs[j].subject != subject,
    ensures
        subject_seq(logs, subject) == Seq::<RecordView>::empty(),
    decreases logs.len(),
{
    if logs.len() > 0 {
        assert(forall|j: int| 0 <= j < logs.skip(1).len() ==> logs.skip(1)[j] == logs[j + 1]);
        lemma_subject_seq_not_present(logs.skip(1), subject);
    }
}

/// The history of a subject is the record run of its first (hence only
/// maintained) log entry.
pub proof fn lemma_subject_seq_at(logs: Seq<SubjectLog>, i: int, subject: u32)
    requires
        0 <= i < logs.len(),
        logs[i].subject == subject,
        forall|j: int| 0 <= j < i ==> logs[j].subject != subject,
    ensures
        subject_seq(logs, subject) == views_of(logs[i].records@),
    decreases i,
{
    if i > 0 {
        assert(logs[0].subject != subject);
        assert(forall|j: int| 0 <= j < logs.skip(1).len() ==> logs.skip(1)[j] == logs[j + 1]);
        lemma_subject_seq_at(logs.skip(1), i - 1, subject);
    }
}

/// Replacing one log entry by another of the same subject leaves every
/// other subject's history unchanged.
pub proof fn lemma_subject_seq_update_other(logs: Seq<SubjectLog>, i: int, l: SubjectLog, t: u32)
    requires
        0 <= i < logs.len(),
        logs[i].subject == l.subject,
        t != l.subject,
    ensures
        subject_seq(logs.update(i, l), t) == subject_seq(logs, t),
    decreases logs.len(),
{
    let upd = logs.update(i, l);
    if i == 0 {
        assert(upd.skip(1) =~= logs.skip(1));
    } else {
        assert(upd[0] == logs[0]);
        if logs[0].subject == t {
            assert(upd[0].records == logs[0].records);
        } else {
            assert(upd.skip(1) =~= logs.skip(1).update(i - 1, l));
            lemma_subject_seq_update_other(logs.skip(1), i - 1, l, t);
        }
    }
}

/// Appending a log entry for a new subject leaves every other subject's
/// history unchanged.
pub proof fn lemma_subject_seq_push_other(logs: Seq<SubjectLog>, l: SubjectLog, t: u32)
    requires
        t != l.subject,
    ensures
        subject_seq(logs.push(l), t) == subject_seq(logs, t),
    decreases logs.len(),
{
    let ext = logs.push(l);
    if logs.len() == 0 {
        assert(ext[0] == l);
        assert(ext.skip(1) =~= Seq::<SubjectLog>::empty());
        assert(subject_seq(ext, t) == subject_seq(ext.skip(1), t));
        assert(subject_seq(ext.skip(1), t) == Seq::<RecordView>::empty());
        assert(subject_seq(logs, t) == Seq::<RecordView>::empty());
    } else {
        assert(ext[0] == logs[0]);
        if logs[0].subject == t {
            assert(subject_seq(ext, t) == views_of(ext[0].records@));
            assert(subject_seq(logs, t) == views_of(logs[0].records@));
        } else {
            assert(ext.skip(1) =~= logs.skip(1).push(l));
            lemma_subject_seq_push_other(logs.skip(1), l, t);
            assert(subject_seq(ext, t) == subject_seq(ext.skip(1), t));
            assert(subject_seq(logs, t) == subject_seq(logs.skip(1), t));
        }
    }
}

/// How many records a page may hold: `limit`, cut down to what remains
/// from `start` to the end of the history, and to zero when `start` is at
/// or past the end.
pub open spec fn page_len(count: int, start: int, limit: int) -> int {
    if start >= count {
        0
    } else if limit <= count - start {
        limit
    } else {
        count - start
    }
}

/// The audit-log service instance: an admin who may hand over control and
/// appoint the writer, and the per-subject record runs.
pub struct AlgoHistory {
    /// Administrative authority; `None` until initialized.
    pub admin: Option<Address>,
    /// The identity allowed to append; falls back to the admin while unset.
    pub writer: Option<Address>,
    /// The per-subject record runs.
    pub logs: Vec<SubjectLog>,
}

impl AlgoHistory {
    /// The full history filed under `subject`, oldest first.
    pub open spec fn records(self, subject: u32) -> Seq<RecordView> {
        subject_seq(self.logs@, subject)
    }

    /// Who may append: the appointed writer, or the admin while none is
    /// appointed.
    pub open spec fn effective_writer(self) -> Option<Address> {
        if self.writer is Some {
            self.writer
        } else {
            self.admin
        }
    }

    /// The admin-only gate: missing admin means the instance was never
    /// initialized; any other caller is refused.
    pub open spec fn admin_gate(pre: AlgoHistory, caller: Address) -> Result<(), Error> {
        match pre.admin {
            None => Err(Error::NotFound),
            Some(a) => if caller == a {
                Ok(())
            } else {
                Err(Error::Unauthorized)
            },
        }
    }

    /// Validity of a log state: every subject's sequence numbers fit the
    /// 32-bit counter the service hands out.
    pub open spec fn wf(self) -> bool {
        forall|i: int| 0 <= i < self.logs@.len() ==> (#[trigger] self.logs@[i]).records@.len() <= u32::MAX
    }

    /// A fresh, uninitialized log with no records under any subject.
    pub fn new() -> (h: AlgoHistory)
        ensures
            h.wf(),
            h.admin is None,
            h.writer is None,
            forall|s: u32| h.records(s) == Seq::<RecordView>::empty(),
    {
        let h = AlgoHistory { admin: None, writer: None, logs: Vec::new() };
        proof {
            assert forall|s: u32| h.records(s) == Seq::<RecordView>::empty() by {
                lemma_subject_seq_not_present(h.logs@, s);
            }
        }
        h
    }

    /// The index of the log entry filed under `subject`, if any; earlier
    /// entries never carry the same subject.
    fn find_log(&self, subject: u32) -> (r: Option<usize>)
        ensures
            match r {
                Some(i) => i < self.logs@.len() && self.logs@[i as int].subject == subject
                    && forall|j: int| 0 <= j < i ==> self.logs@[j].subject != subject,
                None => forall|j: int| 0 <= j < self.logs@.len() ==> self.logs@[j].subject != subject,
            },
    {
        let n = self.logs.len();
        let mut i: usize = 0;
        while i < n
            invariant
                i <= n,
                n == self.logs@.len(),
                forall|j: int| 0 <= j < i ==> self.logs@[j].subject != subject,
            decreases n - i,
        {
            if self.logs[i].subject == subject {
                return Some(i);
            }
            i = i + 1;
        }
        None
    }

    /// Appoint the admin, exactly once. The claimed admin must be the
    /// authenticated caller; the admin starts out as the writer too.
    pub fn init(&mut self, caller: Address, admin: Address) -> (r: Result<(), Error>)
        requires
            old(self).wf(),
        ensures
            final(self).wf(),
            r == (if old(self).admin is Some {
                Err::<(), Error>(Error::AlreadyInitialized)
            } else if caller != admin {
                Err::<(), Error>(Error::Unauthorized)
            } else {
                Ok::<(), Error>(())
            }),
            r is Ok ==> final(self).admin == Some(admin) && final(self).writer == Some(admin)
                && final(self).logs == old(self).logs
                && (forall|s: u32| final(self).records(s) == old(self).records(s)),
            r is Err ==> *final(self) == *old(self),
    {
        if self.admin.is_some() {
            return Err(Error::AlreadyInitialized);
        }
        if caller != admin {
            return Err(Error::Unauthorized);
        }
        self.admin = Some(admin);
        self.writer = Some(admin);
        Ok(())
    }

    /// The admin, or `NotFound` before initialization.
    pub fn admin(&self) -> (r: Result<Address, Error>)
        ensures
            r == (match self.admin {
                Some(a) => Ok::<Address, Error>(a),
                None => Err::<Address, Error>(Error::NotFound),
            }),
    {
        match self.admin {
            Some(a) => Ok(a),
            None => Err(Error::NotFound),
        }
    }

    /// Who may append now, or `NotFound` before initialization.
    pub fn writer(&self) -> (r: Result<Address, Error>)
        ensures
            r == (match self.effective_writer() {
                Some(w) => Ok::<Address, Error>(w),
                None => Err::<Address, Error>(Error::NotFound),
            }),
    {
        match self.writer {
            Some(w) => Ok(w),
            None => match self.admin {
                Some(a) => Ok(a),
                None => Err(Error::NotFound),
            },
        }
    }

    /// Appoint the writer. Admin only.
    pub fn set_writer(&mut self, caller: Address, writer: Address) -> (r: Result<(), Error>)
        requires
            old(self).wf(),
        ensures
            final(self).wf(),
            r == AlgoHistory::admin_gate(*old(self), caller),
            r is Ok ==> final(self).writer == Some(writer) && final(self).admin == old(self).admin
                && final(self).logs == old(self).logs
                && (forall|s: u32| final(self).records(s) == old(self).records(s)),
            r is Err ==> *final(self) == *old(self),
    {
        let a = match self.admin {
            Some(a) => a,
            None => return Err(Error::NotFound),
        };
        if caller != a {
            return Err(Error::Unauthorized);
        }
        self.writer = Some(writer);
        Ok(())
    }

    /// Hand administrative control to a new admin. Admin only.
    pub fn transfer_admin(&mut self, caller: Address, new_admin: Address) -> (r: Result<(), Error>)
        requires
            old(self).wf(),
        ensures
            final(self).wf(),
            r == AlgoHistory::admin_gate(*old(self), caller),
            r is Ok ==> final(self).admin == Some(new_admin) && final(self).writer == old(self).writer
                && final(self).logs == old(self).logs
                && (forall|s: u32| final(self).records(s) == old(self).records(s)),
            r is Err ==> *final(self) == *old(self),
    {
        let a = match self.admin {
            Some(a) => a,
            None => return Err(Error::NotFound),
        };
        if caller != a {
            return Err(Error::Unauthorized);
        }
        self.admin = Some(new_admin);
        Ok(())
    }

    /// Append a record under `algo_id`, stamped with the host clock reading
    /// `now`. Writer only. The new record takes the next gapless sequence
    /// number, which starts at zero and is returned as a receipt; every
    /// earlier record and every other subject is left untouched.
    pub fn add_record(&mut self, caller: Address, now: u64, algo_id: u32, tx_hash: String, note: String) -> (r: Result<u32, Error>)
        requires
            old(self).wf(),
            old(self).records(algo_id).len() < u32::MAX,
        ensures
            final(self).wf(),
            match r {
                Ok(seq_no) => {
                    &&& old(self).effective_writer() == Some(caller)
                    &&& seq_no == old(self).records(algo_id).len()
                    &&& final(self).records(algo_id) == old(self).records(algo_id).push(
                        (RecordView { ts: now, algo_id, tx_hash: tx_hash@, note: note@ }))
                    &&& forall|t: u32| t != algo_id ==> final(self).records(t) == old(self).records(t)
                    &&& final(self).admin == old(self).admin
                    &&& final(self).writer == old(self).writer
                },
                Err(e) => {
                    &&& *final(self) == *old(self)
                    &&& match old(self).effective_writer() {
                        None => e == Error::NotFound,
                        Some(w) => w != caller && e == Error::Unauthorized,
                    }
                },
            },
    {
        let w = match self.writer {
            Some(w) => w,
            None => match self.admin {
                Some(a) => a,
                None => return Err(Error::NotFound),
            },
        };
        if caller != w {
            return Err(Error::Unauthorized);
        }
        let rec = Record { ts: now, algo_id, tx_hash, note };
        let ghost rv = rec@;
        match self.find_log(algo_id) {
            Some(li) => {
                proof {
                    lemma_subject_seq_at(self.logs@, li as int, algo_id);
                }
                let seq_no = self.logs[li].records.len() as u32;
                let ghost pre_logs = self.logs@;
                self.logs[li].records.push(rec);
                proof {
                    let l2 = self.logs@[li as int];
                    assert(views_of(l2.records@) =~= views_of(pre_logs[li as int].records@).push(rv));
                    lemma_subject_seq_at(self.logs@, li as int, algo_id);
                    assert forall|t: u32| t != algo_id implies subject_seq(self.logs@, t) == subject_seq(pre_logs, t) by {
                        lemma_subject_seq_update_other(pre_logs, li as int, l2, t);
                    }
                }
                Ok(seq_no)
            },
            None => {
                proof {
                    lemma_subject_seq_not_present(self.logs@, algo_id);
                }
                let mut records: Vec<Record> = Vec::new();
                records.push(rec);
                let l = SubjectLog { subject: algo_id, records };
                let ghost pre_logs = self.logs@;
                let ghost l2 = l;
                self.logs.push(l);
                proof {
                    lemma_subject_seq_at(self.logs@, pre_logs.len() as int, algo_id);
                    assert(views_of(l2.records@) =~= Seq::<RecordView>::empty().push(rv));
                    assert forall|t: u32| t != algo_id implies subject_seq(self.logs@, t) == subject_seq(pre_logs, t) by {
                        lemma_subject_seq_push_other(pre_logs, l2, t);
                    }
                }
                Ok(0)
            },
        }
    }

    /// How many records are filed under `algo_id`; zero when none was ever
    /// appended.
    pub fn count(&self, algo_id: u32) -> (c: u32)
        requires
            self.wf(),
        ensures
            c == self.records(algo_id).len(),
    {
        match self.find_log(algo_id) {
            Some(li) => {
                proof {
                    lemma_subject_seq_at(self.logs@, li as int, algo_id);
                }
                self.logs[li].records.len() as u32
            },
            None => {
                proof {
                    lemma_subject_seq_not_present(self.logs@, algo_id);
                }
                0
            },
        }
    }

    /// The record at `(algo_id, idx)`: exactly the record written by the
    /// append that returned sequence number `idx`, or `None` past the end.
    pub fn get(&self, algo_id: u32, idx: u32) -> (r: Option<Record>)
        ensures
            match r {
                Some(rec) => idx < self.records(algo_id).len()
                    && rec@ == self.records(algo_id)[idx as int],
                None => idx >= self.records(algo_id).len(),
            },
    {
        match self.find_log(algo_id) {
            Some(li) => {
                proof {
                    lemma_subject_seq_at(self.logs@, li as int, algo_id);
                }
                let recs = &self.logs[li].records;
                if (idx as usize) < recs.len() {
                    let rec = &recs[idx as usize];
                    Some(Record {
                        ts: rec.ts,
                        algo_id: rec.algo_id,
                        tx_hash: rec.tx_hash.clone(),
                        note: rec.note.clone(),
                    })
                } else {
                    None
                }
            },
            None => {
                proof {
                    lemma_subject_seq_not_present(self.logs@, algo_id);
                }
                None
            },
        }
    }

    /// A snapshot page of the history under `algo_id`: the records from
    /// sequence number `start` on, in increasing sequence order, at most
    /// `limit` of them. A `start` at or past the end, or a zero `limit`,
    /// yields an empty page rather than an error.
    pub fn list(&self, algo_id: u32, start: u32, limit: u32) -> (r: Vec<Record>)
        requires
            self.wf(),
        ensures
            r@.len() == page_len(self.records(algo_id).len() as int, start as int, limit as int),
            forall|k: int| 0 <= k < r@.len() ==> (#[trigger] r@[k])@ == self.records(algo_id)[start + k],
    {
        let li = match self.find_log(algo_id) {
            Some(li) => li,
            None => {
                proof {
                    lemma_subject_seq_not_present(self.logs@, algo_id);
                }
                return Vec::new();
            },
        };
        proof {
            lemma_subject_seq_at(self.logs@, li as int, algo_id);
        }
        let recs = &self.logs[li].records;
        let total = recs.len();
        let s = start as usize;
        let mut out: Vec<Record> = Vec::new();
        if s >= total {
            return out;
        }
        let mut i = s;
        while i < total && out.len() < limit as usize
            invariant
                s <= i <= total,
                total == recs@.len(),
                out@.len() == i - s,
                out@.len() <= limit as usize,
                forall|k: int| 0 <= k < out@.len() ==> (#[trigger] out@[k])@ == recs@[s + k]@,
            decreases total - i,
        {
            let rec = &recs[i];
            out.push(Record {
                ts: rec.ts,
                algo_id: rec.algo_id,
                tx_hash: rec.tx_hash.clone(),
                note: rec.note.clone(),
            });
            i = i + 1;
        }
        out
    }
}

/// Append-only, gapless sequence numbers: extending a subject's history by
/// one record grows its count by exactly one, files the new record at the
/// old count (so sequence numbers are never skipped or reused), and leaves
/// every earlier record exactly as written.
pub proof fn lemma_append_monotonic(pre: Seq<RecordView>, post: Seq<RecordView>, r: RecordView)
    requires
        post == pre.push(r),
    ensures
        post.len() == pre.len() + 1,
        post[pre.len() as int] == r,
        forall|k: int| 0 <= k < pre.len() ==> post[k] == pre[k],
{
}

} // verus!
