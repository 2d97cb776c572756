//! Account statements: aggregation of posting lines since the last closed
//! statement, and the Simulated to Closed lifecycle.

use vstd::prelude::*;
use crate::account::{ChartOfAccount, Ledger, LedgerAccountRecord};
use crate::fresh::{fresh_id, now_micros};
use crate::posting::{
    is_chain, last_tip, link_antecedent, posting_hash, seal_posting, ChainTip, HashRecord, Posting, PostingLine,
    PostingStatus, PostingType,
};

verus! {

/// The lifecycle state of a statement: Closed is terminal.
#[derive(Clone, Copy, Debug, PartialEq, Eq, Structural)]
pub enum StmtStatus {
    Simulated,
    Closed,
}

/// A statement row: the totals of an account at one point in time.
#[derive(Clone, Copy, Debug, PartialEq, Eq, Structural)]
pub struct AccountStmtRecord {
    pub id: u128,
    pub account_id: u128,
    /// The trace of the first line aggregated in the pass that built the row.
    pub youngest_pst_id: Option<u128>,
    pub total_debit: u128,
    pub total_credit: u128,
    /// The sealing posting, once the statement is closed.
    pub posting_id: Option<u128>,
    pub pst_time: i64,
    pub stmt_status: StmtStatus,
    /// The trace of the last line aggregated in the pass that built the row.
    pub latest_pst_id: Option<u128>,
    pub stmt_seq_nbr: u64,
}

/// The audit record of one line's contribution to one statement.
#[derive(Clone, Copy, Debug, PartialEq, Eq)]
pub struct PostingTrace {
    pub id: u128,
    pub tgt_pst_id: u128,
    pub src_pst_time: i64,
    pub src_pst_id: u128,
    pub src_opr_id: [u8; 34],
    pub account_id: u128,
    pub debit_amount: u128,
    pub credit_amount: u128,
    pub src_pst_hash: Option<[u8; 32]>,
}

/// A ledger as storage holds it.
#[derive(Clone, Copy, Debug, PartialEq, Eq, Structural)]
pub struct LedgerRecord {
    pub id: u128,
    pub coa_id: u128,
}

/// Why a statement operation failed.
#[derive(Clone, Copy, Debug, PartialEq, Eq, Structural)]
pub enum ServiceError {
    StorageFailure,
    LedgerAccountNotFound,
    LedgerNotFound,
    ChartOfAccountNotFound,
    StatementNotFound,
    StatementAlreadyClosed,
    /// A total or a sequence number would leave its integer range.
    Overflow,
}

/// The lines that a statement takes in: those of one account, after the
/// baseline statement's time (if any) and up to the reference time, both
/// times in microseconds since the Unix epoch.
#[derive(Clone, Copy, Debug, PartialEq, Eq, Structural)]
pub struct Window {
    pub account_id: u128,
    pub after: Option<i64>,
    pub until: i64,
}

/// A freshly built statement and the traces of the lines it aggregated, in
/// the order they were aggregated.
#[derive(Clone, Debug)]
pub struct Aggregation {
    pub stmt: AccountStmtRecord,
    pub traces: Vec<PostingTrace>,
}

/// What closing a statement writes: the sealing posting, then the statement.
#[derive(Clone, Debug)]
pub struct Closing {
    pub posting: Posting,
    pub stmt: AccountStmtRecord,
}

/// A line at the baseline's own time was already counted by the baseline, so
/// the window is open at that end and closed at the reference time.
pub open spec fn admits(w: Window, l: PostingLine) -> bool {
    &&& l.account_id == w.account_id
    &&& l.pst_time <= w.until
    &&& match w.after {
        Some(t) => t < l.pst_time,
        None => true,
    }
}

pub open spec fn window_of(account_id: u128, baseline: Option<AccountStmtRecord>, ref_time: i64) -> Window {
    Window {
        account_id,
        after: match baseline {
            Some(b) => Some(b.pst_time),
            None => None,
        },
        until: ref_time,
    }
}

pub open spec fn debit_total(w: Window, lines: Seq<PostingLine>) -> nat
    decreases lines.len(),
{
    if lines.len() == 0 {
        0
    } else {
        debit_total(w, lines.drop_last()) + if admits(w, lines.last()) {
            lines.last().debit_amount as nat
        } else {
            0
        }
    }
}

pub open spec fn credit_total(w: Window, lines: Seq<PostingLine>) -> nat
    decreases lines.len(),
{
    if lines.len() == 0 {
        0
    } else {
        credit_total(w, lines.drop_last()) + if admits(w, lines.last()) {
            lines.last().credit_amount as nat
        } else {
            0
        }
    }
}

pub open spec fn trace_for(stmt_id: u128, account_id: u128, l: PostingLine, id: u128) -> PostingTrace {
    PostingTrace {
        id,
        tgt_pst_id: stmt_id,
        src_pst_time: l.pst_time,
        src_pst_id: l.id,
        src_opr_id: l.opr_id,
        account_id,
        debit_amount: l.debit_amount,
        credit_amount: l.credit_amount,
        src_pst_hash: l.hash,
    }
}

/// The traces of the admitted lines, in line order; the trace of the line at
/// index `k` has the identity `ids[k]`.
pub open spec fn traces_of(stmt_id: u128, w: Window, lines: Seq<PostingLine>, ids: Seq<u128>) -> Seq<PostingTrace>
    decreases lines.len(),
{
    if lines.len() == 0 {
        Seq::empty()
    } else {
        let k = lines.len() - 1;
        let prev = traces_of(stmt_id, w, lines.drop_last(), ids);
        if admits(w, lines[k]) {
            prev.push(trace_for(stmt_id, w.account_id, lines[k], ids[k]))
        } else {
            prev
        }
    }
}

pub open spec fn base_debit(baseline: Option<AccountStmtRecord>) -> nat {
    match baseline {
        Some(b) => b.total_debit as nat,
        None => 0,
    }
}

pub open spec fn base_credit(baseline: Option<AccountStmtRecord>) -> nat {
    match baseline {
        Some(b) => b.total_credit as nat,
        None => 0,
    }
}

pub open spec fn next_seq(baseline: Option<AccountStmtRecord>) -> nat {
    match baseline {
        Some(b) => (b.stmt_seq_nbr + 1) as nat,
        None => 0,
    }
}

/// Whether the totals and the sequence number of the statement fit their
/// integer types.
pub open spec fn fits(w: Window, baseline: Option<AccountStmtRecord>, lines: Seq<PostingLine>) -> bool {
    &&& base_debit(baseline) + debit_total(w, lines) <= u128::MAX
    &&& base_credit(baseline) + credit_total(w, lines) <= u128::MAX
    &&& next_seq(baseline) <= u64::MAX
}

/// The Simulated statement that aggregates the admitted lines on top of the
/// baseline's totals.
pub open spec fn built_stmt(
    stmt_id: u128,
    w: Window,
    baseline: Option<AccountStmtRecord>,
    lines: Seq<PostingLine>,
    ids: Seq<u128>,
) -> AccountStmtRecord {
    let traces = traces_of(stmt_id, w, lines, ids);
    AccountStmtRecord {
        id: stmt_id,
        account_id: w.account_id,
        youngest_pst_id: if traces.len() > 0 {
            Some(traces[0].id)
        } else {
            None
        },
        total_debit: (base_debit(baseline) + debit_total(w, lines)) as u128,
        total_credit: (base_credit(baseline) + credit_total(w, lines)) as u128,
        posting_id: None,
        pst_time: w.until,
        stmt_status: StmtStatus::Simulated,
        latest_pst_id: if traces.len() > 0 {
            Some(traces.last().id)
        } else {
            None
        },
        stmt_seq_nbr: next_seq(baseline) as u64,
    }
}

proof fn lemma_totals_grow(w: Window, lines: Seq<PostingLine>, i: int, j: int)
    requires
        0 <= i <= j <= lines.len(),
    ensures
        debit_total(w, lines.take(i)) <= debit_total(w, lines.take(j)),
        credit_total(w, lines.take(i)) <= credit_total(w, lines.take(j)),
    decreases j - i,
{
    if i < j {
        lemma_totals_grow(w, lines, i, j - 1);
        assert(lines.take(j).drop_last() =~= lines.take(j - 1));
    }
}

/// Builds a statement for the account at `ref_time` from the baseline (the
/// most recent Closed statement before `ref_time`, if any) and the lines that
/// storage gave, using `stmt_id` for the statement and `trace_ids[k]` for the
/// trace of `lines[k]`.
pub fn build_stmt(
    account: Option<LedgerAccountRecord>,
    baseline: Option<AccountStmtRecord>,
    lines: &Vec<PostingLine>,
    ref_time: i64,
    stmt_id: u128,
    trace_ids: &Vec<u128>,
) -> (r: Result<Aggregation, ServiceError>)
    requires
        trace_ids@.len() == lines@.len(),
    ensures
        match account {
            None => r == Err::<Aggregation, ServiceError>(ServiceError::LedgerAccountNotFound),
            Some(a) => {
                let w = window_of(a.id, baseline, ref_time);
                if fits(w, baseline, lines@) {
                    r matches Ok(g) && g.stmt == built_stmt(stmt_id, w, baseline, lines@, trace_ids@)
                        && g.traces@ == traces_of(stmt_id, w, lines@, trace_ids@)
                } else {
                    r == Err::<Aggregation, ServiceError>(ServiceError::Overflow)
                }
            },
        },
{
    let a = match account {
        Some(a) => a,
        None => {
            return Err(ServiceError::LedgerAccountNotFound);
        },
    };
    let w = Window {
        account_id: a.id,
        after: match baseline {
            Some(b) => Some(b.pst_time),
            None => None,
        },
        until: ref_time,
    };
    let ghost gw = window_of(a.id, baseline, ref_time);
    assert(w == gw);
    let (mut debit, mut credit, seq) = match baseline {
        Some(b) => {
            if b.stmt_seq_nbr == u64::MAX {
                return Err(ServiceError::Overflow);
            }
            (b.total_debit, b.total_credit, b.stmt_seq_nbr + 1)
        },
        None => (0u128, 0u128, 0u64),
    };
    let mut traces: Vec<PostingTrace> = Vec::new();
    let mut youngest: Option<u128> = None;
    let mut latest: Option<u128> = None;
    let mut i: usize = 0;
    while i < lines.len()
        invariant
            i <= lines@.len(),
            trace_ids@.len() == lines@.len(),
            w == gw,
            account == Some(a),
            gw == window_of(a.id, baseline, ref_time),
            seq == next_seq(baseline),
            debit == base_debit(baseline) + debit_total(w, lines@.take(i as int)),
            credit == base_credit(baseline) + credit_total(w, lines@.take(i as int)),
            traces@ == traces_of(stmt_id, w, lines@.take(i as int), trace_ids@),
            youngest == (if traces@.len() > 0 {
                Some(traces@[0].id)
            } else {
                None::<u128>
            }),
            latest == (if traces@.len() > 0 {
                Some(traces@.last().id)
            } else {
                None::<u128>
            }),
        decreases lines@.len() - i,
    {
        let l = lines[i];
        let ghost prefix = lines@.take(i + 1);
        proof {
            assert(prefix.drop_last() =~= lines@.take(i as int));
            assert(prefix[i as int] == l);
            lemma_totals_grow(w, lines@, i + 1, lines@.len() as int);
            assert(lines@.take(lines@.len() as int) =~= lines@);
        }
        if l.account_id == w.account_id && l.pst_time <= w.until && match w.after {
            Some(t) => t < l.pst_time,
            None => true,
        } {
            if l.debit_amount > u128::MAX - debit || l.credit_amount > u128::MAX - credit {
                return Err(ServiceError::Overflow);
            }
            let tid = trace_ids[i];
            let trace = PostingTrace {
                id: tid,
                tgt_pst_id: stmt_id,
                src_pst_time: l.pst_time,
                src_pst_id: l.id,
                src_opr_id: l.opr_id,
                account_id: w.account_id,
                debit_amount: l.debit_amount,
                credit_amount: l.credit_amount,
                src_pst_hash: l.hash,
            };
            if youngest.is_none() {
                youngest = Some(tid);
            }
            latest = Some(tid);
            debit = debit + l.debit_amount;
            credit = credit + l.credit_amount;
            traces.push(trace);
        }
        i = i + 1;
    }
    assert(lines@.take(lines@.len() as int) =~= lines@);
    let stmt = AccountStmtRecord {
        id: stmt_id,
        account_id: a.id,
        youngest_pst_id: youngest,
        total_debit: debit,
        total_credit: credit,
        posting_id: None,
        pst_time: ref_time,
        stmt_status: StmtStatus::Simulated,
        latest_pst_id: latest,
        stmt_seq_nbr: seq,
    };
    Ok(Aggregation { stmt, traces })
}

/// Whether every byte of an actor or operation field is zero.
pub open spec fn is_blank(b: [u8; 34]) -> bool {
    forall|i: int| 0 <= i < 34 ==> #[trigger] b@[i] == 0u8
}

/// Whether `p` is the sealing posting of statement `s`: a balance-statement
/// posting without lines, stamped with the statement's time, recorded at
/// `now`, linked to the ledger's most recent posting `tip` and carrying its
/// own content hash.
pub open spec fn is_closing_posting(
    p: Posting,
    s: AccountStmtRecord,
    ledger: Ledger,
    tip: Option<ChainTip>,
    id: u128,
    now: i64,
) -> bool {
    &&& p.id == id
    &&& is_blank(p.record_user)
    &&& is_blank(p.opr_id)
    &&& is_blank(p.opr_type)
    &&& p.record_time == now
    &&& p.opr_time == now
    &&& p.val_time == Some(now)
    &&& p.pst_time == s.pst_time
    &&& p.pst_type == PostingType::BalStmt
    &&& p.pst_status == PostingStatus::Posted
    &&& p.ledger == ledger
    &&& p.lines@.len() == 0
    &&& p.discarded_id is None
    &&& p.discarded_time is None
    &&& p.discarding_id is None
    &&& p.hash_record.antecedent_id == (match tip {
        Some(t) => Some(t.id),
        None => None,
    })
    &&& p.hash_record.antecedent_hash == (match tip {
        Some(t) => t.hash,
        None => None,
    })
    &&& p.hash_record.hash matches Some(h) && h@ == posting_hash(p)
}

/// The statement `s`, Closed and sealed by the posting `posting_id`.
pub open spec fn closed_stmt(s: AccountStmtRecord, posting_id: u128) -> AccountStmtRecord {
    AccountStmtRecord { stmt_status: StmtStatus::Closed, posting_id: Some(posting_id), ..s }
}

/// The stored statement, if it exists and is not Closed yet.
pub fn check_closable(stored: Option<AccountStmtRecord>) -> (r: Result<AccountStmtRecord, ServiceError>)
    ensures
        match stored {
            None => r == Err::<AccountStmtRecord, ServiceError>(ServiceError::StatementNotFound),
            Some(s) => if s.stmt_status == StmtStatus::Closed {
                r == Err::<AccountStmtRecord, ServiceError>(ServiceError::StatementAlreadyClosed)
            } else {
                r == Ok::<AccountStmtRecord, ServiceError>(s)
            },
        },
{
    match stored {
        None => Err(ServiceError::StatementNotFound),
        Some(s) => {
            if s.stmt_status == StmtStatus::Closed {
                Err(ServiceError::StatementAlreadyClosed)
            } else {
                Ok(s)
            }
        },
    }
}

/// Plans the close of a stored statement: the sealing posting, with identity
/// `posting_id` and recorded at `now`, and the statement row marked Closed.
/// `ledger` and `coa` are the stored ledger of the statement's account and
/// its chart of accounts; `tip` is the ledger's most recent posting.
pub fn close_with(
    stored: Option<AccountStmtRecord>,
    ledger: Option<LedgerRecord>,
    coa: Option<ChartOfAccount>,
    tip: Option<ChainTip>,
    posting_id: u128,
    now: i64,
) -> (r: Result<Closing, ServiceError>)
    ensures
        match stored {
            None => r == Err::<Closing, ServiceError>(ServiceError::StatementNotFound),
            Some(s) => if s.stmt_status == StmtStatus::Closed {
                r == Err::<Closing, ServiceError>(ServiceError::StatementAlreadyClosed)
            } else {
                match (ledger, coa) {
                    (None, _) => r == Err::<Closing, ServiceError>(ServiceError::LedgerNotFound),
                    (Some(_), None) => r == Err::<Closing, ServiceError>(
                        ServiceError::ChartOfAccountNotFound,
                    ),
                    (Some(l), Some(c)) => r matches Ok(cl) && cl.stmt == closed_stmt(s, posting_id)
                        && is_closing_posting(
                        cl.posting,
                        s,
                        Ledger { id: l.id, coa: c },
                        tip,
                        posting_id,
                        now,
                    ),
                }
            },
        },
{
    let s = match check_closable(stored) {
        Ok(s) => s,
        Err(e) => {
            return Err(e);
        },
    };
    let l = match ledger {
        Some(l) => l,
        None => {
            return Err(ServiceError::LedgerNotFound);
        },
    };
    let c = match coa {
        Some(c) => c,
        None => {
            return Err(ServiceError::ChartOfAccountNotFound);
        },
    };
    let mut posting = Posting {
        id: posting_id,
        record_user: [0u8; 34],
        record_time: now,
        opr_id: [0u8; 34],
        opr_time: now,
        opr_type: [0u8; 34],
        pst_time: s.pst_time,
        pst_type: PostingType::BalStmt,
        pst_status: PostingStatus::Posted,
        ledger: Ledger { id: l.id, coa: c },
        val_time: Some(now),
        lines: Vec::new(),
        discarded_id: None,
        discarded_time: None,
        discarding_id: None,
        hash_record: HashRecord { hash: None, antecedent_id: None, antecedent_hash: None },
    };
    link_antecedent(&mut posting, tip);
    seal_posting(&mut posting);
    proof {
        crate::posting::law_hash_ignores_stored_hash(posting, None);
    }
    let closed = AccountStmtRecord { stmt_status: StmtStatus::Closed, posting_id: Some(posting_id), ..s };
    Ok(Closing { posting, stmt: closed })
}

/// Building twice from the same account, baseline, lines and reference time
/// gives two statements with identical totals, time, status and sequence
/// number; each carries the identity it was given, so the two rows are
/// distinct whenever the identities are.
pub proof fn law_rebuild_same_totals(
    w: Window,
    baseline: Option<AccountStmtRecord>,
    lines: Seq<PostingLine>,
    id1: u128,
    ids1: Seq<u128>,
    id2: u128,
    ids2: Seq<u128>,
)
    ensures
        built_stmt(id1, w, baseline, lines, ids1).id == id1,
        built_stmt(id2, w, baseline, lines, ids2).id == id2,
        built_stmt(id1, w, baseline, lines, ids1).total_debit == built_stmt(
            id2,
            w,
            baseline,
            lines,
            ids2,
        ).total_debit,
        built_stmt(id1, w, baseline, lines, ids1).total_credit == built_stmt(
            id2,
            w,
            baseline,
            lines,
            ids2,
        ).total_credit,
        built_stmt(id1, w, baseline, lines, ids1).pst_time == built_stmt(
            id2,
            w,
            baseline,
            lines,
            ids2,
        ).pst_time,
        built_stmt(id1, w, baseline, lines, ids1).stmt_status == built_stmt(
            id2,
            w,
            baseline,
            lines,
            ids2,
        ).stmt_status,
        built_stmt(id1, w, baseline, lines, ids1).stmt_seq_nbr == built_stmt(
            id2,
            w,
            baseline,
            lines,
            ids2,
        ).stmt_seq_nbr,
{
}

/// A sealing posting linked to the ledger's most recent posting extends the
/// ledger's chain: the genesis posting has no antecedent, and each later
/// posting holds its predecessor's identity and stored hash.
pub proof fn law_closing_extends_chain(
    ps: Seq<Posting>,
    p: Posting,
    s: AccountStmtRecord,
    ledger: Ledger,
    id: u128,
    now: i64,
)
    requires
        is_chain(ps),
        is_closing_posting(p, s, ledger, last_tip(ps), id, now),
    ensures
        is_chain(ps.push(p)),
{
    let qs = ps.push(p);
    assert forall|i: int| 0 < i < qs.len() implies (#[trigger] qs[i]).hash_record.antecedent_id
        == Some(qs[i - 1].id) && qs[i].hash_record.antecedent_hash
        == qs[i - 1].hash_record.hash by {
        if i < ps.len() {
            assert(qs[i] == ps[i]);
            assert(qs[i - 1] == ps[i - 1]);
        }
    }
}

/// The read, create and close operations on account statements. Storage is
/// not held here: each operation takes what storage gave and returns what is
/// to be written.
pub struct AccountStmtServiceImpl {}

fn draw_ids(n: usize) -> (r: Vec<u128>)
    ensures
        r@.len() == n,
{
    let mut ids: Vec<u128> = Vec::new();
    let mut i: usize = 0;
    while i < n
        invariant
            i <= n,
            ids@.len() == i,
        decreases n - i,
    {
        ids.push(fresh_id());
        i = i + 1;
    }
    ids
}

impl AccountStmtServiceImpl {
    pub fn new() -> (r: Self) {
        AccountStmtServiceImpl {}
    }

    /// The statement of an account at `ref_time`, built under fresh
    /// identities from the account record (absent: not found), the most
    /// recent Closed statement before `ref_time` and the account's lines up
    /// to `ref_time`. Nothing of it is to be written.
    pub fn read_stmt(
        &self,
        account: Option<LedgerAccountRecord>,
        baseline: Option<AccountStmtRecord>,
        lines: &Vec<PostingLine>,
        ref_time: i64,
    ) -> (r: Result<AccountStmtRecord, ServiceError>)
        ensures
            match account {
                None => r == Err::<AccountStmtRecord, ServiceError>(
                    ServiceError::LedgerAccountNotFound,
                ),
                Some(a) => {
                    let w = window_of(a.id, baseline, ref_time);
                    if fits(w, baseline, lines@) {
                        r matches Ok(s) && exists|ids: Seq<u128>|
                            ids.len() == lines@.len() && s == #[trigger] built_stmt(
                                s.id,
                                w,
                                baseline,
                                lines@,
                                ids,
                            )
                    } else {
                        r == Err::<AccountStmtRecord, ServiceError>(ServiceError::Overflow)
                    }
                },
            },
    {
        match self.create_stmt(account, baseline, lines, ref_time) {
            Ok(g) => Ok(g.stmt),
            Err(e) => Err(e),
        }
    }

    /// Like `read_stmt`, and also the traces of the aggregated lines: the
    /// statement row and the traces are to be written, the traces first. Each
    /// call gives a new row.
    pub fn create_stmt(
        &self,
        account: Option<LedgerAccountRecord>,
        baseline: Option<AccountStmtRecord>,
        lines: &Vec<PostingLine>,
        ref_time: i64,
    ) -> (r: Result<Aggregation, ServiceError>)
        ensures
            match account {
                None => r == Err::<Aggregation, ServiceError>(ServiceError::LedgerAccountNotFound),
                Some(a) => {
                    let w = window_of(a.id, baseline, ref_time);
                    if fits(w, baseline, lines@) {
                        r matches Ok(g) && exists|ids: Seq<u128>|
                            ids.len() == lines@.len() && g.stmt == #[trigger] built_stmt(
                                g.stmt.id,
                                w,
                                baseline,
                                lines@,
                                ids,
                            ) && g.traces@ == traces_of(g.stmt.id, w, lines@, ids)
                    } else {
                        r == Err::<Aggregation, ServiceError>(ServiceError::Overflow)
                    }
                },
            },
    {
        let stmt_id = fresh_id();
        let ids = draw_ids(lines.len());
        let r = build_stmt(account, baseline, lines, ref_time, stmt_id, &ids);
        proof {
            if let Some(a) = account {
                let w = window_of(a.id, baseline, ref_time);
                if fits(w, baseline, lines@) {
                    assert(built_stmt(stmt_id, w, baseline, lines@, ids@).id == stmt_id);
                }
            }
        }
        r
    }

    /// Closes a stored statement: the sealing posting gets a fresh identity
    /// and the current time. A statement that is absent or already Closed
    /// gives its error and nothing to write.
    pub fn close_stmt(
        &self,
        stored: Option<AccountStmtRecord>,
        ledger: Option<LedgerRecord>,
        coa: Option<ChartOfAccount>,
        tip: Option<ChainTip>,
    ) -> (r: Result<Closing, ServiceError>)
        ensures
            match stored {
                None => r == Err::<Closing, ServiceError>(ServiceError::StatementNotFound),
                Some(s) => if s.stmt_status == StmtStatus::Closed {
                    r == Err::<Closing, ServiceError>(ServiceError::StatementAlreadyClosed)
                } else {
                    match (ledger, coa) {
                        (None, _) => r == Err::<Closing, ServiceError>(
                            ServiceError::LedgerNotFound,
                        ),
                        (Some(_), None) => r == Err::<Closing, ServiceError>(
                            ServiceError::ChartOfAccountNotFound,
                        ),
                        (Some(l), Some(c)) => r matches Ok(cl) && cl.stmt == closed_stmt(
                            s,
                            cl.posting.id,
                        ) && is_closing_posting(
                            cl.posting,
                            s,
                            Ledger { id: l.id, coa: c },
                            tip,
                            cl.posting.id,
                            cl.posting.record_time,
                        ),
                    }
                },
            },
    {
        let posting_id = fresh_id();
        let now = now_micros();
        close_with(stored, ledger, coa, tip, posting_id, now)
    }
}

} // verus!
