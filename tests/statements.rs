use postings_logic::account::LedgerAccountRecord;
use postings_logic::account::{ChartOfAccount, StoredAccountCategory, StoredBalanceSide};
use postings_logic::posting::{compute_hash, encode_posting, ChainTip, PostingLine, PostingType};
use postings_logic::statement::{
    build_stmt, close_with, AccountStmtRecord, AccountStmtServiceImpl, LedgerRecord,
    ServiceError, StmtStatus,
};
use sha2::Digest;

const ACCOUNT: u128 = 7;

fn account() -> LedgerAccountRecord {
    LedgerAccountRecord {
        id: ACCOUNT,
        ledger_id: 1,
        parent_id: None,
        coa_id: 2,
        balance_side: StoredBalanceSide::Dr,
        category: StoredAccountCategory::AS,
    }
}

fn line(id: u128, account_id: u128, t: i64, debit: u128, credit: u128) -> PostingLine {
    PostingLine {
        id,
        account_id,
        pst_time: t,
        opr_id: [id as u8; 34],
        debit_amount: debit,
        credit_amount: credit,
        hash: Some([id as u8; 32]),
    }
}

fn closed(id: u128, t: i64, debit: u128, credit: u128, seq: u64) -> AccountStmtRecord {
    AccountStmtRecord {
        id,
        account_id: ACCOUNT,
        youngest_pst_id: None,
        total_debit: debit,
        total_credit: credit,
        posting_id: Some(99),
        pst_time: t,
        stmt_status: StmtStatus::Closed,
        latest_pst_id: None,
        stmt_seq_nbr: seq,
    }
}

fn ledger() -> LedgerRecord {
    LedgerRecord { id: 1, coa_id: 2 }
}

#[test]
fn example_two_lines_read_at_second_time() {
    let svc = AccountStmtServiceImpl::new();
    let lines = vec![line(1, ACCOUNT, 100, 100, 0), line(2, ACCOUNT, 200, 0, 30)];
    let s = svc.read_stmt(Some(account()), None, &lines, 200).unwrap();
    assert_eq!(s.total_debit, 100);
    assert_eq!(s.total_credit, 30);
    assert_eq!(s.stmt_status, StmtStatus::Simulated);
    assert_eq!(s.pst_time, 200);
    assert_eq!(s.account_id, ACCOUNT);
    assert_eq!(s.stmt_seq_nbr, 0);
    assert_eq!(s.posting_id, None);
}

#[test]
fn example_close_then_reclose() {
    let svc = AccountStmtServiceImpl::new();
    let lines = vec![line(1, ACCOUNT, 100, 100, 0), line(2, ACCOUNT, 200, 0, 30)];
    let g = svc.create_stmt(Some(account()), None, &lines, 200).unwrap();
    let c = svc
        .close_stmt(Some(g.stmt), Some(ledger()), Some(ChartOfAccount { id: 2 }), None)
        .unwrap();
    assert!(c.posting.lines.is_empty());
    assert_eq!(c.posting.pst_time, 200);
    assert_eq!(c.posting.pst_type, PostingType::BalStmt);
    assert_eq!(c.posting.ledger.id, 1);
    assert_eq!(c.posting.ledger.coa.id, 2);
    assert_eq!(c.stmt.stmt_status, StmtStatus::Closed);
    assert_eq!(c.stmt.posting_id, Some(c.posting.id));
    assert_eq!(c.stmt.total_debit, 100);
    assert_eq!(c.stmt.total_credit, 30);
    assert_eq!(c.stmt.id, g.stmt.id);
    let again = svc.close_stmt(Some(c.stmt), Some(ledger()), Some(ChartOfAccount { id: 2 }), None);
    assert_eq!(again.unwrap_err(), ServiceError::StatementAlreadyClosed);
}

#[test]
fn no_baseline_takes_lines_up_to_ref_time_of_the_account() {
    let lines = vec![
        line(1, ACCOUNT, 50, 10, 1),
        line(2, ACCOUNT, 100, 20, 2),
        line(3, 8, 90, 1000, 1000),
        line(4, ACCOUNT, 101, 40, 4),
    ];
    let g = build_stmt(Some(account()), None, &lines, 100, 500, &vec![11, 12, 13, 14]).unwrap();
    assert_eq!(g.stmt.id, 500);
    assert_eq!(g.stmt.total_debit, 30);
    assert_eq!(g.stmt.total_credit, 3);
    assert_eq!(g.traces.len(), 2);
    assert_eq!(g.traces[0].id, 11);
    assert_eq!(g.traces[1].id, 12);
    assert_eq!(g.stmt.youngest_pst_id, Some(11));
    assert_eq!(g.stmt.latest_pst_id, Some(12));
    let t = g.traces[1];
    assert_eq!(t.tgt_pst_id, 500);
    assert_eq!(t.src_pst_id, 2);
    assert_eq!(t.src_pst_time, 100);
    assert_eq!(t.src_opr_id, [2u8; 34]);
    assert_eq!(t.account_id, ACCOUNT);
    assert_eq!(t.debit_amount, 20);
    assert_eq!(t.credit_amount, 2);
    assert_eq!(t.src_pst_hash, Some([2u8; 32]));
}

#[test]
fn baseline_window_excludes_the_boundary_line() {
    let base = closed(40, 100, 1000, 500, 3);
    let lines = vec![
        line(1, ACCOUNT, 100, 7, 7),
        line(2, ACCOUNT, 150, 10, 5),
        line(3, ACCOUNT, 200, 20, 0),
        line(4, ACCOUNT, 201, 40, 40),
    ];
    let g = build_stmt(Some(account()), Some(base), &lines, 200, 501, &vec![1, 2, 3, 4]).unwrap();
    assert_eq!(g.stmt.total_debit, 1030);
    assert_eq!(g.stmt.total_credit, 505);
    assert_eq!(g.stmt.stmt_seq_nbr, 4);
    assert_eq!(g.stmt.stmt_status, StmtStatus::Simulated);
    assert_eq!(g.stmt.id, 501);
    assert_eq!(g.stmt.youngest_pst_id, Some(2));
    assert_eq!(g.stmt.latest_pst_id, Some(3));
    assert_eq!(g.traces.len(), 2);
}

#[test]
fn baseline_without_new_lines_keeps_its_totals() {
    let base = closed(40, 100, 1000, 500, 0);
    let g = build_stmt(Some(account()), Some(base), &vec![], 300, 502, &vec![]).unwrap();
    assert_eq!(g.stmt.total_debit, 1000);
    assert_eq!(g.stmt.total_credit, 500);
    assert_eq!(g.stmt.youngest_pst_id, None);
    assert_eq!(g.stmt.latest_pst_id, None);
    assert!(g.traces.is_empty());
}

#[test]
fn create_twice_gives_equal_totals_and_distinct_rows() {
    let svc = AccountStmtServiceImpl::new();
    let lines = vec![line(1, ACCOUNT, 100, 100, 0), line(2, ACCOUNT, 200, 0, 30)];
    let a = svc.create_stmt(Some(account()), None, &lines, 200).unwrap();
    let b = svc.create_stmt(Some(account()), None, &lines, 200).unwrap();
    assert_eq!(a.stmt.total_debit, b.stmt.total_debit);
    assert_eq!(a.stmt.total_credit, b.stmt.total_credit);
    assert_ne!(a.stmt.id, b.stmt.id);
    assert_eq!(a.traces.len(), 2);
    assert_eq!(b.traces.len(), 2);
}

#[test]
fn missing_account_is_reported() {
    let svc = AccountStmtServiceImpl::new();
    let r = svc.read_stmt(None, None, &vec![line(1, ACCOUNT, 1, 1, 1)], 10);
    assert_eq!(r.unwrap_err(), ServiceError::LedgerAccountNotFound);
}

#[test]
fn total_past_the_integer_range_is_an_overflow() {
    let base = closed(40, 100, u128::MAX, 0, 0);
    let lines = vec![line(1, ACCOUNT, 150, 1, 0)];
    let r = build_stmt(Some(account()), Some(base), &lines, 200, 1, &vec![1]);
    assert_eq!(r.unwrap_err(), ServiceError::Overflow);
    let base = closed(40, 100, 0, 0, u64::MAX);
    let r = build_stmt(Some(account()), Some(base), &vec![], 200, 1, &vec![]);
    assert_eq!(r.unwrap_err(), ServiceError::Overflow);
    let base = closed(40, 100, u128::MAX, 0, 0);
    let r = build_stmt(Some(account()), Some(base), &vec![line(1, ACCOUNT, 150, 0, 9)], 200, 1, &vec![1]);
    assert_eq!(r.unwrap().stmt.total_debit, u128::MAX);
}

fn simulated() -> AccountStmtRecord {
    AccountStmtRecord {
        id: 5,
        account_id: ACCOUNT,
        youngest_pst_id: None,
        total_debit: 3,
        total_credit: 4,
        posting_id: None,
        pst_time: 1234,
        stmt_status: StmtStatus::Simulated,
        latest_pst_id: None,
        stmt_seq_nbr: 0,
    }
}

#[test]
fn close_errors() {
    let coa = Some(ChartOfAccount { id: 2 });
    let r = close_with(None, Some(ledger()), coa, None, 9, 1);
    assert_eq!(r.unwrap_err(), ServiceError::StatementNotFound);
    let r = close_with(Some(closed(5, 10, 0, 0, 0)), Some(ledger()), coa, None, 9, 1);
    assert_eq!(r.unwrap_err(), ServiceError::StatementAlreadyClosed);
    let r = close_with(Some(simulated()), None, coa, None, 9, 1);
    assert_eq!(r.unwrap_err(), ServiceError::LedgerNotFound);
    let r = close_with(Some(simulated()), Some(ledger()), None, None, 9, 1);
    assert_eq!(r.unwrap_err(), ServiceError::ChartOfAccountNotFound);
}

#[test]
fn closing_posting_hash_is_its_recomputed_content_hash() {
    let coa = Some(ChartOfAccount { id: 2 });
    let c = close_with(Some(simulated()), Some(ledger()), coa, None, 9, 77).unwrap();
    let p = c.posting;
    assert_eq!(p.id, 9);
    assert_eq!(p.record_time, 77);
    assert_eq!(p.val_time, Some(77));
    assert_eq!(p.pst_time, 1234);
    let stored = p.hash_record.hash.unwrap();
    assert_eq!(compute_hash(&p), stored);
    let expected: [u8; 32] = sha2::Sha256::digest(encode_posting(&p)).into();
    assert_eq!(stored, expected);
    let mut q = p.clone();
    q.hash_record.hash = None;
    assert_eq!(compute_hash(&q), stored);
    q.pst_time = 1235;
    assert_ne!(compute_hash(&q), stored);
}

#[test]
fn chain_links_each_posting_to_its_predecessor() {
    let coa = Some(ChartOfAccount { id: 2 });
    let first = close_with(Some(simulated()), Some(ledger()), coa, None, 9, 77).unwrap();
    assert_eq!(first.posting.hash_record.antecedent_id, None);
    assert_eq!(first.posting.hash_record.antecedent_hash, None);
    let tip = ChainTip { id: first.posting.id, hash: first.posting.hash_record.hash };
    let mut next = simulated();
    next.id = 6;
    let second = close_with(Some(next), Some(ledger()), coa, Some(tip), 10, 78).unwrap();
    assert_eq!(second.posting.hash_record.antecedent_id, Some(9));
    assert_eq!(second.posting.hash_record.antecedent_hash, first.posting.hash_record.hash);
    assert_ne!(second.posting.hash_record.hash, first.posting.hash_record.hash);
}

#[test]
fn encoding_has_fixed_width_fields() {
    let coa = Some(ChartOfAccount { id: 2 });
    let c = close_with(Some(simulated()), Some(ledger()), coa, None, 9, 77).unwrap();
    let b = encode_posting(&c.posting);
    assert_eq!(b.len(), 198);
    assert_eq!(&b[0..16], &9u128.to_be_bytes());
    let tip = ChainTip { id: 3, hash: Some([5u8; 32]) };
    let c = close_with(Some(simulated()), Some(ledger()), coa, Some(tip), 9, 77).unwrap();
    assert_eq!(encode_posting(&c.posting).len(), 198 + 16 + 32);
}
