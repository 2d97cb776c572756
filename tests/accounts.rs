use postings_logic::account::{
    AccountCategory, BalanceSide, ChartOfAccount, Ledger, LedgerAccount, LedgerAccountMapper,
    LedgerAccountRecord, StoredAccountCategory, StoredBalanceSide,
};

fn record(side: StoredBalanceSide, cat: StoredAccountCategory, parent: Option<u128>) -> LedgerAccountRecord {
    LedgerAccountRecord { id: 10, ledger_id: 1, parent_id: parent, coa_id: 2, balance_side: side, category: cat }
}

fn ledger() -> Ledger {
    Ledger { id: 1, coa: ChartOfAccount { id: 2 } }
}

#[test]
fn every_classification_maps_both_ways() {
    let sides = [
        (StoredBalanceSide::Dr, BalanceSide::Dr),
        (StoredBalanceSide::Cr, BalanceSide::Cr),
        (StoredBalanceSide::DrCr, BalanceSide::DrCr),
    ];
    let cats = [
        (StoredAccountCategory::RE, AccountCategory::RE),
        (StoredAccountCategory::EX, AccountCategory::EX),
        (StoredAccountCategory::AS, AccountCategory::AS),
        (StoredAccountCategory::LI, AccountCategory::LI),
        (StoredAccountCategory::EQ, AccountCategory::EQ),
        (StoredAccountCategory::NOOP, AccountCategory::NOOP),
        (StoredAccountCategory::NORE, AccountCategory::NORE),
        (StoredAccountCategory::NOEX, AccountCategory::NOEX),
    ];
    for (s, d) in sides {
        for (c, e) in cats {
            let m = record(s, c, None);
            let bo = LedgerAccountMapper::to_bo(m, ledger(), ChartOfAccount { id: 2 }, None);
            assert_eq!(bo.balance_side, d);
            assert_eq!(bo.category, e);
            assert_eq!(LedgerAccountMapper::to_model(bo), m);
        }
    }
}

#[test]
fn parent_becomes_an_identity() {
    let parent = LedgerAccount {
        id: 3,
        ledger: ledger(),
        parent: None,
        coa: ChartOfAccount { id: 2 },
        balance_side: BalanceSide::Cr,
        category: AccountCategory::LI,
    };
    let m = record(StoredBalanceSide::Dr, StoredAccountCategory::AS, Some(3));
    let bo = LedgerAccountMapper::to_bo(m, ledger(), ChartOfAccount { id: 2 }, Some(Box::new(parent)));
    assert_eq!(bo.parent.as_ref().map(|p| p.id), Some(3));
    assert_eq!(bo.id, 10);
    assert_eq!(bo.ledger.id, 1);
    let back = LedgerAccountMapper::to_model(bo);
    assert_eq!(back.parent_id, Some(3));
    assert_eq!(back, m);
}
