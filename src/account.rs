//! Ledger accounts, in their stored form and in their domain form, and the
//! total translation between the two.

use vstd::prelude::*;

verus! {

/// Which side of an entry increases the balance of an account (stored form).
#[derive(Clone, Copy, Debug, PartialEq, Eq, Structural)]
pub enum StoredBalanceSide {
    Dr,
    Cr,
    DrCr,
}

/// Which side of an entry increases the balance of an account (domain form).
#[derive(Clone, Copy, Debug, PartialEq, Eq, Structural)]
pub enum BalanceSide {
    Dr,
    Cr,
    DrCr,
}

/// The accounting nature of an account (stored form).
#[derive(Clone, Copy, Debug, PartialEq, Eq, Structural)]
pub enum StoredAccountCategory {
    RE,
    EX,
    AS,
    LI,
    EQ,
    NOOP,
    NORE,
    NOEX,
}

/// The accounting nature of an account (domain form): revenue, expense,
/// asset, liability, equity, no-op, non-operating revenue and expense.
#[derive(Clone, Copy, Debug, PartialEq, Eq, Structural)]
pub enum AccountCategory {
    RE,
    EX,
    AS,
    LI,
    EQ,
    NOOP,
    NORE,
    NOEX,
}

/// A chart of accounts, referenced by identity.
#[derive(Clone, Copy, Debug, PartialEq, Eq, Structural)]
pub struct ChartOfAccount {
    pub id: u128,
}

/// A ledger and the chart of accounts it uses.
#[derive(Clone, Copy, Debug, PartialEq, Eq, Structural)]
pub struct Ledger {
    pub id: u128,
    pub coa: ChartOfAccount,
}

/// A ledger account as storage holds it: every link is an identity.
#[derive(Clone, Copy, Debug, PartialEq, Eq, Structural)]
pub struct LedgerAccountRecord {
    pub id: u128,
    pub ledger_id: u128,
    pub parent_id: Option<u128>,
    pub coa_id: u128,
    pub balance_side: StoredBalanceSide,
    pub category: StoredAccountCategory,
}

/// A ledger account in domain form, with its ledger, chart of accounts and
/// parent account resolved.
#[derive(Debug)]
pub struct LedgerAccount {
    pub id: u128,
    pub ledger: Ledger,
    pub parent: Option<Box<LedgerAccount>>,
    pub coa: ChartOfAccount,
    pub balance_side: BalanceSide,
    pub category: AccountCategory,
}

pub open spec fn side_to_domain(s: StoredBalanceSide) -> BalanceSide {
    match s {
        StoredBalanceSide::Dr => BalanceSide::Dr,
        StoredBalanceSide::Cr => BalanceSide::Cr,
        StoredBalanceSide::DrCr => BalanceSide::DrCr,
    }
}

pub open spec fn side_to_stored(s: BalanceSide) -> StoredBalanceSide {
    match s {
        BalanceSide::Dr => StoredBalanceSide::Dr,
        BalanceSide::Cr => StoredBalanceSide::Cr,
        BalanceSide::DrCr => StoredBalanceSide::DrCr,
    }
}

pub open spec fn category_to_domain(c: StoredAccountCategory) -> AccountCategory {
    match c {
        StoredAccountCategory::RE => AccountCategory::RE,
        StoredAccountCategory::EX => AccountCategory::EX,
        StoredAccountCategory::AS => AccountCategory::AS,
        StoredAccountCategory::LI => AccountCategory::LI,
        StoredAccountCategory::EQ => AccountCategory::EQ,
        StoredAccountCategory::NOOP => AccountCategory::NOOP,
        StoredAccountCategory::NORE => AccountCategory::NORE,
        StoredAccountCategory::NOEX => AccountCategory::NOEX,
    }
}

pub open spec fn category_to_stored(c: AccountCategory) -> StoredAccountCategory {
    match c {
        AccountCategory::RE => StoredAccountCategory::RE,
        AccountCategory::EX => StoredAccountCategory::EX,
        AccountCategory::AS => StoredAccountCategory::AS,
        AccountCategory::LI => StoredAccountCategory::LI,
        AccountCategory::EQ => StoredAccountCategory::EQ,
        AccountCategory::NOOP => StoredAccountCategory::NOOP,
        AccountCategory::NORE => StoredAccountCategory::NORE,
        AccountCategory::NOEX => StoredAccountCategory::NOEX,
    }
}

/// The stored form of a domain account, link by link.
pub open spec fn record_of(bo: LedgerAccount) -> LedgerAccountRecord {
    LedgerAccountRecord {
        id: bo.id,
        ledger_id: bo.ledger.id,
        parent_id: match bo.parent {
            Some(p) => Some(p.id),
            None => None,
        },
        coa_id: bo.coa.id,
        balance_side: side_to_stored(bo.balance_side),
        category: category_to_stored(bo.category),
    }
}

/// Translates between the stored and the domain form of ledger accounts.
pub struct LedgerAccountMapper;

impl LedgerAccountMapper {
    /// The domain form of a stored account, given its resolved ledger, chart
    /// of accounts and parent.
    pub fn to_bo(
        model: LedgerAccountRecord,
        ledger_bo: Ledger,
        coa_bo: ChartOfAccount,
        parent_bo: Option<Box<LedgerAccount>>,
    ) -> (r: LedgerAccount)
        ensures
            r.id == model.id,
            r.ledger == ledger_bo,
            r.coa == coa_bo,
            r.parent == parent_bo,
            r.balance_side == side_to_domain(model.balance_side),
            r.category == category_to_domain(model.category),
    {
        LedgerAccount {
            id: model.id,
            ledger: ledger_bo,
            parent: parent_bo,
            coa: coa_bo,
            balance_side: match model.balance_side {
                StoredBalanceSide::Dr => BalanceSide::Dr,
                StoredBalanceSide::Cr => BalanceSide::Cr,
                StoredBalanceSide::DrCr => BalanceSide::DrCr,
            },
            category: match model.category {
                StoredAccountCategory::RE => AccountCategory::RE,
                StoredAccountCategory::EX => AccountCategory::EX,
                StoredAccountCategory::AS => AccountCategory::AS,
                StoredAccountCategory::LI => AccountCategory::LI,
                StoredAccountCategory::EQ => AccountCategory::EQ,
                StoredAccountCategory::NOOP => AccountCategory::NOOP,
                StoredAccountCategory::NORE => AccountCategory::NORE,
                StoredAccountCategory::NOEX => AccountCategory::NOEX,
            },
        }
    }

    /// The stored form of a domain account: links become identities.
    pub fn to_model(bo: LedgerAccount) -> (r: LedgerAccountRecord)
        ensures
            r == record_of(bo),
    {
        let parent_id = match &bo.parent {
            Some(p) => Some(p.id),
            None => None,
        };
        LedgerAccountRecord {
            id: bo.id,
            ledger_id: bo.ledger.id,
            parent_id,
            coa_id: bo.coa.id,
            balance_side: match bo.balance_side {
                BalanceSide::Dr => StoredBalanceSide::Dr,
                BalanceSide::Cr => StoredBalanceSide::Cr,
                BalanceSide::DrCr => StoredBalanceSide::DrCr,
            },
            category: match bo.category {
                AccountCategory::RE => StoredAccountCategory::RE,
                AccountCategory::EX => StoredAccountCategory::EX,
                AccountCategory::AS => StoredAccountCategory::AS,
                AccountCategory::LI => StoredAccountCategory::LI,
                AccountCategory::EQ => StoredAccountCategory::EQ,
                AccountCategory::NOOP => StoredAccountCategory::NOOP,
                AccountCategory::NORE => StoredAccountCategory::NORE,
                AccountCategory::NOEX => StoredAccountCategory::NOEX,
            },
        }
    }
}

/// The classification mappings lose nothing: each one, followed by the
/// other, gives back the value it started from, in both directions.
pub proof fn law_classification_round_trip(
    s: StoredBalanceSide,
    b: BalanceSide,
    c: StoredAccountCategory,
    d: AccountCategory,
)
    ensures
        side_to_stored(side_to_domain(s)) == s,
        side_to_domain(side_to_stored(b)) == b,
        category_to_stored(category_to_domain(c)) == c,
        category_to_domain(category_to_stored(d)) == d,
{
}

/// Storing an account that was built from a record, with the ledger, chart
/// of accounts and parent that the record names, gives back that record.
pub proof fn law_account_round_trip(
    model: LedgerAccountRecord,
    bo: LedgerAccount,
)
    requires
        bo.id == model.id,
        bo.ledger.id == model.ledger_id,
        bo.coa.id == model.coa_id,
        model.parent_id == (match bo.parent {
            Some(p) => Some(p.id),
            None => None,
        }),
        bo.balance_side == side_to_domain(model.balance_side),
        bo.category == category_to_domain(model.category),
    ensures
        record_of(bo) == model,
{
    law_classification_round_trip(model.balance_side, bo.balance_side, model.category, bo.category);
}

} // verus!
