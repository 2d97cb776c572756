//! Postings, their canonical byte form, their content hash and the link that
//! chains each posting to its predecessor in a ledger.

use vstd::prelude::*;
use sha2::Digest;
use crate::account::Ledger;

verus! {

/// Whether a posting records business activity or seals a balance statement.
#[derive(Clone, Copy, Debug, PartialEq, Eq, Structural)]
pub enum PostingType {
    BusiTx,
    BalStmt,
}

/// The booking status of a posting.
#[derive(Clone, Copy, Debug, PartialEq, Eq, Structural)]
pub enum PostingStatus {
    Deferred,
    Posted,
    Proposed,
    Simulated,
    Superceded,
    Discarded,
}

/// One debit/credit entry against one account. Amounts are counted in the
/// smallest unit of the currency; times are microseconds since the Unix epoch.
#[derive(Clone, Copy, Debug, PartialEq, Eq)]
pub struct PostingLine {
    pub id: u128,
    pub account_id: u128,
    pub pst_time: i64,
    pub opr_id: [u8; 34],
    pub debit_amount: u128,
    pub credit_amount: u128,
    pub hash: Option<[u8; 32]>,
}

/// A posting's own content hash and the link to its antecedent.
#[derive(Clone, Copy, Debug, PartialEq, Eq)]
pub struct HashRecord {
    pub hash: Option<[u8; 32]>,
    pub antecedent_id: Option<u128>,
    pub antecedent_hash: Option<[u8; 32]>,
}

/// An immutable financial event of one ledger.
#[derive(Clone, Debug)]
pub struct Posting {
    pub id: u128,
    pub record_user: [u8; 34],
    pub record_time: i64,
    pub opr_id: [u8; 34],
    pub opr_time: i64,
    pub opr_type: [u8; 34],
    pub pst_time: i64,
    pub pst_type: PostingType,
    pub pst_status: PostingStatus,
    pub ledger: Ledger,
    pub val_time: Option<i64>,
    pub lines: Vec<PostingLine>,
    pub discarded_id: Option<u128>,
    pub discarded_time: Option<i64>,
    pub discarding_id: Option<u128>,
    pub hash_record: HashRecord,
}

/// The most recent posting of a ledger, as far as chaining needs it.
#[derive(Clone, Copy, Debug, PartialEq, Eq)]
pub struct ChainTip {
    pub id: u128,
    pub hash: Option<[u8; 32]>,
}

/// The SHA-256 digest of a byte sequence.
pub uninterp spec fn sha256_of(b: Seq<u8>) -> Seq<u8>;

/// Relies on sha2's `Sha256::digest`: the SHA-256 digest of the bytes, a
/// function of the bytes alone, 32 bytes long.
#[verifier::external_body]
fn sha256(b: &Vec<u8>) -> (r: [u8; 32])
    ensures
        r@ == sha256_of(b@),
{
    sha2::Sha256::digest(b.as_slice()).into()
}

/// The `n` low-order bytes of `x`, most significant first.
pub open spec fn be_bytes(x: nat, n: nat) -> Seq<u8>
    decreases n,
{
    if n == 0 {
        Seq::empty()
    } else {
        be_bytes(x / 256, (n - 1) as nat).push((x % 256) as u8)
    }
}

pub open spec fn enc_u128(x: u128) -> Seq<u8> {
    be_bytes(x as nat, 16)
}

/// A time, shifted so that the byte order follows the order of times.
pub open spec fn enc_i64(t: i64) -> Seq<u8> {
    be_bytes((t + 0x8000_0000_0000_0000) as nat, 8)
}

pub open spec fn enc_opt_u128(o: Option<u128>) -> Seq<u8> {
    match o {
        Some(x) => seq![1u8] + enc_u128(x),
        None => seq![0u8],
    }
}

pub open spec fn enc_opt_i64(o: Option<i64>) -> Seq<u8> {
    match o {
        Some(t) => seq![1u8] + enc_i64(t),
        None => seq![0u8],
    }
}

pub open spec fn enc_opt_hash(o: Option<[u8; 32]>) -> Seq<u8> {
    match o {
        Some(h) => seq![1u8] + h@,
        None => seq![0u8],
    }
}

pub open spec fn type_tag(t: PostingType) -> u8 {
    match t {
        PostingType::BusiTx => 0,
        PostingType::BalStmt => 1,
    }
}

pub open spec fn status_tag(s: PostingStatus) -> u8 {
    match s {
        PostingStatus::Deferred => 0,
        PostingStatus::Posted => 1,
        PostingStatus::Proposed => 2,
        PostingStatus::Simulated => 3,
        PostingStatus::Superceded => 4,
        PostingStatus::Discarded => 5,
    }
}

pub open spec fn enc_line(l: PostingLine) -> Seq<u8> {
    enc_u128(l.id) + enc_u128(l.account_id) + enc_i64(l.pst_time) + l.opr_id@ + enc_u128(
        l.debit_amount,
    ) + enc_u128(l.credit_amount) + enc_opt_hash(l.hash)
}

pub open spec fn enc_lines(s: Seq<PostingLine>) -> Seq<u8>
    decreases s.len(),
{
    if s.len() == 0 {
        Seq::empty()
    } else {
        enc_lines(s.drop_last()) + enc_line(s.last())
    }
}

/// The canonical byte form of a posting's content: every field in a fixed
/// order and width, the posting's own hash excluded.
pub open spec fn posting_content(p: Posting) -> Seq<u8> {
    enc_u128(p.id) + p.record_user@ + enc_i64(p.record_time) + p.opr_id@ + enc_i64(p.opr_time)
        + p.opr_type@ + enc_i64(p.pst_time) + seq![type_tag(p.pst_type), status_tag(p.pst_status)]
        + enc_u128(p.ledger.id) + enc_u128(p.ledger.coa.id) + enc_opt_i64(p.val_time)
        + be_bytes(p.lines@.len(), 8) + enc_lines(p.lines@) + enc_opt_u128(p.discarded_id)
        + enc_opt_i64(p.discarded_time) + enc_opt_u128(p.discarding_id) + enc_opt_u128(
        p.hash_record.antecedent_id,
    ) + enc_opt_hash(p.hash_record.antecedent_hash)
}

/// The content hash of a posting.
pub open spec fn posting_hash(p: Posting) -> Seq<u8> {
    sha256_of(posting_content(p))
}

/// `p` with its own hash replaced by `h`.
pub open spec fn with_hash(p: Posting, h: Option<[u8; 32]>) -> Posting {
    Posting { hash_record: HashRecord { hash: h, ..p.hash_record }, ..p }
}

fn push_be(out: &mut Vec<u8>, x: u128, n: usize)
    ensures
        final(out)@ == old(out)@ + be_bytes(x as nat, n as nat),
    decreases n,
{
    if n > 0 {
        push_be(out, x / 256, n - 1);
        out.push((x % 256) as u8);
        assert(final(out)@ =~= old(out)@ + be_bytes(x as nat, n as nat));
    } else {
        assert(final(out)@ =~= old(out)@ + be_bytes(x as nat, n as nat));
    }
}

fn push_slice(out: &mut Vec<u8>, b: &[u8])
    ensures
        final(out)@ == old(out)@ + b@,
{
    let ghost start = out@;
    let mut i: usize = 0;
    while i < b.len()
        invariant
            i <= b@.len(),
            out@ == start + b@.subrange(0, i as int),
        decreases b@.len() - i,
    {
        out.push(b[i]);
        i = i + 1;
        assert(out@ =~= start + b@.subrange(0, i as int));
    }
    assert(b@.subrange(0, b@.len() as int) =~= b@);
}

fn push_i64(out: &mut Vec<u8>, t: i64)
    ensures
        final(out)@ == old(out)@ + enc_i64(t),
{
    let shifted: u128 = (t as i128 + 0x8000_0000_0000_0000i128) as u128;
    push_be(out, shifted, 8);
}

fn push_opt_u128(out: &mut Vec<u8>, o: Option<u128>)
    ensures
        final(out)@ == old(out)@ + enc_opt_u128(o),
{
    match o {
        Some(x) => {
            out.push(1u8);
            push_be(out, x, 16);
            assert(final(out)@ =~= old(out)@ + enc_opt_u128(o));
        },
        None => {
            out.push(0u8);
            assert(final(out)@ =~= old(out)@ + enc_opt_u128(o));
        },
    }
}

fn push_opt_i64(out: &mut Vec<u8>, o: Option<i64>)
    ensures
        final(out)@ == old(out)@ + enc_opt_i64(o),
{
    match o {
        Some(t) => {
            out.push(1u8);
            push_i64(out, t);
            assert(final(out)@ =~= old(out)@ + enc_opt_i64(o));
        },
        None => {
            out.push(0u8);
            assert(final(out)@ =~= old(out)@ + enc_opt_i64(o));
        },
    }
}

fn push_opt_hash(out: &mut Vec<u8>, o: Option<[u8; 32]>)
    ensures
        final(out)@ == old(out)@ + enc_opt_hash(o),
{
    match o {
        Some(h) => {
            out.push(1u8);
            push_slice(out, h.as_slice());
            assert(final(out)@ =~= old(out)@ + enc_opt_hash(o));
        },
        None => {
            out.push(0u8);
            assert(final(out)@ =~= old(out)@ + enc_opt_hash(o));
        },
    }
}

fn push_line(out: &mut Vec<u8>, l: &PostingLine)
    ensures
        final(out)@ == old(out)@ + enc_line(*l),
{
    push_be(out, l.id, 16);
    push_be(out, l.account_id, 16);
    push_i64(out, l.pst_time);
    push_slice(out, l.opr_id.as_slice());
    push_be(out, l.debit_amount, 16);
    push_be(out, l.credit_amount, 16);
    push_opt_hash(out, l.hash);
    assert(final(out)@ =~= old(out)@ + enc_line(*l));
}

/// The canonical byte form of a posting's content.
pub fn encode_posting(p: &Posting) -> (r: Vec<u8>)
    ensures
        r@ == posting_content(*p),
{
    let mut out: Vec<u8> = Vec::new();
    push_be(&mut out, p.id, 16);
    push_slice(&mut out, p.record_user.as_slice());
    push_i64(&mut out, p.record_time);
    push_slice(&mut out, p.opr_id.as_slice());
    push_i64(&mut out, p.opr_time);
    push_slice(&mut out, p.opr_type.as_slice());
    push_i64(&mut out, p.pst_time);
    let tt: u8 = match p.pst_type {
        PostingType::BusiTx => 0,
        PostingType::BalStmt => 1,
    };
    let st: u8 = match p.pst_status {
        PostingStatus::Deferred => 0,
        PostingStatus::Posted => 1,
        PostingStatus::Proposed => 2,
        PostingStatus::Simulated => 3,
        PostingStatus::Superceded => 4,
        PostingStatus::Discarded => 5,
    };
    out.push(tt);
    out.push(st);
    push_be(&mut out, p.ledger.id, 16);
    push_be(&mut out, p.ledger.coa.id, 16);
    push_opt_i64(&mut out, p.val_time);
    push_be(&mut out, p.lines.len() as u128, 8);
    let ghost head = out@;
    let mut i: usize = 0;
    while i < p.lines.len()
        invariant
            i <= p.lines@.len(),
            out@ == head + enc_lines(p.lines@.subrange(0, i as int)),
        decreases p.lines@.len() - i,
    {
        push_line(&mut out, &p.lines[i]);
        i = i + 1;
        let ghost s = p.lines@.subrange(0, i as int);
        assert(s.drop_last() =~= p.lines@.subrange(0, i - 1));
        assert(out@ =~= head + enc_lines(s));
    }
    assert(p.lines@.subrange(0, p.lines@.len() as int) =~= p.lines@);
    push_opt_u128(&mut out, p.discarded_id);
    push_opt_i64(&mut out, p.discarded_time);
    push_opt_u128(&mut out, p.discarding_id);
    push_opt_u128(&mut out, p.hash_record.antecedent_id);
    push_opt_hash(&mut out, p.hash_record.antecedent_hash);
    assert(out@ =~= posting_content(*p));
    out
}

/// The content hash of a posting: SHA-256 over its canonical byte form.
pub fn compute_hash(p: &Posting) -> (r: [u8; 32])
    ensures
        r@ == posting_hash(*p),
{
    let bytes = encode_posting(p);
    sha256(&bytes)
}

/// Attaches a posting's own content hash.
pub fn seal_posting(p: &mut Posting)
    ensures
        *final(p) == with_hash(*old(p), final(p).hash_record.hash),
        final(p).hash_record.hash matches Some(h) && h@ == posting_hash(*old(p)),
{
    let h = compute_hash(p);
    p.hash_record.hash = Some(h);
}

/// Links a candidate posting to the most recent posting of its ledger. With
/// no such posting the candidate is the ledger's first and keeps no
/// antecedent.
pub fn link_antecedent(candidate: &mut Posting, latest: Option<ChainTip>)
    ensures
        match latest {
            Some(tip) => final(candidate).hash_record.antecedent_id == Some(tip.id)
                && final(candidate).hash_record.antecedent_hash == tip.hash,
            None => final(candidate).hash_record.antecedent_id == old(
                candidate,
            ).hash_record.antecedent_id && final(candidate).hash_record.antecedent_hash == old(
                candidate,
            ).hash_record.antecedent_hash,
        },
        (Posting { hash_record: old(candidate).hash_record, ..*final(candidate) }) == *old(
            candidate,
        ),
        final(candidate).hash_record.hash == old(candidate).hash_record.hash,
{
    if let Some(tip) = latest {
        candidate.hash_record.antecedent_id = Some(tip.id);
        candidate.hash_record.antecedent_hash = tip.hash;
    }
}

/// What a successor posting keeps of `p` as its antecedent.
pub open spec fn tip_of(p: Posting) -> ChainTip {
    ChainTip { id: p.id, hash: p.hash_record.hash }
}

/// The most recent posting of a ledger whose postings are `ps`, in the order
/// they were recorded.
pub open spec fn last_tip(ps: Seq<Posting>) -> Option<ChainTip> {
    if ps.len() == 0 {
        None
    } else {
        Some(tip_of(ps.last()))
    }
}

/// Chain integrity of a ledger's postings, in the order they were recorded:
/// the first has no antecedent, and every later one names the posting just
/// before it and holds that posting's stored hash.
pub open spec fn is_chain(ps: Seq<Posting>) -> bool {
    &&& ps.len() > 0 ==> ps[0].hash_record.antecedent_id is None
        && ps[0].hash_record.antecedent_hash is None
    &&& forall|i: int|
        0 < i < ps.len() ==> (#[trigger] ps[i]).hash_record.antecedent_id == Some(ps[i - 1].id)
            && ps[i].hash_record.antecedent_hash == ps[i - 1].hash_record.hash
}

/// A posting's content hash does not depend on the hash it stores: a stored
/// hash, recomputed from the posting's own content, gives the same value.
pub proof fn law_hash_ignores_stored_hash(p: Posting, h: Option<[u8; 32]>)
    ensures
        posting_hash(with_hash(p, h)) == posting_hash(p),
{
    assert(posting_content(with_hash(p, h)) =~= posting_content(p));
}

} // verus!
