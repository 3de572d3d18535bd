//! The local ledger view: an insert-only list of signed block records, the
//! tip selector over it and the two steps of minting around the signer.
use vstd::prelude::*;

verus! {

/// A signed block as it is kept in the ledger view.
pub struct BlockRecord {
    /// Content hash of the signed body; unique within a ledger.
    pub id: String,
    /// Identifiers of the parents chosen when the block was minted.
    pub parents: Vec<String>,
    /// Creation timestamp carried by the payload.
    pub timestamp: u64,
    /// The application payload, opaque to the ledger.
    pub data: String,
    /// Signature over the body.
    pub signature: String,
}

/// The unsigned body of a block that is about to be minted.
pub struct BlockBody {
    pub parents: Vec<String>,
    pub timestamp: u64,
    pub data: String,
}

/// What the signer hands back for a body: its content hash and signature.
pub struct SignedBody {
    pub id: String,
    pub signature: String,
}

/// Why a block could not be minted.
pub enum MintError {
    /// The signer failed; its message is kept.
    Signing(String),
    /// A record with the same identifier is already in the ledger.
    DuplicateId,
}

/// Record `i` ranks above record `j`: a later timestamp, or on equal
/// timestamps the record inserted later.
pub open spec fn outranks(recs: Seq<BlockRecord>, i: int, j: int) -> bool {
    recs[i].timestamp > recs[j].timestamp || (recs[i].timestamp == recs[j].timestamp && i > j)
}

/// Index `a` holds the highest-ranked record.
pub open spec fn is_first(recs: Seq<BlockRecord>, a: int) -> bool {
    &&& 0 <= a < recs.len()
    &&& forall|j: int| 0 <= j < recs.len() && j != a ==> outranks(recs, a, j)
}

/// Index `b` holds the highest-ranked record once `a` is set aside.
pub open spec fn is_second(recs: Seq<BlockRecord>, a: int, b: int) -> bool {
    &&& 0 <= b < recs.len()
    &&& b != a
    &&& forall|j: int| 0 <= j < recs.len() && j != a && j != b ==> outranks(recs, b, j)
}

/// `tips` is the parent selection for `recs`: nothing for an empty ledger,
/// the only record of a ledger of one, else the two highest-ranked records
/// in rank order.
pub open spec fn valid_tips(recs: Seq<BlockRecord>, tips: Seq<Seq<char>>) -> bool {
    &&& recs.len() == 0 ==> tips == Seq::<Seq<char>>::empty()
    &&& recs.len() == 1 ==> tips == seq![recs[0].id@]
    &&& recs.len() >= 2 ==> exists|a: int, b: int|
        is_first(recs, a) && is_second(recs, a, b) && tips == seq![recs[a].id@, recs[b].id@]
}

/// The identifiers of a list of strings, as character sequences.
pub open spec fn ids_of(v: Seq<String>) -> Seq<Seq<char>> {
    v.map_values(|s: String| s@)
}

/// No two records share an identifier.
pub open spec fn unique_ids(recs: Seq<BlockRecord>) -> bool {
    forall|i: int, j: int|
        0 <= i < recs.len() && 0 <= j < recs.len() && i != j ==> recs[i].id@ != recs[j].id@
}

/// Some record of `recs` has identifier `id`.
pub open spec fn has_id(recs: Seq<BlockRecord>, id: Seq<char>) -> bool {
    exists|i: int| 0 <= i < recs.len() && recs[i].id@ == id
}

/// Tip selection is a function of the ledger view: two selections over the
/// same unchanged records are equal.
pub proof fn lemma_tips_deterministic(recs: Seq<BlockRecord>, t1: Seq<Seq<char>>, t2: Seq<Seq<char>>)
    requires
        valid_tips(recs, t1),
        valid_tips(recs, t2),
    ensures
        t1 == t2,
{
    if recs.len() >= 2 {
        let (a1, b1) = choose|a: int, b: int|
            is_first(recs, a) && is_second(recs, a, b) && t1 == seq![recs[a].id@, recs[b].id@];
        let (a2, b2) = choose|a: int, b: int|
            is_first(recs, a) && is_second(recs, a, b) && t2 == seq![recs[a].id@, recs[b].id@];
        if a1 != a2 {
            assert(outranks(recs, a1, a2));
            assert(outranks(recs, a2, a1));
        }
        if b1 != b2 {
            assert(outranks(recs, b1, b2));
            assert(outranks(recs, b2, b1));
        }
    }
}

/// The selected parents are min(N, 2) identifiers of records that are in
/// the ledger, and two selected parents differ.
pub proof fn lemma_tips_present_distinct(recs: Seq<BlockRecord>, tips: Seq<Seq<char>>)
    requires
        unique_ids(recs),
        valid_tips(recs, tips),
    ensures
        tips.len() == if recs.len() < 2 {
            recs.len()
        } else {
            2
        },
        tips.len() == 2 ==> tips[0] != tips[1],
        forall|i: int| 0 <= i < tips.len() ==> has_id(recs, #[trigger] tips[i]),
{
    if recs.len() == 1 {
        assert(has_id(recs, recs[0].id@));
    } else if recs.len() >= 2 {
        let (a, b) = choose|a: int, b: int|
            is_first(recs, a) && is_second(recs, a, b) && tips == seq![recs[a].id@, recs[b].id@];
        assert(has_id(recs, recs[a].id@));
        assert(has_id(recs, recs[b].id@));
    }
}

/// A successful mint grows the ledger by exactly one record; that record is
/// keyed by the new identifier, its parents are the tips selected for the
/// body, and identifiers stay unique.
pub proof fn lemma_mint_grows_by_one(
    before: Seq<BlockRecord>,
    after: Seq<BlockRecord>,
    body: BlockBody,
    signed: SignedBody,
    rec: BlockRecord,
)
    requires
        unique_ids(before),
        valid_tips(before, ids_of(body.parents@)),
        !has_id(before, signed.id@),
        builds(rec, body, signed),
        appended(before, after, rec),
    ensures
        after.len() == before.len() + 1,
        has_id(after, signed.id@),
        forall|i: int|
            0 <= i < after.len() && after[i].id@ == signed.id@ ==> valid_tips(
                before,
                ids_of(after[i].parents@),
            ),
        unique_ids(after),
{
    let n = before.len() as int;
    assert(after[n].id@ == signed.id@);
    assert forall|i: int| 0 <= i < n implies after[i] == before[i] by {
        assert(after.subrange(0, n)[i] == after[i]);
    }
    assert forall|i: int|
        0 <= i < after.len() && after[i].id@ == signed.id@ implies valid_tips(
        before,
        ids_of(after[i].parents@),
    ) by {
        if i < n {
            assert(has_id(before, signed.id@));
        }
    }
    assert forall|i: int, j: int|
        0 <= i < after.len() && 0 <= j < after.len() && i != j implies after[i].id@
        != after[j].id@ by {
        if i == n {
            assert(after[j] == before[j]);
        } else if j == n {
            assert(after[i] == before[i]);
        }
    }
}

proof fn lemma_outranks_trans(recs: Seq<BlockRecord>, i: int, j: int, k: int)
    requires
        outranks(recs, i, j),
        outranks(recs, j, k),
    ensures
        outranks(recs, i, k),
{
}

fn outranks_exec(recs: &Vec<BlockRecord>, i: usize, j: usize) -> (r: bool)
    requires
        i < recs@.len(),
        j < recs@.len(),
    ensures
        r == outranks(recs@, i as int, j as int),
{
    recs[i].timestamp > recs[j].timestamp || (recs[i].timestamp == recs[j].timestamp && i > j)
}

/// `rec` is the record that signing `body` into `signed` yields.
pub open spec fn builds(rec: BlockRecord, body: BlockBody, signed: SignedBody) -> bool {
    &&& rec.id@ == signed.id@
    &&& rec.signature@ == signed.signature@
    &&& rec.parents@ == body.parents@
    &&& rec.timestamp == body.timestamp
    &&& rec.data@ == body.data@
}

/// Two records hold the same values.
pub open spec fn same_record(a: BlockRecord, b: BlockRecord) -> bool {
    &&& a.id@ == b.id@
    &&& a.signature@ == b.signature@
    &&& a.parents@ == b.parents@
    &&& a.timestamp == b.timestamp
    &&& a.data@ == b.data@
}

/// The ledger view `after` is `before` with one record appended, equal in
/// value to `rec`.
pub open spec fn appended(before: Seq<BlockRecord>, after: Seq<BlockRecord>, rec: BlockRecord) -> bool {
    &&& after.len() == before.len() + 1
    &&& after.subrange(0, before.len() as int) == before
    &&& same_record(after[before.len() as int], rec)
}

/// Copies a list of strings element by element.
pub fn copy_strings(v: &Vec<String>) -> (r: Vec<String>)
    ensures
        r@ == v@,
{
    let mut r: Vec<String> = Vec::new();
    let mut i: usize = 0;
    while i < v.len()
        invariant
            i <= v@.len(),
            r@ == v@.subrange(0, i as int),
        decreases v.len() - i,
    {
        r.push(v[i].clone());
        i = i + 1;
        proof {
            assert(r@ =~= v@.subrange(0, i as int));
        }
    }
    proof {
        assert(v@.subrange(0, v@.len() as int) =~= v@);
    }
    r
}

impl BlockRecord {
    /// A copy of the record.
    pub fn duplicate(&self) -> (r: BlockRecord)
        ensures
            same_record(r, *self),
    {
        BlockRecord {
            id: self.id.clone(),
            parents: copy_strings(&self.parents),
            timestamp: self.timestamp,
            data: self.data.clone(),
            signature: self.signature.clone(),
        }
    }
}

/// An insert-only view of signed blocks, keyed by identifier.
pub struct Ledger {
    records: Vec<BlockRecord>,
}

impl View for Ledger {
    type V = Seq<BlockRecord>;

    closed spec fn view(&self) -> Seq<BlockRecord> {
        self.records@
    }
}

impl Ledger {
    /// Identifiers are unique.
    pub open spec fn wf(&self) -> bool {
        unique_ids(self@)
    }

    pub fn new() -> (r: Ledger)
        ensures
            r.wf(),
            r@ == Seq::<BlockRecord>::empty(),
    {
        let r = Ledger { records: Vec::new() };
        proof {
            assert(r@ =~= Seq::<BlockRecord>::empty());
        }
        r
    }

    /// Number of records.
    pub fn len(&self) -> (r: usize)
        ensures
            r == self@.len(),
    {
        self.records.len()
    }

    /// Looks a record up by identifier.
    pub fn get(&self, id: &String) -> (r: Option<&BlockRecord>)
        ensures
            r is None <==> !has_id(self@, id@),
            r matches Some(rec) ==> exists|i: int|
                0 <= i < self@.len() && self@[i] == *rec && rec.id@ == id@,
    {
        let mut i: usize = 0;
        while i < self.records.len()
            invariant
                i <= self@.len(),
                self@ == self.records@,
                forall|j: int| 0 <= j < i ==> self@[j].id@ != id@,
            decreases self.records.len() - i,
        {
            if self.records[i].id == *id {
                return Some(&self.records[i]);
            }
            i = i + 1;
        }
        None
    }

    /// Picks the parents of the next block: none on an empty ledger, the
    /// single record of a ledger of one, else the two records with the
    /// latest timestamps, the latest first. Of two records with equal
    /// timestamps the one inserted later ranks higher.
    pub fn select_tips(&self) -> (r: Vec<String>)
        ensures
            valid_tips(self@, ids_of(r@)),
            r@.len() == if self@.len() < 2 { self@.len() } else { 2 },
    {
        let recs = &self.records;
        let n = recs.len();
        let mut out: Vec<String> = Vec::new();
        if n == 0 {
            proof {
                assert(ids_of(out@) =~= Seq::<Seq<char>>::empty());
            }
            return out;
        }
        if n == 1 {
            out.push(recs[0].id.clone());
            proof {
                assert(ids_of(out@) =~= seq![self@[0].id@]);
            }
            return out;
        }
        let mut first: usize = 0;
        let mut second: usize = 1;
        if outranks_exec(recs, 1, 0) {
            first = 1;
            second = 0;
        }
        let mut k: usize = 2;
        while k < n
            invariant
                n == recs@.len(),
                recs@ == self@,
                2 <= k <= n,
                first < k,
                second < k,
                first != second,
                forall|j: int| 0 <= j < k && j != first ==> outranks(recs@, first as int, j),
                forall|j: int|
                    0 <= j < k && j != first && j != second ==> outranks(
                        recs@,
                        second as int,
                        j,
                    ),
            decreases n - k,
        {
            if outranks_exec(recs, k, first) {
                second = first;
                first = k;
                proof {
                    assert forall|j: int| 0 <= j < k + 1 && j != first implies outranks(
                        recs@,
                        first as int,
                        j,
                    ) by {
                        if j != second {
                            lemma_outranks_trans(recs@, k as int, second as int, j);
                        }
                    }
                }
            } else if outranks_exec(recs, k, second) {
                proof {
                    assert forall|j: int|
                        0 <= j < k && j != first && j != second implies outranks(
                        recs@,
                        k as int,
                        j,
                    ) by {
                        lemma_outranks_trans(recs@, k as int, second as int, j);
                    }
                }
                second = k;
            }
            k = k + 1;
        }
        out.push(recs[first].id.clone());
        out.push(recs[second].id.clone());
        proof {
            let a = first as int;
            let b = second as int;
            assert(is_first(self@, a));
            assert(is_second(self@, a, b));
            assert(ids_of(out@) =~= seq![self@[a].id@, self@[b].id@]);
        }
        out
    }
    /// First step of minting: the unsigned body of a new block whose parents
    /// are the current tips and which carries the given payload.
    pub fn block_body(&self, timestamp: u64, data: String) -> (r: BlockBody)
        ensures
            valid_tips(self@, ids_of(r.parents@)),
            r.parents@.len() == if self@.len() < 2 {
                self@.len()
            } else {
                2
            },
            r.timestamp == timestamp,
            r.data == data,
    {
        BlockBody { parents: self.select_tips(), timestamp, data }
    }

    /// Second step of minting: takes what the signer returned for `body`
    /// and, when signing succeeded and the identifier is new, appends the
    /// signed record. A signing failure or a known identifier leaves the
    /// ledger unchanged.
    pub fn commit_block(&mut self, body: BlockBody, signed: Result<SignedBody, String>) -> (r:
        Result<BlockRecord, MintError>)
        requires
            old(self).wf(),
        ensures
            final(self).wf(),
            match signed {
                Err(e) => r == Err::<BlockRecord, MintError>(MintError::Signing(e)) && final(self)@
                    == old(self)@,
                Ok(s) => if has_id(old(self)@, s.id@) {
                    r is Err && r->Err_0 is DuplicateId && final(self)@ == old(self)@
                } else {
                    r matches Ok(rec) && builds(rec, body, s) && appended(
                        old(self)@,
                        final(self)@,
                        rec,
                    )
                },
            },
    {
        match signed {
            Err(e) => Err(MintError::Signing(e)),
            Ok(s) => {
                match self.get(&s.id) {
                    Some(_) => Err(MintError::DuplicateId),
                    None => {
                        let rec = BlockRecord {
                            id: s.id,
                            parents: body.parents,
                            timestamp: body.timestamp,
                            data: body.data,
                            signature: s.signature,
                        };
                        let out = rec.duplicate();
                        let ghost before = self@;
                        self.records.push(rec);
                        proof {
                            assert(self@.subrange(0, before.len() as int) =~= before);
                            assert forall|i: int, j: int|
                                0 <= i < self@.len() && 0 <= j < self@.len() && i != j implies self@[i].id@
                                != self@[j].id@ by {
                                if i == before.len() {
                                    assert(!has_id(before, s.id@));
                                    assert(before[j] == self@[j]);
                                } else if j == before.len() {
                                    assert(!has_id(before, s.id@));
                                    assert(before[i] == self@[i]);
                                }
                            }
                        }
                        Ok(out)
                    },
                }
            },
        }
    }
}

} // verus!
