//! The plain data the actor layer carries between callers and the engine:
//! points, payloads, vectors, filters, and the mathematical values they
//! stand for in contracts.

use vstd::prelude::*;

verus! {

/// Name of a collection.
pub type ColName = String;

/// Identifier of a point within a collection.
pub type PointId = u64;

/// A point's vector data.  The actor layer never interprets the components;
/// it carries them between the caller and the engine as opaque machine words.
pub type Vector = Vec<u64>;

/// One key/value entry of a point's payload document.
#[derive(Clone, Debug, PartialEq, Eq)]
pub struct PayloadEntry {
    pub key: String,
    pub value: String,
}

/// A point's payload document: an ordered list of key/value entries.
pub type Payload = Vec<PayloadEntry>;

/// Mathematical value of a payload entry.
#[verifier::ext_equal]
pub ghost struct KvV {
    pub key: Seq<char>,
    pub value: Seq<char>,
}

impl View for PayloadEntry {
    type V = KvV;

    open spec fn view(&self) -> KvV {
        KvV { key: self.key@, value: self.value@ }
    }
}

/// Mathematical value of a payload document.
pub open spec fn payload_view(p: Seq<PayloadEntry>) -> Seq<KvV> {
    p.map_values(|e: PayloadEntry| e@)
}

/// A payload condition: matches points whose payload holds an entry with
/// exactly this key and value.
#[derive(Clone, Debug, PartialEq, Eq)]
pub struct Filter {
    pub key: String,
    pub value: String,
}

/// Mathematical value of a filter: the entry it requires.
impl View for Filter {
    type V = KvV;

    open spec fn view(&self) -> KvV {
        KvV { key: self.key@, value: self.value@ }
    }
}

/// Mathematical value of an optional filter.
pub open spec fn filter_view(f: Option<Filter>) -> Option<KvV> {
    match f {
        None => None,
        Some(f) => Some(f@),
    }
}

/// A point as the caller hands it in: identifier, vector and payload.
#[derive(Clone, Debug, PartialEq, Eq)]
pub struct PointStruct {
    pub id: PointId,
    pub vector: Vector,
    pub payload: Payload,
}

/// A stored point as the engine hands it back.
#[derive(Clone, Debug, PartialEq, Eq)]
pub struct Record {
    pub id: PointId,
    pub vector: Vector,
    pub payload: Payload,
}

/// Mathematical value of a point, shared by `PointStruct` and `Record`:
/// the two carry the same data in opposite directions.
#[verifier::ext_equal]
pub ghost struct PointV {
    pub id: PointId,
    pub vector: Seq<u64>,
    pub payload: Seq<KvV>,
}

impl View for PointStruct {
    type V = PointV;

    open spec fn view(&self) -> PointV {
        PointV { id: self.id, vector: self.vector@, payload: payload_view(self.payload@) }
    }
}

impl View for Record {
    type V = PointV;

    open spec fn view(&self) -> PointV {
        PointV { id: self.id, vector: self.vector@, payload: payload_view(self.payload@) }
    }
}

/// Mathematical value of a list of points.
pub open spec fn points_view(v: Seq<PointStruct>) -> Seq<PointV> {
    v.map_values(|p: PointStruct| p@)
}

/// Mathematical value of a list of records.
pub open spec fn records_view(v: Seq<Record>) -> Seq<PointV> {
    v.map_values(|r: Record| r@)
}

/// A search or recommendation hit.  The model engine does not rank, so the
/// score it reports is always zero; the field is kept because the real engine
/// fills it and callers read it.
#[derive(Clone, Debug, PartialEq, Eq)]
pub struct ScoredPoint {
    pub id: PointId,
    pub score: u64,
    pub payload: Payload,
}

/// Mathematical value of a hit.
#[verifier::ext_equal]
pub ghost struct ScoredV {
    pub id: PointId,
    pub score: u64,
    pub payload: Seq<KvV>,
}

impl View for ScoredPoint {
    type V = ScoredV;

    open spec fn view(&self) -> ScoredV {
        ScoredV { id: self.id, score: self.score, payload: payload_view(self.payload@) }
    }
}

/// Mathematical value of a list of hits.
pub open spec fn scored_view(v: Seq<ScoredPoint>) -> Seq<ScoredV> {
    v.map_values(|s: ScoredPoint| s@)
}

/// The hit a stored point turns into: same identifier and payload, score
/// zero.
pub open spec fn hit_of(p: PointV) -> ScoredV {
    ScoredV { id: p.id, score: 0, payload: p.payload }
}

/// Vector distance the engine ranks by; carried through untouched.
#[derive(Clone, Copy, Debug, PartialEq, Eq, Structural)]
pub enum Distance {
    Cosine,
    Euclid,
    Dot,
}

/// Vector parameters a collection is created with.
#[derive(Clone, Copy, Debug, PartialEq, Eq, Structural)]
pub struct VectorsConfig {
    pub size: u64,
    pub distance: Distance,
}

/// Arguments of a create-collection operation.
#[derive(Clone, Copy, Debug, PartialEq, Eq, Structural)]
pub struct CreateCollection {
    pub vectors: VectorsConfig,
}

/// Arguments of an update-collection operation: a new vector configuration,
/// or nothing to change.
#[derive(Clone, Copy, Debug, PartialEq, Eq, Structural)]
pub struct UpdateCollection {
    pub vectors: Option<VectorsConfig>,
}

/// What the engine reports about a collection.
#[derive(Clone, Copy, Debug, PartialEq, Eq, Structural)]
pub struct CollectionInfo {
    pub config: VectorsConfig,
    pub points_count: usize,
}

/// Ordering guarantee requested for a write; the layer passes it through.
#[derive(Clone, Copy, Debug, PartialEq, Eq, Structural)]
pub enum WriteOrdering {
    Weak,
    Medium,
    Strong,
}

impl Default for WriteOrdering {
    fn default() -> (r: Self)
        ensures
            r == WriteOrdering::Weak,
    {
        WriteOrdering::Weak
    }
}

/// Status of a completed update operation.
#[derive(Clone, Copy, Debug, PartialEq, Eq, Structural)]
pub enum UpdateStatus {
    Acknowledged,
    Completed,
}

/// The engine's receipt for a write.
#[derive(Clone, Copy, Debug, PartialEq, Eq, Structural)]
pub struct UpdateResult {
    pub operation_id: u64,
    pub status: UpdateStatus,
}

/// Mapping a sequence commutes with appending one element.
pub proof fn lemma_map_values_push<A, B>(s: Seq<A>, f: spec_fn(A) -> B, x: A)
    ensures
        s.push(x).map_values(f) =~= s.map_values(f).push(f(x)),
{
}

/// Taking one element more appends exactly that element.
pub proof fn lemma_take_succ<A>(s: Seq<A>, i: int)
    requires
        0 <= i < s.len(),
    ensures
        s.take(i + 1) =~= s.take(i).push(s[i]),
{
}

/// Mapping a sequence commutes with replacing one element.
pub proof fn lemma_map_values_update<A, B>(s: Seq<A>, f: spec_fn(A) -> B, i: int, x: A)
    requires
        0 <= i < s.len(),
    ensures
        s.update(i, x).map_values(f) =~= s.map_values(f).update(i, f(x)),
{
}

/// Mapping a sequence commutes with removing one element.
pub proof fn lemma_map_values_remove<A, B>(s: Seq<A>, f: spec_fn(A) -> B, i: int)
    requires
        0 <= i < s.len(),
    ensures
        s.remove(i).map_values(f) =~= s.map_values(f).remove(i),
{
}

/// Filtering a sequence extended by one element keeps the element exactly
/// when it satisfies the predicate.
pub proof fn lemma_filter_push<A>(s: Seq<A>, pred: spec_fn(A) -> bool, x: A)
    ensures
        s.push(x).filter(pred) == (if pred(x) {
            s.filter(pred).push(x)
        } else {
            s.filter(pred)
        }),
{
    reveal(Seq::filter);
    assert(s.push(x).drop_last() =~= s);
    assert(s.push(x).last() == x);
}

/// True iff the payload holds an entry with this key and value.
pub open spec fn payload_has(p: Seq<KvV>, key: Seq<char>, value: Seq<char>) -> bool {
    exists|i: int| 0 <= i < p.len() && p[i].key == key && p[i].value == value
}

/// True iff the payload holds an entry with this key.
pub open spec fn payload_has_key(p: Seq<KvV>, key: Seq<char>) -> bool {
    exists|i: int| 0 <= i < p.len() && p[i].key == key
}

/// The value of the first payload entry with the given key, if any.
pub open spec fn payload_get(p: Seq<KvV>, key: Seq<char>) -> Option<Seq<char>>
    decreases p.len(),
{
    if p.len() == 0 {
        None
    } else if p[0].key == key {
        Some(p[0].value)
    } else {
        payload_get(p.drop_first(), key)
    }
}

/// Whether a payload satisfies an optional filter.  No filter matches
/// everything.
pub open spec fn payload_matches(p: Seq<KvV>, f: Option<KvV>) -> bool {
    match f {
        None => true,
        Some(f) => payload_has(p, f.key, f.value),
    }
}

/// Exec check for `payload_has`.
pub fn payload_has_exec(p: &Payload, key: &String, value: &String) -> (r: bool)
    ensures
        r == payload_has(payload_view(p@), key@, value@),
{
    let mut i: usize = 0;
    while i < p.len()
        invariant
            0 <= i <= p@.len(),
            forall|j: int| 0 <= j < i ==> !(p@[j].key@ == key@ && p@[j].value@ == value@),
        decreases p@.len() - i,
    {
        if p[i].key.eq(key) && p[i].value.eq(value) {
            proof {
                assert(payload_view(p@)[i as int] == p@[i as int]@);
            }
            return true;
        }
        i += 1;
    }
    proof {
        assert(forall|j: int|
            0 <= j < p@.len() ==> payload_view(p@)[j] == p@[j]@);
    }
    false
}

/// Exec check for `payload_matches`.
pub fn payload_matches_exec(p: &Payload, f: &Option<Filter>) -> (r: bool)
    ensures
        r == payload_matches(payload_view(p@), filter_view(*f)),
{
    match f {
        None => true,
        Some(f) => payload_has_exec(p, &f.key, &f.value),
    }
}

/// Exec lookup for `payload_get`.
pub fn payload_get_exec(p: &Payload, key: &String) -> (r: Option<String>)
    ensures
        match r {
            Some(v) => payload_get(payload_view(p@), key@) == Some(v@),
            None => payload_get(payload_view(p@), key@) is None,
        },
{
    let ghost pv = payload_view(p@);
    let mut i: usize = 0;
    proof {
        assert(pv.skip(0) =~= pv);
    }
    while i < p.len()
        invariant
            0 <= i <= p@.len(),
            pv == payload_view(p@),
            payload_get(pv, key@) == payload_get(pv.skip(i as int), key@),
        decreases p@.len() - i,
    {
        proof {
            assert(pv.skip(i as int)[0] == pv[i as int]);
            assert(pv[i as int] == p@[i as int]@);
            assert(pv.skip(i as int).drop_first() =~= pv.skip(i + 1));
        }
        if p[i].key.eq(key) {
            return Some(p[i].value.clone());
        }
        i += 1;
    }
    proof {
        assert(pv.skip(pv.len() as int).len() == 0);
    }
    None
}

/// True iff `ids` holds `id`.
pub fn contains_id(ids: &Vec<PointId>, id: PointId) -> (r: bool)
    ensures
        r == ids@.contains(id),
{
    let mut i: usize = 0;
    while i < ids.len()
        invariant
            0 <= i <= ids@.len(),
            forall|j: int| 0 <= j < i ==> ids@[j] != id,
        decreases ids@.len() - i,
    {
        if ids[i] == id {
            return true;
        }
        i += 1;
    }
    false
}

/// Copies a vector's components.
pub fn clone_vector(v: &Vector) -> (r: Vector)
    ensures
        r@ == v@,
{
    let mut out: Vector = Vec::new();
    let mut i: usize = 0;
    while i < v.len()
        invariant
            0 <= i <= v@.len(),
            out@ =~= v@.take(i as int),
        decreases v@.len() - i,
    {
        out.push(v[i]);
        proof {
            assert(out@ =~= v@.take(i + 1));
        }
        i += 1;
    }
    proof {
        assert(v@.take(v@.len() as int) =~= v@);
    }
    out
}

/// Copies a payload document.
pub fn clone_payload(p: &Payload) -> (r: Payload)
    ensures
        payload_view(r@) == payload_view(p@),
{
    let mut out: Payload = Vec::new();
    let mut i: usize = 0;
    while i < p.len()
        invariant
            0 <= i <= p@.len(),
            payload_view(out@) =~= payload_view(p@).take(i as int),
        decreases p@.len() - i,
    {
        let e = PayloadEntry { key: p[i].key.clone(), value: p[i].value.clone() };
        let ghost ge = e;
        let ghost out0 = out@;
        out.push(e);
        proof {
            lemma_map_values_push(out0, |e: PayloadEntry| e@, ge);
            lemma_take_succ(payload_view(p@), i as int);
            assert(ge@ == p@[i as int]@);
            assert(payload_view(p@)[i as int] == p@[i as int]@);
            assert(payload_view(out@) =~= payload_view(p@).take(i + 1));
        }
        i += 1;
    }
    proof {
        assert(payload_view(p@).take(p@.len() as int) =~= payload_view(p@));
    }
    out
}

/// Copies a point.
pub fn clone_point(p: &PointStruct) -> (r: PointStruct)
    ensures
        r@ == p@,
{
    PointStruct { id: p.id, vector: clone_vector(&p.vector), payload: clone_payload(&p.payload) }
}

} // verus!
