use vstd::prelude::*;
use vstd::string::*;

verus! {

/// What `get_or_init` found or did for one key.
#[derive(Clone, Debug)]
pub enum IdType {
    /// A new identifier was generated and stored.
    New(String),
    /// The key already existed.
    Existing {
        /// The value that was already stored.
        previous_value: String,
        /// The value stored now (a new one when the key was forced).
        new_value: String,
    },
}

/// Abstract value of an [`IdType`].
pub enum IdTypeView {
    New(Seq<char>),
    Existing { previous_value: Seq<char>, new_value: Seq<char> },
}

impl View for IdType {
    type V = IdTypeView;

    open spec fn view(&self) -> IdTypeView {
        match self {
            IdType::New(s) => IdTypeView::New(s@),
            IdType::Existing { previous_value, new_value } => IdTypeView::Existing {
                previous_value: previous_value@,
                new_value: new_value@,
            },
        }
    }
}

/// A key to read or initialize with a fresh identifier.
#[derive(Clone, Debug)]
pub struct KeyRequest {
    /// The key to retrieve or initialize.
    pub key: String,
    /// Whether to replace the identifier even if the key exists.
    pub force: bool,
}

/// Builds a [`KeyRequest`]; `force` defaults to false.
#[derive(Clone, Debug)]
pub struct KeyRequestBuilder {
    key: Option<String>,
    force: bool,
}

impl KeyRequest {
    /// Starts building a request: no key yet, not forced.
    pub fn builder() -> (b: KeyRequestBuilder)
        ensures
            b.spec_key() is None,
            !b.spec_force(),
    {
        KeyRequestBuilder { key: None, force: false }
    }
}

impl KeyRequestBuilder {
    pub closed spec fn spec_key(&self) -> Option<Seq<char>> {
        match self.key {
            Some(k) => Some(k@),
            None => None,
        }
    }

    pub closed spec fn spec_force(&self) -> bool {
        self.force
    }

    /// Sets the key.
    pub fn key(self, key: &str) -> (b: KeyRequestBuilder)
        ensures
            b.spec_key() == Some(key@),
            b.spec_force() == self.spec_force(),
    {
        KeyRequestBuilder { key: Some(key.to_string()), force: self.force }
    }

    /// Sets whether the key is forced to a new identifier.
    pub fn force(self, force: bool) -> (b: KeyRequestBuilder)
        ensures
            b.spec_key() == self.spec_key(),
            b.spec_force() == force,
    {
        KeyRequestBuilder { key: self.key, force }
    }

    /// The request; a key must have been set.
    pub fn build(self) -> (r: KeyRequest)
        requires
            self.spec_key() is Some,
        ensures
            Some(r.key@) == self.spec_key(),
            r.force == self.spec_force(),
    {
        match self.key {
            Some(key) => KeyRequest { key, force: self.force },
            None => KeyRequest { key: String::new(), force: self.force },
        }
    }
}

/// The value of `key` among stored rows `(key, value)`; when a key occurs in
/// several rows, the last one counts (as when the rows fill a map).
pub open spec fn row_value(rows: Seq<(String, String)>, key: Seq<char>) -> Option<Seq<char>>
    decreases rows.len(),
{
    if rows.len() == 0 {
        None
    } else if rows.last().0@ == key {
        Some(rows.last().1@)
    } else {
        row_value(rows.drop_last(), key)
    }
}

/// Looks up the value of a key among stored rows (see [`row_value`]).
pub fn lookup_row(rows: &Vec<(String, String)>, key: &String) -> (r: Option<String>)
    ensures
        match r {
            Some(v) => row_value(rows@, key@) == Some(v@),
            None => row_value(rows@, key@) is None,
        },
{
    let mut found: Option<String> = None;
    let mut i: usize = 0;
    while i < rows.len()
        invariant
            i <= rows.len(),
            match found {
                Some(v) => row_value(rows@.take(i as int), key@) == Some(v@),
                None => row_value(rows@.take(i as int), key@) is None,
            },
        decreases rows.len() - i,
    {
        assert(rows@.take(i as int + 1).drop_last() =~= rows@.take(i as int));
        if rows[i].0 == *key {
            found = Some(rows[i].1.clone());
        }
        i = i + 1;
    }
    assert(rows@.take(rows.len() as int) =~= rows@);
    found
}

/// Whether a request leads to storing a new identifier: the key is missing,
/// or it is forced.
pub open spec fn needs_write(req: KeyRequest, previous: Option<Seq<char>>) -> bool {
    previous is None || req.force
}

/// The outcome for one request, given the value stored for its key and the
/// fresh identifier reserved for it.
pub open spec fn outcome_of(req: KeyRequest, previous: Option<Seq<char>>, fresh: Seq<char>) -> IdTypeView {
    match previous {
        Some(p) => if req.force {
            IdTypeView::Existing { previous_value: p, new_value: fresh }
        } else {
            IdTypeView::Existing { previous_value: p, new_value: p }
        },
        None => IdTypeView::New(fresh),
    }
}

/// The pairs `(key, identifier)` to store for the first `n` requests, in
/// request order.
pub open spec fn writes_of(
    reqs: Seq<KeyRequest>,
    rows: Seq<(String, String)>,
    fresh: Seq<String>,
    n: nat,
) -> Seq<(Seq<char>, Seq<char>)>
    decreases n,
{
    if n == 0 {
        Seq::empty()
    } else {
        let i = (n - 1) as int;
        let earlier = writes_of(reqs, rows, fresh, (n - 1) as nat);
        if needs_write(reqs[i], row_value(rows, reqs[i].key@)) {
            earlier.push((reqs[i].key@, fresh[i]@))
        } else {
            earlier
        }
    }
}

/// The view of pairs of strings.
pub open spec fn pairs_view(v: Seq<(String, String)>) -> Seq<(Seq<char>, Seq<char>)> {
    v.map_values(|p: (String, String)| (p.0@, p.1@))
}

/// What resolving a batch of key requests decided: one outcome per request,
/// in request order, and the pairs to store.
pub struct KeyPlan {
    pub outcomes: Vec<IdType>,
    pub writes: Vec<(String, String)>,
}

/// Whether `plan` is the resolution of `reqs` against the stored `rows`,
/// with `fresh[i]` the identifier reserved for request `i`.
pub open spec fn resolves(
    plan: KeyPlan,
    reqs: Seq<KeyRequest>,
    rows: Seq<(String, String)>,
    fresh: Seq<String>,
) -> bool {
    &&& plan.outcomes@.len() == reqs.len()
    &&& forall|i: int|
        0 <= i < reqs.len() ==> #[trigger] plan.outcomes@[i]@ == outcome_of(
            reqs[i],
            row_value(rows, reqs[i].key@),
            fresh[i]@,
        )
    &&& pairs_view(plan.writes@) == writes_of(reqs, rows, fresh, reqs.len())
}

/// Resolves key requests against the stored rows:
/// - a stored key that is not forced keeps its value
///   (`Existing` with equal previous and new values);
/// - a stored key that is forced gets its fresh identifier
///   (`Existing` with the old and the new value), which is stored;
/// - a missing key gets its fresh identifier (`New`), which is stored.
pub fn resolve_key_requests(
    reqs: &Vec<KeyRequest>,
    rows: &Vec<(String, String)>,
    fresh: &Vec<String>,
) -> (plan: KeyPlan)
    requires
        fresh.len() == reqs.len(),
    ensures
        resolves(plan, reqs@, rows@, fresh@),
{
    let mut outcomes: Vec<IdType> = Vec::new();
    let mut writes: Vec<(String, String)> = Vec::new();
    let mut i: usize = 0;
    while i < reqs.len()
        invariant
            i <= reqs.len(),
            fresh.len() == reqs.len(),
            outcomes@.len() == i,
            forall|j: int|
                0 <= j < i ==> #[trigger] outcomes@[j]@ == outcome_of(
                    reqs@[j],
                    row_value(rows@, reqs@[j].key@),
                    fresh@[j]@,
                ),
            pairs_view(writes@) == writes_of(reqs@, rows@, fresh@, i as nat),
        decreases reqs.len() - i,
    {
        let req = &reqs[i];
        let previous = lookup_row(rows, &req.key);
        let ghost old_writes = writes@;
        match previous {
            Some(p) => {
                if req.force {
                    outcomes.push(IdType::Existing { previous_value: p, new_value: fresh[i].clone() });
                    writes.push((req.key.clone(), fresh[i].clone()));
                } else {
                    let q = p.clone();
                    outcomes.push(IdType::Existing { previous_value: p, new_value: q });
                }
            },
            None => {
                outcomes.push(IdType::New(fresh[i].clone()));
                writes.push((req.key.clone(), fresh[i].clone()));
            },
        }
        proof {
            assert(pairs_view(writes@) =~= writes_of(reqs@, rows@, fresh@, (i + 1) as nat)) by {
                if writes@.len() > old_writes.len() {
                    assert(writes@ =~= old_writes.push(writes@.last()));
                }
            }
        }
        i = i + 1;
    }
    KeyPlan { outcomes, writes }
}

/// Whether a text is a UUID in hyphenated form: 36 characters, hyphens at
/// positions 8, 13, 18 and 23, lower-case hexadecimal digits elsewhere.
pub open spec fn is_uuid_text(s: Seq<char>) -> bool {
    &&& s.len() == 36
    &&& forall|i: int|
        0 <= i < 36 ==> if i == 8 || i == 13 || i == 18 || i == 23 {
            #[trigger] s[i] == '-'
        } else {
            ('0' <= s[i] <= '9') || ('a' <= s[i] <= 'f')
        }
}

/// Generates a random (version 4) UUID with `uuid::Uuid::new_v4` and renders
/// it with its `Display` impl.
///
/// Trusted: the text is the hyphenated lower-case form. Which identifier
/// comes out is random and is not stated.
/// The call panics only when the operating system cannot supply random
/// bytes, a failure of the machine that no input leads to.
#[verifier::external_body]
fn new_identifier() -> (s: String)
    ensures
        is_uuid_text(s@),
{
    uuid::Uuid::new_v4().to_string()
}

/// The lower-case hexadecimal digit of a number below 16.
pub open spec fn hex_char(d: u64) -> char {
    if d == 0 { '0' } else
    if d == 1 { '1' } else
    if d == 2 { '2' } else
    if d == 3 { '3' } else
    if d == 4 { '4' } else
    if d == 5 { '5' } else
    if d == 6 { '6' } else
    if d == 7 { '7' } else
    if d == 8 { '8' } else
    if d == 9 { '9' } else
    if d == 10 { 'a' } else
    if d == 11 { 'b' } else
    if d == 12 { 'c' } else
    if d == 13 { 'd' } else
    if d == 14 { 'e' } else { 'f' }
}

/// The hexadecimal digit of `k` shown at position `p` of its fallback
/// identifier: the high 32 bits at positions 0 to 7, the low 32 bits at
/// positions 28 to 35, most significant first.
pub open spec fn fallback_nibble(k: u64, p: int) -> u64 {
    if 0 <= p < 8 {
        (k >> ((60 - 4 * p) as u64)) & 15u64
    } else if 28 <= p < 36 {
        (k >> ((4 * (35 - p)) as u64)) & 15u64
    } else {
        0
    }
}

/// The character at position `p` of the fallback identifier of `k`, a
/// version 4 UUID text of the form `hhhhhhhh-0000-4000-8000-0000hhhhhhhh`.
pub open spec fn fallback_char(k: u64, p: int) -> char {
    if p == 8 || p == 13 || p == 18 || p == 23 {
        '-'
    } else if (0 <= p < 8) || (28 <= p < 36) {
        hex_char(fallback_nibble(k, p))
    } else if p == 14 {
        '4'
    } else if p == 19 {
        '8'
    } else {
        '0'
    }
}

/// The identifier that stands in for a random one that could not be made
/// distinct: the number `k` written into a UUID text.
pub open spec fn fallback_id(k: u64) -> Seq<char> {
    Seq::new(36, |p: int| fallback_char(k, p))
}

proof fn lemma_nibble_bound(k: u64, p: int)
    ensures
        fallback_nibble(k, p) < 16,
{
    if 0 <= p < 8 {
        let sh = (60 - 4 * p) as u64;
        assert((k >> sh) & 15u64 < 16u64) by (bit_vector);
    } else if 28 <= p < 36 {
        let sh = (4 * (35 - p)) as u64;
        assert((k >> sh) & 15u64 < 16u64) by (bit_vector);
    }
}

proof fn lemma_fallback_is_uuid(k: u64)
    ensures
        is_uuid_text(fallback_id(k)),
{
    assert forall|p: int| 0 <= p < 36 implies fallback_nibble(k, p) < 16 by {
        lemma_nibble_bound(k, p);
    }
}

proof fn lemma_hex_char_injective(a: u64, b: u64)
    requires
        a < 16,
        b < 16,
        hex_char(a) == hex_char(b),
    ensures
        a == b,
{
}

proof fn lemma_fallback_injective(k1: u64, k2: u64)
    requires
        fallback_id(k1) == fallback_id(k2),
    ensures
        k1 == k2,
{
    assert forall|p: int| (0 <= p < 8) || (28 <= p < 36) implies fallback_nibble(k1, p)
        == fallback_nibble(k2, p) by {
        lemma_nibble_bound(k1, p);
        lemma_nibble_bound(k2, p);
        assert(fallback_id(k1)[p] == fallback_id(k2)[p]);
        assert(fallback_id(k1)[p] == hex_char(fallback_nibble(k1, p)));
        assert(fallback_id(k2)[p] == hex_char(fallback_nibble(k2, p)));
        lemma_hex_char_injective(fallback_nibble(k1, p), fallback_nibble(k2, p));
    }
    assert(fallback_nibble(k1, 0) == fallback_nibble(k2, 0));
    assert(fallback_nibble(k1, 1) == fallback_nibble(k2, 1));
    assert(fallback_nibble(k1, 2) == fallback_nibble(k2, 2));
    assert(fallback_nibble(k1, 3) == fallback_nibble(k2, 3));
    assert(fallback_nibble(k1, 4) == fallback_nibble(k2, 4));
    assert(fallback_nibble(k1, 5) == fallback_nibble(k2, 5));
    assert(fallback_nibble(k1, 6) == fallback_nibble(k2, 6));
    assert(fallback_nibble(k1, 7) == fallback_nibble(k2, 7));
    assert(fallback_nibble(k1, 28) == fallback_nibble(k2, 28));
    assert(fallback_nibble(k1, 29) == fallback_nibble(k2, 29));
    assert(fallback_nibble(k1, 30) == fallback_nibble(k2, 30));
    assert(fallback_nibble(k1, 31) == fallback_nibble(k2, 31));
    assert(fallback_nibble(k1, 32) == fallback_nibble(k2, 32));
    assert(fallback_nibble(k1, 33) == fallback_nibble(k2, 33));
    assert(fallback_nibble(k1, 34) == fallback_nibble(k2, 34));
    assert(fallback_nibble(k1, 35) == fallback_nibble(k2, 35));
    assert((k1 >> 60u64) & 15u64 == (k2 >> 60u64) & 15u64 && (k1 >> 56u64) & 15u64 == (k2
        >> 56u64) & 15u64 && (k1 >> 52u64) & 15u64 == (k2 >> 52u64) & 15u64 && (k1 >> 48u64)
        & 15u64 == (k2 >> 48u64) & 15u64 && (k1 >> 44u64) & 15u64 == (k2 >> 44u64) & 15u64 && (k1
        >> 40u64) & 15u64 == (k2 >> 40u64) & 15u64 && (k1 >> 36u64) & 15u64 == (k2 >> 36u64)
        & 15u64 && (k1 >> 32u64) & 15u64 == (k2 >> 32u64) & 15u64 && (k1 >> 28u64) & 15u64 == (k2
        >> 28u64) & 15u64 && (k1 >> 24u64) & 15u64 == (k2 >> 24u64) & 15u64 && (k1 >> 20u64)
        & 15u64 == (k2 >> 20u64) & 15u64 && (k1 >> 16u64) & 15u64 == (k2 >> 16u64) & 15u64 && (k1
        >> 12u64) & 15u64 == (k2 >> 12u64) & 15u64 && (k1 >> 8u64) & 15u64 == (k2 >> 8u64) & 15u64
        && (k1 >> 4u64) & 15u64 == (k2 >> 4u64) & 15u64 && (k1 >> 0u64) & 15u64 == (k2 >> 0u64)
        & 15u64 ==> k1 == k2) by (bit_vector);
}

/// The views of a list of strings.
pub open spec fn texts_of(v: Seq<String>) -> Seq<Seq<char>> {
    v.map_values(|t: String| t@)
}

/// More fallback identifiers than taken texts cannot all be taken.
proof fn lemma_a_fallback_is_free(taken: Seq<Seq<char>>, m: int)
    requires
        taken.len() < m,
        m <= u64::MAX + 1,
    ensures
        exists|k: int| 0 <= k < m && !taken.contains(#[trigger] fallback_id(k as u64)),
{
    if forall|k: int| 0 <= k < m ==> taken.contains(#[trigger] fallback_id(k as u64)) {
        lemma_all_fallbacks_taken_is_impossible(taken, m);
    }
}

proof fn lemma_all_fallbacks_taken_is_impossible(taken: Seq<Seq<char>>, m: int)
    requires
        taken.len() < m,
        m <= u64::MAX + 1,
        forall|k: int| 0 <= k < m ==> taken.contains(#[trigger] fallback_id(k as u64)),
    ensures
        taken.len() >= m,
{
    broadcast use vstd::seq_lib::seq_to_set_is_finite;
    let x = vstd::set_lib::set_int_range(0, m);
    vstd::set_lib::lemma_int_range(0, m);
    let f = |k: int| fallback_id(k as u64);
    assert(vstd::relations::injective_on(f, x)) by {
        assert forall|a: int, b: int| x.contains(a) && x.contains(b) && #[trigger] f(a) == #[trigger] f(b)
            implies a == b by {
            lemma_fallback_injective(a as u64, b as u64);
        }
    }
    let y = x.map(f);
    vstd::set_lib::lemma_map_size(x, y, f);
    assert(y.subset_of(taken.to_set())) by {
        assert forall|t: Seq<char>| y.contains(t) implies taken.to_set().contains(t) by {
            let k = choose|k: int| x.contains(k) && f(k) == t;
            assert(taken.contains(fallback_id(k as u64)));
        }
    }
    taken.lemma_cardinality_of_set();
    vstd::set_lib::lemma_len_subset(y, taken.to_set());
}

fn hex_text(d: u64) -> (r: &'static str)
    requires
        d < 16,
    ensures
        r@ == seq![hex_char(d)],
{
    let t = if d == 0 { "0" } else
        if d == 1 { "1" } else
        if d == 2 { "2" } else
        if d == 3 { "3" } else
        if d == 4 { "4" } else
        if d == 5 { "5" } else
        if d == 6 { "6" } else
        if d == 7 { "7" } else
        if d == 8 { "8" } else
        if d == 9 { "9" } else
        if d == 10 { "a" } else
        if d == 11 { "b" } else
        if d == 12 { "c" } else
        if d == 13 { "d" } else
        if d == 14 { "e" } else { "f" };
    proof {
        reveal_strlit("0");
        reveal_strlit("1");
        reveal_strlit("2");
        reveal_strlit("3");
        reveal_strlit("4");
        reveal_strlit("5");
        reveal_strlit("6");
        reveal_strlit("7");
        reveal_strlit("8");
        reveal_strlit("9");
        reveal_strlit("a");
        reveal_strlit("b");
        reveal_strlit("c");
        reveal_strlit("d");
        reveal_strlit("e");
        reveal_strlit("f");
    }
    t
}

/// Writes out the fallback identifier of `k` (see [`fallback_id`]).
fn fallback_identifier(k: u64) -> (s: String)
    ensures
        s@ == fallback_id(k),
{
    let mut s = String::new();
    let mut p: u64 = 0;
    while p < 36
        invariant
            p <= 36,
            s@ == fallback_id(k).subrange(0, p as int),
        decreases 36 - p,
    {
        let piece: &str = if p == 8 || p == 13 || p == 18 || p == 23 {
            proof {
                reveal_strlit("-");
            }
            "-"
        } else if p < 8 {
            let sh: u64 = 60 - 4 * p;
            let d = (k >> sh) & 15u64;
            proof {
                lemma_nibble_bound(k, p as int);
            }
            hex_text(d)
        } else if p >= 28 {
            let sh: u64 = 4 * (35 - p);
            let d = (k >> sh) & 15u64;
            proof {
                lemma_nibble_bound(k, p as int);
            }
            hex_text(d)
        } else if p == 14 {
            proof {
                reveal_strlit("4");
            }
            "4"
        } else if p == 19 {
            proof {
                reveal_strlit("8");
            }
            "8"
        } else {
            proof {
                reveal_strlit("0");
            }
            "0"
        };
        assert(piece@ =~= seq![fallback_char(k, p as int)]);
        s.append(piece);
        assert(s@ =~= fallback_id(k).subrange(0, p as int + 1));
        p = p + 1;
    }
    assert(s@ =~= fallback_id(k));
    s
}

/// Whether `t` is among `taken`.
fn is_taken(t: &String, taken: &Vec<String>) -> (b: bool)
    ensures
        b == texts_of(taken@).contains(t@),
{
    let mut j: usize = 0;
    while j < taken.len()
        invariant
            j <= taken.len(),
            forall|i: int| 0 <= i < j ==> taken@[i]@ != t@,
        decreases taken.len() - j,
    {
        if taken[j] == *t {
            assert(texts_of(taken@)[j as int] == t@);
            return true;
        }
        j = j + 1;
    }
    assert forall|i: int| 0 <= i < texts_of(taken@).len() implies texts_of(taken@)[i] != t@ by {
        assert(taken@[i]@ != t@);
    }
    false
}

/// A UUID text that none of `taken` holds: the first fallback identifier
/// that is free (one is, as there are more of them than taken texts).
fn first_free_fallback(taken: &Vec<String>) -> (s: String)
    ensures
        is_uuid_text(s@),
        !texts_of(taken@).contains(s@),
{
    let n = taken.len();
    let mut k: u64 = 0;
    loop
        invariant
            n == taken.len(),
            k <= n,
            forall|j: int| 0 <= j < k ==> texts_of(taken@).contains(#[trigger] fallback_id(j as u64)),
        decreases n - k,
    {
        let cand = fallback_identifier(k);
        if !is_taken(&cand, taken) {
            proof {
                lemma_fallback_is_uuid(k);
            }
            return cand;
        }
        if k as usize == n {
            proof {
                assert forall|j: int| 0 <= j < k + 1 implies texts_of(taken@).contains(
                    #[trigger] fallback_id(j as u64),
                ) by {
                    if j == k {
                        assert(j as u64 == k);
                    }
                }
                lemma_a_fallback_is_free(texts_of(taken@), k + 1);
            }
        }
        k = k + 1;
    }
}

/// A fresh random identifier that none of `taken` holds: a random UUID,
/// drawn again if it is taken, and the first free fallback identifier if
/// the second draw is taken too.
fn new_identifier_avoiding(taken: &Vec<String>) -> (s: String)
    ensures
        is_uuid_text(s@),
        !texts_of(taken@).contains(s@),
{
    let first = new_identifier();
    if !is_taken(&first, taken) {
        return first;
    }
    let second = new_identifier();
    if !is_taken(&second, taken) {
        return second;
    }
    first_free_fallback(taken)
}

/// Resolves key requests against the stored rows, reserving a fresh random
/// identifier for each request (see [`resolve_key_requests`]).
pub fn plan_key_initialization(reqs: &Vec<KeyRequest>, rows: &Vec<(String, String)>) -> (plan: KeyPlan)
    ensures
        exists|fresh: Seq<String>|
            #![trigger resolves(plan, reqs@, rows@, fresh)]
            fresh.len() == reqs.len() && (forall|i: int|
                0 <= i < fresh.len() ==> is_uuid_text(#[trigger] fresh[i]@)) && (forall|i: int, j: int|
                0 <= i < j < fresh.len() ==> #[trigger] fresh[i]@ != #[trigger] fresh[j]@)
                && resolves(plan, reqs@, rows@, fresh),
{
    let mut fresh: Vec<String> = Vec::new();
    let mut i: usize = 0;
    while i < reqs.len()
        invariant
            i <= reqs.len(),
            fresh.len() == i,
            forall|j: int| 0 <= j < i ==> is_uuid_text(#[trigger] fresh@[j]@),
            forall|a: int, b: int| 0 <= a < b < i ==> #[trigger] fresh@[a]@ != #[trigger] fresh@[b]@,
        decreases reqs.len() - i,
    {
        let id = new_identifier_avoiding(&fresh);
        proof {
            assert forall|a: int| 0 <= a < i implies fresh@[a]@ != id@ by {
                assert(texts_of(fresh@)[a] == fresh@[a]@);
            }
        }
        fresh.push(id);
        i = i + 1;
    }
    let plan = resolve_key_requests(reqs, rows, &fresh);
    assert(resolves(plan, reqs@, rows@, fresh@));
    plan
}

/// Resolves a single key that is not forced: a stored value is kept, a
/// missing key gets `fresh`, which is then to be stored.
pub fn resolve_single_key(previous: Option<String>, fresh: String) -> (r: (IdType, Option<String>))
    ensures
        match previous {
            Some(p) => r.0@ == (IdTypeView::Existing { previous_value: p@, new_value: p@ })
                && r.1 is None,
            None => r.0@ == IdTypeView::New(fresh@) && r.1 == Some(fresh),
        },
{
    match previous {
        Some(p) => {
            let q = p.clone();
            (IdType::Existing { previous_value: p, new_value: q }, None)
        },
        None => {
            let stored = fresh.clone();
            (IdType::New(fresh), Some(stored))
        },
    }
}

/// Reads or initializes a single key: the identifier reserved for it is a
/// fresh random one (see [`resolve_single_key`]).
pub fn init_single_key(previous: Option<String>) -> (r: (IdType, Option<String>))
    ensures
        match previous {
            Some(p) => r.0@ == (IdTypeView::Existing { previous_value: p@, new_value: p@ })
                && r.1 is None,
            None => exists|fresh: String|
                is_uuid_text(fresh@) && r.0@ == IdTypeView::New(fresh@) && r.1 == Some(fresh),
        },
{
    let fresh = new_identifier();
    resolve_single_key(previous, fresh)
}

/// The value reported for each key of an ordered batch read: the stored
/// value of the key at `i`, `None` only when the key is not stored. A key
/// that is requested several times gets its value at each position.
pub open spec fn ordered_value(
    keys: Seq<String>,
    rows: Seq<(String, String)>,
    i: int,
) -> Option<Seq<char>> {
    row_value(rows, keys[i]@)
}

/// Orders the stored values of a batch read by the requested keys (see
/// [`ordered_value`]).
pub fn order_by_keys(keys: &Vec<String>, rows: &Vec<(String, String)>) -> (r: Vec<Option<String>>)
    ensures
        r@.len() == keys@.len(),
        forall|i: int|
            0 <= i < keys@.len() ==> match #[trigger] r@[i] {
                Some(v) => ordered_value(keys@, rows@, i) == Some(v@),
                None => ordered_value(keys@, rows@, i) is None,
            },
{
    let mut out: Vec<Option<String>> = Vec::new();
    let mut i: usize = 0;
    while i < keys.len()
        invariant
            i <= keys.len(),
            out@.len() == i,
            forall|k: int|
                0 <= k < i ==> match #[trigger] out@[k] {
                    Some(v) => ordered_value(keys@, rows@, k) == Some(v@),
                    None => ordered_value(keys@, rows@, k) is None,
                },
        decreases keys.len() - i,
    {
        out.push(lookup_row(rows, &keys[i]));
        i = i + 1;
    }
    out
}

} // verus!

verus! {

/// The value of `key` among pairs `(key, value)`, the last pair counting.
pub open spec fn value_in(pairs: Seq<(Seq<char>, Seq<char>)>, key: Seq<char>) -> Option<Seq<char>>
    decreases pairs.len(),
{
    if pairs.len() == 0 {
        None
    } else if pairs.last().0 == key {
        Some(pairs.last().1)
    } else {
        value_in(pairs.drop_last(), key)
    }
}

/// The identifier a key holds after an outcome.
pub open spec fn new_value(o: IdTypeView) -> Seq<char> {
    match o {
        IdTypeView::New(v) => v,
        IdTypeView::Existing { new_value, .. } => new_value,
    }
}

/// The rows of the store after the planned writes are stored over them
/// (a write replaces the row of its key).
pub open spec fn stored_after(rows: Seq<(String, String)>, writes: Seq<(Seq<char>, Seq<char>)>) -> Seq<(Seq<char>, Seq<char>)> {
    pairs_view(rows) + writes
}

proof fn lemma_row_value_is_value_in(rows: Seq<(String, String)>, key: Seq<char>)
    ensures
        row_value(rows, key) == value_in(pairs_view(rows), key),
    decreases rows.len(),
{
    if rows.len() > 0 {
        assert(pairs_view(rows).drop_last() =~= pairs_view(rows.drop_last()));
        lemma_row_value_is_value_in(rows.drop_last(), key);
    }
}

proof fn lemma_value_in_concat(a: Seq<(Seq<char>, Seq<char>)>, b: Seq<(Seq<char>, Seq<char>)>, key: Seq<char>)
    ensures
        value_in(a + b, key) == (if value_in(b, key) is Some {
            value_in(b, key)
        } else {
            value_in(a, key)
        }),
    decreases b.len(),
{
    if b.len() == 0 {
        assert(a + b =~= a);
    } else {
        assert((a + b).drop_last() =~= a + b.drop_last());
        assert((a + b).last() == b.last());
        lemma_value_in_concat(a, b.drop_last(), key);
    }
}

proof fn lemma_written_key_has_value(
    reqs: Seq<KeyRequest>,
    rows: Seq<(String, String)>,
    fresh: Seq<String>,
    n: nat,
    i: int,
)
    requires
        0 <= i < n <= reqs.len(),
        needs_write(reqs[i], row_value(rows, reqs[i].key@)),
    ensures
        value_in(writes_of(reqs, rows, fresh, n), reqs[i].key@) is Some,
    decreases n,
{
    let k = reqs[i].key@;
    let prev = writes_of(reqs, rows, fresh, (n - 1) as nat);
    let j = (n - 1) as int;
    if j > i {
        lemma_written_key_has_value(reqs, rows, fresh, (n - 1) as nat, i);
    }
    if needs_write(reqs[j], row_value(rows, reqs[j].key@)) {
        let w = prev.push((reqs[j].key@, fresh[j]@));
        assert(w.drop_last() =~= prev);
    }
}

proof fn lemma_unique_key_value(
    reqs: Seq<KeyRequest>,
    rows: Seq<(String, String)>,
    fresh: Seq<String>,
    n: nat,
    i: int,
)
    requires
        0 <= i < reqs.len(),
        n <= reqs.len(),
        forall|j: int| 0 <= j < reqs.len() && j != i ==> (#[trigger] reqs[j]).key@ != reqs[i].key@,
    ensures
        value_in(writes_of(reqs, rows, fresh, n), reqs[i].key@) == (if i < n && needs_write(
            reqs[i],
            row_value(rows, reqs[i].key@),
        ) {
            Some(fresh[i]@)
        } else {
            None
        }),
    decreases n,
{
    if n > 0 {
        let j = (n - 1) as int;
        let prev = writes_of(reqs, rows, fresh, (n - 1) as nat);
        lemma_unique_key_value(reqs, rows, fresh, (n - 1) as nat, i);
        if needs_write(reqs[j], row_value(rows, reqs[j].key@)) {
            let w = prev.push((reqs[j].key@, fresh[j]@));
            assert(w.drop_last() =~= prev);
        }
    }
}

/// Storing the planned writes makes every requested key present, and a key
/// requested once then holds the identifier its outcome reports (the one it
/// kept, or the fresh one when it was missing or forced).
pub proof fn lemma_plan_read_after_write(
    plan: KeyPlan,
    reqs: Seq<KeyRequest>,
    rows: Seq<(String, String)>,
    fresh: Seq<String>,
    i: int,
)
    requires
        resolves(plan, reqs, rows, fresh),
        0 <= i < reqs.len(),
    ensures
        value_in(stored_after(rows, pairs_view(plan.writes@)), reqs[i].key@) is Some,
        (forall|j: int| 0 <= j < reqs.len() && j != i ==> (#[trigger] reqs[j]).key@ != reqs[i].key@)
            ==> value_in(stored_after(rows, pairs_view(plan.writes@)), reqs[i].key@) == Some(
            new_value(plan.outcomes@[i]@),
        ),
{
    let k = reqs[i].key@;
    let w = writes_of(reqs, rows, fresh, reqs.len());
    lemma_value_in_concat(pairs_view(rows), w, k);
    lemma_row_value_is_value_in(rows, k);
    assert(plan.outcomes@[i]@ == outcome_of(reqs[i], row_value(rows, k), fresh[i]@));
    if needs_write(reqs[i], row_value(rows, k)) {
        lemma_written_key_has_value(reqs, rows, fresh, reqs.len(), i);
    }
    if forall|j: int| 0 <= j < reqs.len() && j != i ==> (#[trigger] reqs[j]).key@ != k {
        lemma_unique_key_value(reqs, rows, fresh, reqs.len(), i);
    }
}

proof fn lemma_unrequested_key_not_written(
    reqs: Seq<KeyRequest>,
    rows: Seq<(String, String)>,
    fresh: Seq<String>,
    n: nat,
    key: Seq<char>,
)
    requires
        n <= reqs.len(),
        forall|j: int| 0 <= j < reqs.len() ==> (#[trigger] reqs[j]).key@ != key,
    ensures
        value_in(writes_of(reqs, rows, fresh, n), key) is None,
    decreases n,
{
    if n > 0 {
        let j = (n - 1) as int;
        let prev = writes_of(reqs, rows, fresh, (n - 1) as nat);
        lemma_unrequested_key_not_written(reqs, rows, fresh, (n - 1) as nat, key);
        assert(reqs[j].key@ != key);
        if needs_write(reqs[j], row_value(rows, reqs[j].key@)) {
            let w = prev.push((reqs[j].key@, fresh[j]@));
            assert(w.drop_last() =~= prev);
        }
    }
}

/// Storing the planned writes leaves every key that was not requested as it
/// was: stored with the same value, or still missing.
pub proof fn lemma_unrequested_keys_untouched(
    plan: KeyPlan,
    reqs: Seq<KeyRequest>,
    rows: Seq<(String, String)>,
    fresh: Seq<String>,
    key: Seq<char>,
)
    requires
        resolves(plan, reqs, rows, fresh),
        forall|j: int| 0 <= j < reqs.len() ==> (#[trigger] reqs[j]).key@ != key,
    ensures
        value_in(stored_after(rows, pairs_view(plan.writes@)), key) == row_value(rows, key),
{
    let w = writes_of(reqs, rows, fresh, reqs.len());
    lemma_unrequested_key_not_written(reqs, rows, fresh, reqs.len(), key);
    lemma_value_in_concat(pairs_view(rows), w, key);
    lemma_row_value_is_value_in(rows, key);
}

/// Two requests of one batch that both get a fresh identifier (missing or
/// forced keys) get different ones, when the identifiers reserved for the
/// batch are pairwise distinct, as `plan_key_initialization` reserves them.
pub proof fn lemma_fresh_identifiers_differ(
    plan: KeyPlan,
    reqs: Seq<KeyRequest>,
    rows: Seq<(String, String)>,
    fresh: Seq<String>,
    i: int,
    j: int,
)
    requires
        resolves(plan, reqs, rows, fresh),
        fresh.len() == reqs.len(),
        forall|a: int, b: int| 0 <= a < b < fresh.len() ==> #[trigger] fresh[a]@ != #[trigger] fresh[b]@,
        0 <= i < reqs.len(),
        0 <= j < reqs.len(),
        i != j,
        needs_write(reqs[i], row_value(rows, reqs[i].key@)),
        needs_write(reqs[j], row_value(rows, reqs[j].key@)),
    ensures
        new_value(plan.outcomes@[i]@) == fresh[i]@,
        new_value(plan.outcomes@[j]@) == fresh[j]@,
        new_value(plan.outcomes@[i]@) != new_value(plan.outcomes@[j]@),
{
    assert(plan.outcomes@[i]@ == outcome_of(reqs[i], row_value(rows, reqs[i].key@), fresh[i]@));
    assert(plan.outcomes@[j]@ == outcome_of(reqs[j], row_value(rows, reqs[j].key@), fresh[j]@));
    if i < j {
        assert(fresh[i]@ != fresh[j]@);
    } else {
        assert(fresh[j]@ != fresh[i]@);
    }
}

/// A key that was stored and is not forced keeps its value and is not
/// written; a forced key gets a fresh identifier, which differs from its old
/// value whenever that value is not itself a UUID.
pub proof fn lemma_kept_and_forced_keys(
    plan: KeyPlan,
    reqs: Seq<KeyRequest>,
    rows: Seq<(String, String)>,
    fresh: Seq<String>,
    i: int,
)
    requires
        resolves(plan, reqs, rows, fresh),
        0 <= i < reqs.len(),
        forall|j: int| 0 <= j < fresh.len() ==> is_uuid_text(#[trigger] fresh[j]@),
        fresh.len() == reqs.len(),
        row_value(rows, reqs[i].key@) is Some,
    ensures
        !reqs[i].force ==> plan.outcomes@[i]@ == (IdTypeView::Existing {
            previous_value: row_value(rows, reqs[i].key@)->0,
            new_value: row_value(rows, reqs[i].key@)->0,
        }),
        reqs[i].force && !is_uuid_text(row_value(rows, reqs[i].key@)->0) ==> (plan.outcomes@[i]@ matches IdTypeView::Existing {
            previous_value,
            new_value,
        } && previous_value != new_value),
{
    assert(is_uuid_text(fresh[i]@));
}

} // verus!

verus! {

/// `n` copies of `item`, separated by `sep`.
pub open spec fn repeat_joined(item: Seq<char>, sep: Seq<char>, n: nat) -> Seq<char>
    decreases n,
{
    if n == 0 {
        Seq::empty()
    } else if n == 1 {
        item
    } else {
        repeat_joined(item, sep, (n - 1) as nat) + sep + item
    }
}

fn append_repeated(s: &mut String, item: &str, sep: &str, n: usize)
    ensures
        final(s)@ == old(s)@ + repeat_joined(item@, sep@, n as nat),
{
    let ghost start = s@;
    let mut i: usize = 0;
    while i < n
        invariant
            i <= n,
            s@ == start + repeat_joined(item@, sep@, i as nat),
        decreases n - i,
    {
        if i > 0 {
            s.append(sep);
        }
        s.append(item);
        proof {
            assert(s@ =~= start + repeat_joined(item@, sep@, (i + 1) as nat));
        }
        i = i + 1;
    }
}

/// The statement that stores `n` key-value pairs at once, replacing the
/// rows of keys that exist.
pub open spec fn insert_sql(n: nat) -> Seq<char> {
    "INSERT OR REPLACE INTO kv_table (key, value) VALUES "@ + repeat_joined("(?, ?)"@, ", "@, n)
}

/// The statement that reads the rows of `n` keys.
pub open spec fn select_sql(n: nat) -> Seq<char> {
    "SELECT key, value FROM kv_table WHERE key IN ("@ + repeat_joined("?"@, ", "@, n) + ")"@
}

/// Builds the statement that stores `n` pairs (see [`insert_sql`]).
pub fn insert_statement(n: usize) -> (s: String)
    ensures
        s@ == insert_sql(n as nat),
{
    let mut s = String::from_str("INSERT OR REPLACE INTO kv_table (key, value) VALUES ");
    append_repeated(&mut s, "(?, ?)", ", ", n);
    s
}

/// Builds the statement that reads `n` keys (see [`select_sql`]).
pub fn select_statement(n: usize) -> (s: String)
    ensures
        s@ == select_sql(n as nat),
{
    let mut s = String::from_str("SELECT key, value FROM kv_table WHERE key IN (");
    append_repeated(&mut s, "?", ", ", n);
    s.append(")");
    s
}

} // verus!
