//! Lookups and selections over lists of stored records: the first record
//! with an ID, the records of a broker, the list without some records.
use vstd::prelude::*;
use crate::keyed::lemma_filter_take_step;
use crate::models::{CommandTemplate, EnvVariable, MqttServer, Script, Subscription};

verus! {

/// A stored record with an optional ID.
pub trait Identified: Sized {
    spec fn spec_id(&self) -> Option<i64>;

    fn record_id(&self) -> (r: Option<i64>)
        ensures
            r == self.spec_id(),
    ;

    fn copy_record(&self) -> (r: Self)
        ensures
            r == *self,
    ;
}

/// A stored record that belongs to a broker.
pub trait OwnedByServer: Identified {
    spec fn spec_server_id(&self) -> i64;

    fn record_server_id(&self) -> (r: i64)
        ensures
            r == self.spec_server_id(),
    ;
}

impl Identified for MqttServer {
    open spec fn spec_id(&self) -> Option<i64> {
        self.id
    }

    fn record_id(&self) -> (r: Option<i64>) {
        self.id
    }

    fn copy_record(&self) -> (r: Self) {
        self.duplicate()
    }
}

impl Identified for Subscription {
    open spec fn spec_id(&self) -> Option<i64> {
        self.id
    }

    fn record_id(&self) -> (r: Option<i64>) {
        self.id
    }

    fn copy_record(&self) -> (r: Self) {
        self.duplicate()
    }
}

impl OwnedByServer for Subscription {
    open spec fn spec_server_id(&self) -> i64 {
        self.server_id
    }

    fn record_server_id(&self) -> (r: i64) {
        self.server_id
    }
}

impl Identified for CommandTemplate {
    open spec fn spec_id(&self) -> Option<i64> {
        self.id
    }

    fn record_id(&self) -> (r: Option<i64>) {
        self.id
    }

    fn copy_record(&self) -> (r: Self) {
        self.duplicate()
    }
}

impl OwnedByServer for CommandTemplate {
    open spec fn spec_server_id(&self) -> i64 {
        self.server_id
    }

    fn record_server_id(&self) -> (r: i64) {
        self.server_id
    }
}

impl Identified for Script {
    open spec fn spec_id(&self) -> Option<i64> {
        self.id
    }

    fn record_id(&self) -> (r: Option<i64>) {
        self.id
    }

    fn copy_record(&self) -> (r: Self) {
        self.duplicate()
    }
}

impl OwnedByServer for Script {
    open spec fn spec_server_id(&self) -> i64 {
        self.server_id
    }

    fn record_server_id(&self) -> (r: i64) {
        self.server_id
    }
}

impl Identified for EnvVariable {
    open spec fn spec_id(&self) -> Option<i64> {
        self.id
    }

    fn record_id(&self) -> (r: Option<i64>) {
        self.id
    }

    fn copy_record(&self) -> (r: Self) {
        self.duplicate()
    }
}

impl OwnedByServer for EnvVariable {
    open spec fn spec_server_id(&self) -> i64 {
        self.server_id
    }

    fn record_server_id(&self) -> (r: i64) {
        self.server_id
    }
}

/// The index of the first record of `s` whose ID is `id`, if any.
pub open spec fn first_with_id<T: Identified>(s: Seq<T>, id: Option<i64>) -> Option<int> {
    if exists|i: int| 0 <= i < s.len() && s[i].spec_id() == id {
        Some(
            choose|i: int|
                0 <= i < s.len() && s[i].spec_id() == id && forall|j: int| 0 <= j < i ==> s[j].spec_id() != id,
        )
    } else {
        None
    }
}

/// What `first_with_id` finds: an index in range holding the ID, with no earlier one.
pub proof fn lemma_first_with_id<T: Identified>(s: Seq<T>, id: Option<i64>)
    ensures
        first_with_id(s, id) matches Some(i) ==> 0 <= i < s.len() && s[i].spec_id() == id && forall|j: int|
            0 <= j < i ==> s[j].spec_id() != id,
        first_with_id(s, id) is None ==> forall|j: int| 0 <= j < s.len() ==> s[j].spec_id() != id,
{
    if exists|i: int| 0 <= i < s.len() && s[i].spec_id() == id {
        let k = choose|i: int| 0 <= i < s.len() && s[i].spec_id() == id;
        lemma_least_index(s, id, k);
    }
}

/// Below any index holding `id` there is a least one.
proof fn lemma_least_index<T: Identified>(s: Seq<T>, id: Option<i64>, k: int)
    requires
        0 <= k < s.len(),
        s[k].spec_id() == id,
    ensures
        exists|i: int| 0 <= i < s.len() && s[i].spec_id() == id && forall|j: int| 0 <= j < i ==> s[j].spec_id() != id,
    decreases k,
{
    if exists|j: int| 0 <= j < k && s[j].spec_id() == id {
        let j = choose|j: int| 0 <= j < k && s[j].spec_id() == id;
        lemma_least_index(s, id, j);
    } else {
        assert(forall|j: int| 0 <= j < k ==> s[j].spec_id() != id);
    }
}

/// The records whose ID is not `id`.
pub open spec fn without_id<T: Identified>(id: Option<i64>) -> spec_fn(T) -> bool {
    |t: T| t.spec_id() != id
}

/// The records of broker `server_id`.
pub open spec fn of_server<T: OwnedByServer>(server_id: i64) -> spec_fn(T) -> bool {
    |t: T| t.spec_server_id() == server_id
}

/// The records of any broker but `server_id`.
pub open spec fn not_of_server<T: OwnedByServer>(server_id: i64) -> spec_fn(T) -> bool {
    |t: T| t.spec_server_id() != server_id
}

/// The position of the first record with ID `id`.
pub fn find_first<T: Identified>(v: &Vec<T>, id: Option<i64>) -> (r: Option<usize>)
    ensures
        match r {
            Some(i) => first_with_id(v@, id) == Some(i as int) && i < v@.len(),
            None => first_with_id(v@, id) is None,
        },
{
    let mut i: usize = 0;
    while i < v.len()
        invariant
            i <= v.len(),
            forall|j: int| 0 <= j < i ==> v@[j].spec_id() != id,
        decreases v.len() - i,
    {
        if v[i].record_id() == id {
            proof {
                let c = choose|c: int|
                    0 <= c < v@.len() && v@[c].spec_id() == id && forall|j: int| 0 <= j < c ==> v@[j].spec_id() != id;
                assert(v@[i as int].spec_id() == id);
                assert(c == i as int) by {
                    if c < i as int {
                    } else if c > i as int {
                    }
                }
            }
            return Some(i);
        }
        i = i + 1;
    }
    None
}

/// A copy of the first record with ID `id`.
pub fn get_first<T: Identified>(v: &Vec<T>, id: Option<i64>) -> (r: Option<T>)
    ensures
        match first_with_id(v@, id) {
            Some(i) => r == Some(v@[i]),
            None => r is None,
        },
{
    match find_first(v, id) {
        Some(i) => Some(v[i].copy_record()),
        None => None,
    }
}

/// A copy of the list.
pub fn copy_all<T: Identified>(v: &Vec<T>) -> (r: Vec<T>)
    ensures
        r@ == v@,
{
    let mut r: Vec<T> = Vec::new();
    let mut i: usize = 0;
    while i < v.len()
        invariant
            i <= v.len(),
            r@ == v@.take(i as int),
        decreases v.len() - i,
    {
        r.push(v[i].copy_record());
        proof {
            assert(r@ =~= v@.take(i + 1));
        }
        i = i + 1;
    }
    proof {
        assert(v@.take(i as int) =~= v@);
    }
    r
}

/// The records whose ID is not `id`, in order.
pub fn copy_without_id<T: Identified>(v: &Vec<T>, id: Option<i64>) -> (r: Vec<T>)
    ensures
        r@ == v@.filter(without_id(id)),
{
    let mut r: Vec<T> = Vec::new();
    let mut i: usize = 0;
    while i < v.len()
        invariant
            i <= v.len(),
            r@ == v@.take(i as int).filter(without_id(id)),
        decreases v.len() - i,
    {
        proof {
            lemma_filter_take_step(v@, without_id(id), i as int);
        }
        if v[i].record_id() != id {
            r.push(v[i].copy_record());
        }
        i = i + 1;
    }
    proof {
        assert(v@.take(i as int) =~= v@);
    }
    r
}

/// The records of broker `server_id`, in order.
pub fn copy_of_server<T: OwnedByServer>(v: &Vec<T>, server_id: i64) -> (r: Vec<T>)
    ensures
        r@ == v@.filter(of_server(server_id)),
{
    let mut r: Vec<T> = Vec::new();
    let mut i: usize = 0;
    while i < v.len()
        invariant
            i <= v.len(),
            r@ == v@.take(i as int).filter(of_server(server_id)),
        decreases v.len() - i,
    {
        proof {
            lemma_filter_take_step(v@, of_server(server_id), i as int);
        }
        if v[i].record_server_id() == server_id {
            r.push(v[i].copy_record());
        }
        i = i + 1;
    }
    proof {
        assert(v@.take(i as int) =~= v@);
    }
    r
}

/// The records of other brokers than `server_id`, in order.
pub fn copy_not_of_server<T: OwnedByServer>(v: &Vec<T>, server_id: i64) -> (r: Vec<T>)
    ensures
        r@ == v@.filter(not_of_server(server_id)),
{
    let mut r: Vec<T> = Vec::new();
    let mut i: usize = 0;
    while i < v.len()
        invariant
            i <= v.len(),
            r@ == v@.take(i as int).filter(not_of_server(server_id)),
        decreases v.len() - i,
    {
        proof {
            lemma_filter_take_step(v@, not_of_server(server_id), i as int);
        }
        if v[i].record_server_id() != server_id {
            r.push(v[i].copy_record());
        }
        i = i + 1;
    }
    proof {
        assert(v@.take(i as int) =~= v@);
    }
    r
}

/// Every ID in `s` is at most `next`: the counter that issues IDs is ahead of them.
pub open spec fn ids_at_most<T: Identified>(s: Seq<T>, next: i64) -> bool {
    forall|i: int| 0 <= i < s.len() ==> (#[trigger] s[i].spec_id() matches Some(x) ==> x <= next)
}

/// A record added under the next ID of a counter that is ahead of every
/// stored ID carries a fresh ID, and the counter stays ahead.
pub proof fn law_counter_issues_fresh_ids<T: Identified>(s: Seq<T>, next: i64, t: T)
    requires
        ids_at_most(s, next),
        next < i64::MAX,
        t.spec_id() == Some((next + 1) as i64),
    ensures
        forall|i: int| 0 <= i < s.len() ==> s[i].spec_id() != t.spec_id(),
        ids_at_most(s.push(t), (next + 1) as i64),
{
    assert forall|i: int| 0 <= i < s.len() implies s[i].spec_id() != t.spec_id() by {
        if let Some(x) = s[i].spec_id() {
            assert(x <= next);
        }
    }
    assert forall|i: int| 0 <= i < s.push(t).len() implies (#[trigger] s.push(t)[i].spec_id() matches Some(x) ==> x
        <= (next + 1) as i64) by {
        if i < s.len() {
            assert(s.push(t)[i] == s[i]);
        }
    }
}

/// A record added with an ID that no stored record has is the one found by that ID.
pub proof fn law_added_record_is_found<T: Identified>(s: Seq<T>, t: T)
    requires
        forall|i: int| 0 <= i < s.len() ==> s[i].spec_id() != t.spec_id(),
    ensures
        first_with_id(s.push(t), t.spec_id()) == Some(s.len() as int),
{
    let u = s.push(t);
    lemma_first_with_id(u, t.spec_id());
    assert(u[s.len() as int] == t);
    match first_with_id(u, t.spec_id()) {
        Some(k) => {
            if k < s.len() {
                assert(u[k] == s[k]);
            }
        },
        None => {
            assert(u[s.len() as int].spec_id() == t.spec_id());
        },
    }
}

/// Once the records with an ID are removed, none is found by it, and the
/// others keep their order.
pub proof fn law_removed_record_is_gone<T: Identified>(s: Seq<T>, id: Option<i64>)
    ensures
        first_with_id(s.filter(without_id(id)), id) is None,
        forall|t: T| s.contains(t) && t.spec_id() != id ==> s.filter(without_id(id)).contains(t),
{
    let f = s.filter(without_id(id));
    lemma_first_with_id(f, id);
    assert forall|i: int| 0 <= i < f.len() implies f[i].spec_id() != id by {
        s.lemma_filter_pred(without_id(id), i);
    }
    assert forall|t: T| s.contains(t) && t.spec_id() != id implies f.contains(t) by {
        let k = choose|k: int| 0 <= k < s.len() && s[k] == t;
        s.lemma_filter_contains(without_id(id), k);
    }
}

} // verus!
