//! Helpers: an ordered set of parameters and its query string, the time
//! stamp of a request, and the integer of a document.

use vstd::prelude::*;
use vstd::string::*;
use vstd::utf8::*;
use crate::json::Json;
use crate::text::push_char;

verus! {

/// Whether `a` comes before `b` where both agree on their first `from`
/// bytes: at the first byte that differs `a` has the smaller one, or `a`
/// ends first.
pub open spec fn bytes_before_from(a: Seq<u8>, b: Seq<u8>, from: int) -> bool
    decreases b.len() - from,
{
    if from < 0 || from >= b.len() {
        false
    } else if from >= a.len() {
        true
    } else if a[from] != b[from] {
        a[from] < b[from]
    } else {
        bytes_before_from(a, b, from + 1)
    }
}

/// Whether the text `a` comes before the text `b`: the order of their UTF-8
/// bytes, which is the order of strings.
pub open spec fn text_before(a: Seq<char>, b: Seq<char>) -> bool {
    bytes_before_from(encode_utf8(a), encode_utf8(b), 0)
}

/// The order is transitive.
pub proof fn lemma_bytes_before_transitive(a: Seq<u8>, b: Seq<u8>, c: Seq<u8>, from: int)
    requires
        0 <= from,
        bytes_before_from(a, b, from),
        bytes_before_from(b, c, from),
    ensures
        bytes_before_from(a, c, from),
    decreases b.len() - from,
{
    if from < a.len() && from < c.len() && a[from] == b[from] && b[from] == c[from] {
        lemma_bytes_before_transitive(a, b, c, from + 1);
    }
}

/// Where a text stands relative to another.
#[derive(Debug, Clone, Copy, PartialEq, Eq, Structural)]
pub enum Rank {
    Before,
    Same,
    After,
}

/// Where `a` stands relative to `b`.
pub fn rank(a: &str, b: &str) -> (r: Rank)
    ensures
        r is Before <==> text_before(a@, b@),
        r is Same <==> a@ == b@,
        r is After <==> text_before(b@, a@),
{
    let x = a.as_bytes();
    let y = b.as_bytes();
    let n: usize = x.len();
    let m: usize = y.len();
    let mut i: usize = 0;
    proof {
        encode_utf8_decode_utf8(a@);
        encode_utf8_decode_utf8(b@);
    }
    while i < n && i < m
        invariant
            n == x@.len(),
            m == y@.len(),
            i <= n,
            i <= m,
            x@ == encode_utf8(a@),
            y@ == encode_utf8(b@),
            decode_utf8(x@) == a@,
            decode_utf8(y@) == b@,
            forall|k: int| 0 <= k < i ==> x@[k] == y@[k],
            bytes_before_from(x@, y@, 0) == bytes_before_from(x@, y@, i as int),
            bytes_before_from(y@, x@, 0) == bytes_before_from(y@, x@, i as int),
        decreases n - i,
    {
        if x[i] < y[i] {
            assert(x@ != y@);
            return Rank::Before;
        }
        if x[i] > y[i] {
            assert(x@ != y@);
            return Rank::After;
        }
        i = i + 1;
    }
    if n < m {
        assert(x@ != y@);
        Rank::Before
    } else if m < n {
        assert(x@ != y@);
        Rank::After
    } else {
        assert(x@ =~= y@);
        Rank::Same
    }
}

/// One parameter of a request: a name and a value.
#[derive(Debug)]
pub struct Parameter {
    pub name: String,
    pub value: String,
}

/// The parameters of a request, kept in the order of their names, each
/// name once.
#[derive(Debug)]
pub struct Parameters {
    entries: Vec<Parameter>,
}

/// `name=value` for each parameter from index `from` on, with `&` between
/// them. Nothing is escaped.
pub open spec fn plain_query_from(entries: Seq<Parameter>, from: int) -> Seq<char>
    decreases entries.len() - from,
{
    if from < 0 || from >= entries.len() {
        Seq::empty()
    } else if from + 1 == entries.len() {
        entries[from].name@ + seq!['='] + entries[from].value@
    } else {
        entries[from].name@ + seq!['='] + entries[from].value@ + seq!['&'] + plain_query_from(
            entries,
            from + 1,
        )
    }
}

/// Whether the names stand in their order, each once.
pub open spec fn is_ordered(entries: Seq<Parameter>) -> bool {
    forall|i: int, j: int|
        0 <= i < j < entries.len() ==> text_before(
            #[trigger] entries[i].name@,
            #[trigger] entries[j].name@,
        )
}

/// Whether a parameter of that name and that value is among the entries.
pub open spec fn holds_pair(entries: Seq<Parameter>, name: Seq<char>, value: Seq<char>) -> bool {
    exists|i: int|
        0 <= i < entries.len() && (#[trigger] entries[i]).name@ == name && entries[i].value@
            == value
}

impl Parameters {
    /// The parameters, in the order of their names.
    pub closed spec fn entries(&self) -> Seq<Parameter> {
        self.entries@
    }

    /// The names stand in their order, each once.
    pub open spec fn well_formed(&self) -> bool {
        is_ordered(self.entries())
    }

    /// Whether the parameter `name` has the value `value`.
    pub open spec fn holds(&self, name: Seq<char>, value: Seq<char>) -> bool {
        holds_pair(self.entries(), name, value)
    }

    /// The query string of the parameters.
    pub open spec fn spec_query(&self) -> Seq<char> {
        plain_query_from(self.entries(), 0)
    }

    /// No parameters.
    pub fn new() -> (r: Self)
        ensures
            r.well_formed(),
            r.entries().len() == 0,
    {
        Parameters { entries: Vec::new() }
    }

    pub fn len(&self) -> (n: usize)
        ensures
            n == self.entries().len(),
    {
        self.entries.len()
    }

    pub fn is_empty(&self) -> (r: bool)
        ensures
            r == (self.entries().len() == 0),
    {
        self.entries.len() == 0
    }

    /// Where a name stands among the parameters: the number of names before
    /// it, and whether it is one of them.
    pub fn position(&self, name: &str) -> (r: (usize, bool))
        ensures
            r.0 <= self.entries().len(),
            forall|k: int| 0 <= k < r.0 ==> text_before(#[trigger] self.entries()[k].name@, name@),
            r.1 ==> r.0 < self.entries().len() && self.entries()[r.0 as int].name@ == name@,
            !r.1 ==> r.0 == self.entries().len() || text_before(
                name@,
                self.entries()[r.0 as int].name@,
            ),
    {
        let count: usize = self.entries.len();
        let mut at: usize = 0;
        while at < count
            invariant
                count == self.entries@.len(),
                at <= count,
                forall|k: int|
                    0 <= k < at ==> text_before(#[trigger] self.entries@[k].name@, name@),
            decreases count - at,
        {
            match rank(self.entries[at].name.as_str(), name) {
                Rank::Before => {},
                Rank::Same => {
                    return (at, true);
                },
                Rank::After => {
                    return (at, false);
                },
            }
            at = at + 1;
        }
        (at, false)
    }

    /// The value of the parameter `name`, where there is one.
    pub fn get(&self, name: &str) -> (r: Option<&str>)
        requires
            self.well_formed(),
        ensures
            r matches Some(value) ==> self.holds(name@, value@),
            r is None ==> forall|v: Seq<char>| !self.holds(name@, v),
    {
        let (at, found) = self.position(name);
        if found {
            Some(self.entries[at].value.as_str())
        } else {
            proof {
                let entries = self.entries@;
                assert forall|v: Seq<char>| !self.holds(name@, v) by {
                    if self.holds(name@, v) {
                        let i = choose|i: int|
                            0 <= i < entries.len() && (#[trigger] entries[i]).name@ == name@
                                && entries[i].value@ == v;
                        lemma_not_before_itself(name@);
                        if i < at {
                        } else if i > at {
                            lemma_bytes_before_transitive(
                                encode_utf8(name@),
                                encode_utf8(entries[at as int].name@),
                                encode_utf8(entries[i].name@),
                                0,
                            );
                        }
                    }
                }
            }
            None
        }
    }

    /// Sets the parameter `name` to `value`: a parameter of that name gets
    /// the new value, a new name takes its place in the order.
    pub fn insert(&mut self, name: String, value: String)
        requires
            old(self).well_formed(),
        ensures
            final(self).well_formed(),
            final(self).holds(name@, value@),
            forall|n: Seq<char>, v: Seq<char>|
                n != name@ ==> (final(self).holds(n, v) <==> old(self).holds(n, v)),
            forall|v: Seq<char>| final(self).holds(name@, v) ==> v == value@,
    {
        let ghost before = self.entries@;
        let ghost key = name@;
        let ghost new_value = value@;
        let (at, found) = self.position(name.as_str());
        if found {
            self.entries.set(at, Parameter { name, value });
        } else {
            self.entries.insert(at, Parameter { name, value });
        }
        proof {
            let after = self.entries@;
            let p = at as int;
            lemma_not_before_itself(key);
            if found {
                assert(after.len() == before.len());
                assert forall|i: int| 0 <= i < after.len() implies (#[trigger] after[i]).name@
                    == before[i].name@ by {}
                assert forall|i: int, j: int| 0 <= i < j < after.len() implies text_before(
                    #[trigger] after[i].name@,
                    #[trigger] after[j].name@,
                ) by {
                    assert(text_before(before[i].name@, before[j].name@));
                }
                assert(after[p].name@ == key && after[p].value@ == new_value);
                assert forall|n: Seq<char>, v: Seq<char>| n != key implies (holds_pair(after, n, v)
                    <==> holds_pair(before, n, v)) by {
                    if holds_pair(after, n, v) {
                        let i = choose|i: int|
                            0 <= i < after.len() && (#[trigger] after[i]).name@ == n
                                && after[i].value@ == v;
                        assert(i != p);
                        assert(before[i].name@ == n && before[i].value@ == v);
                    }
                    if holds_pair(before, n, v) {
                        let i = choose|i: int|
                            0 <= i < before.len() && (#[trigger] before[i]).name@ == n
                                && before[i].value@ == v;
                        assert(i != p);
                        assert(after[i].name@ == n && after[i].value@ == v);
                    }
                }
                assert forall|v: Seq<char>| holds_pair(after, key, v) implies v == new_value by {
                    let i = choose|i: int|
                        0 <= i < after.len() && (#[trigger] after[i]).name@ == key && after[i].value@
                            == v;
                    if i < p {
                        assert(text_before(before[i].name@, before[p].name@));
                    } else if i > p {
                        assert(text_before(before[p].name@, before[i].name@));
                    }
                }
            } else {
                assert(after.len() == before.len() + 1);
                assert(after[p].name@ == key && after[p].value@ == new_value);
                assert forall|k: int| p <= k < before.len() implies text_before(
                    key,
                    #[trigger] before[k].name@,
                ) by {
                    if k > p {
                        assert(text_before(before[p].name@, before[k].name@));
                        lemma_bytes_before_transitive(
                            encode_utf8(key),
                            encode_utf8(before[p].name@),
                            encode_utf8(before[k].name@),
                            0,
                        );
                    }
                }
                assert forall|i: int, j: int| 0 <= i < j < after.len() implies text_before(
                    #[trigger] after[i].name@,
                    #[trigger] after[j].name@,
                ) by {
                    let bi = if i < p {
                        i
                    } else {
                        i - 1
                    };
                    let bj = if j < p {
                        j
                    } else {
                        j - 1
                    };
                    if i == p {
                        assert(after[j] == before[bj]);
                        assert(text_before(key, before[bj].name@));
                    } else if j == p {
                        assert(after[i] == before[bi]);
                        assert(text_before(before[bi].name@, key));
                    } else {
                        assert(after[i] == before[bi]);
                        assert(after[j] == before[bj]);
                        assert(text_before(before[bi].name@, before[bj].name@));
                    }
                }
                assert forall|n: Seq<char>, v: Seq<char>| n != key implies (holds_pair(after, n, v)
                    <==> holds_pair(before, n, v)) by {
                    if holds_pair(after, n, v) {
                        let i = choose|i: int|
                            0 <= i < after.len() && (#[trigger] after[i]).name@ == n
                                && after[i].value@ == v;
                        assert(i != p);
                        let b = if i < p {
                            i
                        } else {
                            i - 1
                        };
                        assert(after[i] == before[b]);
                        assert(before[b].name@ == n && before[b].value@ == v);
                    }
                    if holds_pair(before, n, v) {
                        let i = choose|i: int|
                            0 <= i < before.len() && (#[trigger] before[i]).name@ == n
                                && before[i].value@ == v;
                        let a = if i < p {
                            i
                        } else {
                            i + 1
                        };
                        assert(after[a] == before[i]);
                        assert(after[a].name@ == n && after[a].value@ == v);
                    }
                }
                assert forall|v: Seq<char>| holds_pair(after, key, v) implies v == new_value by {
                    let i = choose|i: int|
                        0 <= i < after.len() && (#[trigger] after[i]).name@ == key && after[i].value@
                            == v;
                    if i < p {
                        assert(after[i] == before[i]);
                        assert(text_before(before[i].name@, key));
                    } else if i > p {
                        assert(after[i] == before[i - 1]);
                        assert(text_before(key, before[i - 1].name@));
                    }
                }
            }
        }
    }

    /// The query string of the parameters: `name=value` for each, in the
    /// order of the names, with `&` between them. Nothing is escaped.
    pub fn to_query(&self) -> (query: String)
        ensures
            query@ == self.spec_query(),
    {
        let mut query = String::new();
        let n: usize = self.entries.len();
        let mut i: usize = 0;
        assert(query@ + plain_query_from(self.entries@, 0) =~= plain_query_from(self.entries@, 0));
        while i < n
            invariant
                n == self.entries@.len(),
                i <= n,
                i < n ==> query@ + plain_query_from(self.entries@, i as int) == plain_query_from(
                    self.entries@,
                    0,
                ),
                i == n ==> query@ == plain_query_from(self.entries@, 0),
            decreases n - i,
        {
            let ghost written = query@;
            let ghost entry = self.entries@[i as int];
            query.append(self.entries[i].name.as_str());
            push_char(&mut query, '=');
            query.append(self.entries[i].value.as_str());
            if i + 1 < n {
                push_char(&mut query, '&');
                assert(query@ + plain_query_from(self.entries@, i + 1) =~= written
                    + plain_query_from(self.entries@, i as int));
            } else {
                assert(query@ =~= written + plain_query_from(self.entries@, i as int));
            }
            i = i + 1;
        }
        query
    }
}

/// No text comes before itself.
pub proof fn lemma_not_before_itself(a: Seq<char>)
    ensures
        !text_before(a, a),
{
    lemma_bytes_not_before_itself(encode_utf8(a), 0);
}

proof fn lemma_bytes_not_before_itself(a: Seq<u8>, from: int)
    requires
        0 <= from,
    ensures
        !bytes_before_from(a, a, from),
    decreases a.len() - from,
{
    if from < a.len() {
        lemma_bytes_not_before_itself(a, from + 1);
    }
}

/// The query string of a set of parameters: `name=value` for each, in the
/// order of the names, with `&` between them.
pub fn request_to_query_string(parameters: Parameters) -> (query: String)
    requires
        parameters.entries().len() > 0,
    ensures
        query@ == parameters.spec_query(),
{
    parameters.to_query()
}

/// The integer of a document that is one.
pub fn to_i64(v: &Json) -> (n: i64)
    requires
        v@.as_i64() is Some,
    ensures
        Some(n) == v@.as_i64(),
{
    v.as_i64().unwrap()
}

/// The milliseconds of a time that is `seconds` and `nanoseconds` after the
/// epoch.
pub open spec fn spec_timestamp(seconds: u64, nanoseconds: u32) -> int {
    seconds * 1000 + nanoseconds / 1_000_000
}

/// The time stamp of a request: the milliseconds since the epoch of a time
/// given in seconds and nanoseconds.
pub fn get_timestamp(seconds: u64, nanoseconds: u32) -> (millis: u64)
    requires
        spec_timestamp(seconds, nanoseconds) <= u64::MAX,
    ensures
        millis == spec_timestamp(seconds, nanoseconds),
{
    seconds * 1000 + (nanoseconds / 1_000_000) as u64
}

} // verus!
