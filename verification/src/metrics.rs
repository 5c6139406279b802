//! The metrics recorder: a ledger from variant name to resource units, keys
//! unique, reported in lexicographic name order regardless of insertion order.
//! Recording a name twice overwrites the earlier value.

use vstd::prelude::*;
use vstd::string::{StrSliceExecFns, StringExecFns};

verus! {

/// Lexicographic order on names, by code point.
pub open spec fn lex_lt(a: Seq<char>, b: Seq<char>) -> bool
    decreases a.len(),
{
    if b.len() == 0 {
        false
    } else if a.len() == 0 {
        true
    } else if (a[0] as u32) < (b[0] as u32) {
        true
    } else if (a[0] as u32) > (b[0] as u32) {
        false
    } else {
        lex_lt(a.drop_first(), b.drop_first())
    }
}

/// The order is asymmetric, and ordered names differ.
pub proof fn lemma_lex_lt_asymmetric(a: Seq<char>, b: Seq<char>)
    requires
        lex_lt(a, b),
    ensures
        !lex_lt(b, a),
        a != b,
    decreases a.len(),
{
    if a.len() != 0 && b.len() != 0 {
        if (a[0] as u32) == (b[0] as u32) {
            lemma_lex_lt_asymmetric(a.drop_first(), b.drop_first());
            assert(a == b ==> a.drop_first() == b.drop_first());
        }
    }
}

/// The order is transitive.
pub proof fn lemma_lex_lt_transitive(a: Seq<char>, b: Seq<char>, c: Seq<char>)
    requires
        lex_lt(a, b),
        lex_lt(b, c),
    ensures
        lex_lt(a, c),
    decreases a.len(),
{
    if a.len() != 0 && b.len() != 0 && c.len() != 0 {
        if (a[0] as u32) == (b[0] as u32) && (b[0] as u32) == (c[0] as u32) {
            lemma_lex_lt_transitive(a.drop_first(), b.drop_first(), c.drop_first());
        }
    }
}

/// The order is total: two names neither of which precedes the other are equal.
pub proof fn lemma_lex_lt_total(a: Seq<char>, b: Seq<char>)
    requires
        !lex_lt(a, b),
        !lex_lt(b, a),
    ensures
        a =~= b,
    decreases a.len(),
{
    if a.len() != 0 && b.len() != 0 {
        lemma_lex_lt_total(a.drop_first(), b.drop_first());
        vstd::utf8::char_u32_cast(a[0], a[0] as u32);
        vstd::utf8::char_u32_cast(b[0], b[0] as u32);
        assert(a[0] == b[0]);
        assert(a =~= seq![a[0]] + a.drop_first());
        assert(b =~= seq![b[0]] + b.drop_first());
    }
}

/// A name with an ordered name as a prefix, or a strict extension of a name,
/// stays on the same side of the order.
pub proof fn lemma_lex_lt_from_difference(a: Seq<char>, b: Seq<char>, i: int)
    requires
        0 <= i <= a.len(),
        i <= b.len(),
        forall|k: int| 0 <= k < i ==> a[k] == b[k],
        (i < a.len() && i < b.len() && (a[i] as u32) < (b[i] as u32)) || (i == a.len() && i
            < b.len()),
    ensures
        lex_lt(a, b),
    decreases i,
{
    if i == 0 {
    } else {
        lemma_lex_lt_from_difference(a.drop_first(), b.drop_first(), i - 1);
    }
}

/// The result of comparing two names.
#[derive(Clone, Copy, Debug, PartialEq, Eq, Structural)]
pub enum NameOrder {
    /// The first name precedes the second.
    Before,
    /// The names are equal.
    Same,
    /// The second name precedes the first.
    After,
}

/// Compares two names in the lexicographic order.
pub fn compare_names(a: &str, b: &str) -> (r: NameOrder)
    ensures
        (r == NameOrder::Before) == lex_lt(a@, b@),
        (r == NameOrder::After) == lex_lt(b@, a@),
        (r == NameOrder::Same) == (a@ == b@),
{
    let alen = a.unicode_len();
    let blen = b.unicode_len();
    let mut i: usize = 0;
    while i < alen && i < blen
        invariant
            alen == a@.len(),
            blen == b@.len(),
            i <= alen,
            i <= blen,
            forall|k: int| 0 <= k < i ==> a@[k] == b@[k],
        decreases alen - i,
    {
        let ca = a.get_char(i);
        let cb = b.get_char(i);
        if (ca as u32) < (cb as u32) {
            proof {
                lemma_lex_lt_from_difference(a@, b@, i as int);
                lemma_lex_lt_asymmetric(a@, b@);
            }
            return NameOrder::Before;
        }
        if (ca as u32) > (cb as u32) {
            proof {
                lemma_lex_lt_from_difference(b@, a@, i as int);
                lemma_lex_lt_asymmetric(b@, a@);
            }
            return NameOrder::After;
        }
        proof {
            assert(a@[i as int] == b@[i as int]);
        }
        i += 1;
    }
    if alen < blen {
        proof {
            lemma_lex_lt_from_difference(a@, b@, alen as int);
            lemma_lex_lt_asymmetric(a@, b@);
        }
        NameOrder::Before
    } else if blen < alen {
        proof {
            lemma_lex_lt_from_difference(b@, a@, blen as int);
            lemma_lex_lt_asymmetric(b@, a@);
        }
        NameOrder::After
    } else {
        proof {
            assert(a@ =~= b@);
            if lex_lt(a@, b@) {
                lemma_lex_lt_asymmetric(a@, b@);
            }
            if lex_lt(b@, a@) {
                lemma_lex_lt_asymmetric(b@, a@);
            }
        }
        NameOrder::Same
    }
}

/// One recorded measurement: a variant name and its resource units.
pub struct MetricEntry {
    /// The recorded variant's name.
    pub name: String,
    /// The resource units the variant consumed.
    pub units: u64,
}

impl View for MetricEntry {
    type V = (Seq<char>, u64);

    open spec fn view(&self) -> (Seq<char>, u64) {
        (self.name@, self.units)
    }
}

impl DeepView for MetricEntry {
    type V = (Seq<char>, u64);

    open spec fn deep_view(&self) -> (Seq<char>, u64) {
        self.view()
    }
}

/// The entries are strictly sorted by name; names are therefore unique.
pub open spec fn sorted_by_name(m: Seq<(Seq<char>, u64)>) -> bool {
    forall|i: int, j: int| 0 <= i < j < m.len() ==> lex_lt(#[trigger] m[i].0, #[trigger] m[j].0)
}

/// What recording a measurement does to a name-sorted ledger: it overwrites
/// the entry of the same name, or inserts at the ordered position.
pub open spec fn spec_record(m: Seq<(Seq<char>, u64)>, name: Seq<char>, units: u64) -> Seq<
    (Seq<char>, u64),
>
    decreases m.len(),
{
    if m.len() == 0 {
        seq![(name, units)]
    } else if lex_lt(name, m[0].0) {
        seq![(name, units)] + m
    } else if name == m[0].0 {
        seq![(name, units)] + m.drop_first()
    } else {
        seq![m[0]] + spec_record(m.drop_first(), name, units)
    }
}

/// The value a ledger holds for a name.
pub open spec fn spec_lookup(m: Seq<(Seq<char>, u64)>, name: Seq<char>) -> Option<u64>
    decreases m.len(),
{
    if m.len() == 0 {
        None
    } else if m[0].0 == name {
        Some(m[0].1)
    } else {
        spec_lookup(m.drop_first(), name)
    }
}

/// Every name in a recorded ledger is the recorded name or one the ledger
/// already held.
proof fn lemma_record_names(m: Seq<(Seq<char>, u64)>, name: Seq<char>, units: u64)
    ensures
        forall|j: int|
            0 <= j < spec_record(m, name, units).len() ==> ((#[trigger] spec_record(m, name, units)[j]).0
                == name || exists|k: int| 0 <= k < m.len() && (#[trigger] m[k]).0 == spec_record(
                m,
                name,
                units,
            )[j].0),
    decreases m.len(),
{
    if m.len() == 0 {
    } else if lex_lt(name, m[0].0) {
    } else if name == m[0].0 {
        assert forall|j: int| 0 <= j < spec_record(m, name, units).len() implies ((
        #[trigger] spec_record(m, name, units)[j]).0 == name || exists|k: int|
            0 <= k < m.len() && (#[trigger] m[k]).0 == spec_record(m, name, units)[j].0) by {
            if j > 0 {
                assert(m[j].0 == spec_record(m, name, units)[j].0);
            }
        }
    } else {
        lemma_record_names(m.drop_first(), name, units);
        let r = spec_record(m, name, units);
        let rt = spec_record(m.drop_first(), name, units);
        assert forall|j: int| 0 <= j < r.len() implies ((#[trigger] r[j]).0 == name || exists|k: int|
            0 <= k < m.len() && (#[trigger] m[k]).0 == r[j].0) by {
            if j > 0 {
                assert(r[j] == rt[j - 1]);
                if rt[j - 1].0 != name {
                    let k = choose|k: int|
                        0 <= k < m.drop_first().len() && (#[trigger] m.drop_first()[k]).0 == rt[j
                            - 1].0;
                    assert(m[k + 1].0 == r[j].0);
                }
            } else {
                assert(m[0].0 == r[0].0);
            }
        }
    }
}

/// Law: recording gives the name exactly the recorded value, leaves every
/// other name's value untouched, and keeps the ledger sorted by name, so names
/// stay unique and a report stays in lexicographic name order regardless of
/// the order the measurements arrived in.
pub proof fn lemma_record_semantics(m: Seq<(Seq<char>, u64)>, name: Seq<char>, units: u64)
    requires
        sorted_by_name(m),
    ensures
        sorted_by_name(spec_record(m, name, units)),
        spec_lookup(spec_record(m, name, units), name) == Some(units),
        forall|other: Seq<char>|
            other != name ==> #[trigger] spec_lookup(spec_record(m, name, units), other)
                == spec_lookup(m, other),
    decreases m.len(),
{
    let r = spec_record(m, name, units);
    if m.len() == 0 {
        assert(r.drop_first() =~= Seq::<(Seq<char>, u64)>::empty());
        assert forall|other: Seq<char>| other != name implies #[trigger] spec_lookup(r, other)
            == spec_lookup(m, other) by {
            assert(spec_lookup(r, other) == spec_lookup(r.drop_first(), other));
        }
    } else if lex_lt(name, m[0].0) {
        assert forall|i: int, j: int| 0 <= i < j < r.len() implies lex_lt(
            #[trigger] r[i].0,
            #[trigger] r[j].0,
        ) by {
            if i == 0 && j > 1 {
                lemma_lex_lt_transitive(name, m[0].0, m[j - 1].0);
            }
        }
        lemma_lex_lt_asymmetric(name, m[0].0);
        assert(r.drop_first() =~= m);
        assert forall|other: Seq<char>| other != name implies #[trigger] spec_lookup(r, other)
            == spec_lookup(m, other) by {
            assert(spec_lookup(r, other) == spec_lookup(r.drop_first(), other));
        }
    } else if name == m[0].0 {
        assert(r.drop_first() =~= m.drop_first());
        assert forall|other: Seq<char>| other != name implies #[trigger] spec_lookup(r, other)
            == spec_lookup(m, other) by {
            assert(spec_lookup(r, other) == spec_lookup(r.drop_first(), other));
            assert(spec_lookup(m, other) == spec_lookup(m.drop_first(), other));
        }
        assert forall|i: int, j: int| 0 <= i < j < r.len() implies lex_lt(
            #[trigger] r[i].0,
            #[trigger] r[j].0,
        ) by {
            if i == 0 {
                assert(lex_lt(m[0].0, m[j].0));
            } else {
                assert(lex_lt(m[i].0, m[j].0));
            }
        }
    } else {
        if !lex_lt(m[0].0, name) {
            lemma_lex_lt_total(name, m[0].0);
        }
        assert(sorted_by_name(m.drop_first())) by {
            assert forall|i: int, j: int| 0 <= i < j < m.drop_first().len() implies lex_lt(
                #[trigger] m.drop_first()[i].0,
                #[trigger] m.drop_first()[j].0,
            ) by {
                assert(lex_lt(m[i + 1].0, m[j + 1].0));
            }
        }
        lemma_record_semantics(m.drop_first(), name, units);
        lemma_record_names(m.drop_first(), name, units);
        let rt = spec_record(m.drop_first(), name, units);
        assert forall|i: int, j: int| 0 <= i < j < r.len() implies lex_lt(
            #[trigger] r[i].0,
            #[trigger] r[j].0,
        ) by {
            if i == 0 {
                assert(r[j] == rt[j - 1]);
                if rt[j - 1].0 == name {
                    assert(lex_lt(m[0].0, name));
                } else {
                    let k = choose|k: int|
                        0 <= k < m.drop_first().len() && (#[trigger] m.drop_first()[k]).0 == rt[j
                            - 1].0;
                    assert(lex_lt(m[0].0, m[k + 1].0));
                }
            } else {
                assert(r[i] == rt[i - 1] && r[j] == rt[j - 1]);
            }
        }
        assert(r.drop_first() =~= rt);
        assert(spec_lookup(r, name) == Some(units)) by {
            lemma_lex_lt_asymmetric(m[0].0, name);
        }
        assert forall|other: Seq<char>| other != name implies #[trigger] spec_lookup(r, other)
            == spec_lookup(m, other) by {
            if other != m[0].0 {
                assert(spec_lookup(r, other) == spec_lookup(rt, other));
                assert(spec_lookup(m, other) == spec_lookup(m.drop_first(), other));
            }
        }
    }
}

/// Recording a name no entry carries inserts it at the ordered position.
proof fn lemma_record_is_insert(m: Seq<(Seq<char>, u64)>, name: Seq<char>, units: u64, i: int)
    requires
        sorted_by_name(m),
        0 <= i <= m.len(),
        forall|k: int| 0 <= k < i ==> lex_lt((#[trigger] m[k]).0, name),
        i < m.len() ==> lex_lt(name, m[i].0),
    ensures
        spec_record(m, name, units) =~= m.insert(i, (name, units)),
    decreases i,
{
    if i == 0 {
        if m.len() == 0 {
            assert(spec_record(m, name, units) =~= m.insert(0, (name, units)));
        } else {
            assert(lex_lt(name, m[0].0));
            assert(spec_record(m, name, units) =~= m.insert(0, (name, units)));
        }
    } else {
        lemma_lex_lt_asymmetric(m[0].0, name);
        assert(sorted_by_name(m.drop_first())) by {
            assert forall|a: int, b: int| 0 <= a < b < m.drop_first().len() implies lex_lt(
                (#[trigger] m.drop_first()[a]).0,
                (#[trigger] m.drop_first()[b]).0,
            ) by {
                assert(lex_lt(m[a + 1].0, m[b + 1].0));
            }
        }
        assert forall|k: int| 0 <= k < i - 1 implies lex_lt(
            (#[trigger] m.drop_first()[k]).0,
            name,
        ) by {
            assert(lex_lt(m[k + 1].0, name));
        }
        lemma_record_is_insert(m.drop_first(), name, units, i - 1);
        assert(spec_record(m, name, units) =~= m.insert(i, (name, units)));
    }
}

/// Recording a name an entry already carries overwrites that entry in place.
proof fn lemma_record_is_update(m: Seq<(Seq<char>, u64)>, name: Seq<char>, units: u64, i: int)
    requires
        sorted_by_name(m),
        0 <= i < m.len(),
        forall|k: int| 0 <= k < i ==> lex_lt((#[trigger] m[k]).0, name),
        m[i].0 == name,
    ensures
        spec_record(m, name, units) =~= m.update(i, (name, units)),
    decreases i,
{
    if i == 0 {
        assert(!lex_lt(name, m[0].0)) by {
            if lex_lt(name, m[0].0) {
                lemma_lex_lt_asymmetric(name, m[0].0);
            }
        }
        assert(spec_record(m, name, units) =~= m.update(0, (name, units)));
    } else {
        lemma_lex_lt_asymmetric(m[0].0, name);
        assert(sorted_by_name(m.drop_first())) by {
            assert forall|a: int, b: int| 0 <= a < b < m.drop_first().len() implies lex_lt(
                (#[trigger] m.drop_first()[a]).0,
                (#[trigger] m.drop_first()[b]).0,
            ) by {
                assert(lex_lt(m[a + 1].0, m[b + 1].0));
            }
        }
        assert forall|k: int| 0 <= k < i - 1 implies lex_lt(
            (#[trigger] m.drop_first()[k]).0,
            name,
        ) by {
            assert(lex_lt(m[k + 1].0, name));
        }
        assert(m.drop_first()[i - 1].0 == name);
        lemma_record_is_update(m.drop_first(), name, units, i - 1);
        assert(spec_record(m, name, units) =~= m.update(i, (name, units)));
    }
}

/// The ledger: measurements by variant name, kept in lexicographic name order.
pub struct MetricsLedger {
    /// The recorded entries, strictly sorted by name.
    pub entries: Vec<MetricEntry>,
}

impl View for MetricsLedger {
    type V = Seq<(Seq<char>, u64)>;

    open spec fn view(&self) -> Seq<(Seq<char>, u64)> {
        self.entries.deep_view()
    }
}

impl MetricsLedger {
    /// The ledger invariant: entries strictly sorted by name.
    pub open spec fn wf(self) -> bool {
        sorted_by_name(self@)
    }

    /// An empty ledger.
    pub fn new() -> (r: MetricsLedger)
        ensures
            r@ == Seq::<(Seq<char>, u64)>::empty(),
            r.wf(),
    {
        let r = MetricsLedger { entries: Vec::new() };
        proof {
            assert(r@ =~= Seq::<(Seq<char>, u64)>::empty());
        }
        r
    }

    /// Records a measurement, overwriting any prior value for that name.
    pub fn record(&mut self, name: &str, units: u64)
        requires
            old(self).wf(),
        ensures
            final(self)@ == spec_record(old(self)@, name@, units),
            final(self).wf(),
            spec_lookup(final(self)@, name@) == Some(units),
    {
        proof {
            lemma_record_semantics(old(self)@, name@, units);
        }
        let ghost m = self@;
        let mut i: usize = 0;
        while i < self.entries.len()
            invariant
                *self == *old(self),
                m == self@,
                old(self).wf(),
                i <= self.entries@.len(),
                self@.len() == self.entries@.len(),
                forall|k: int| 0 <= k < i ==> lex_lt((#[trigger] m[k]).0, name@),
            decreases self.entries@.len() - i,
        {
            proof {
                assert(self@[i as int].0 == self.entries@[i as int].name@);
            }
            match compare_names(name, self.entries[i].name.as_str()) {
                NameOrder::Before => {
                    proof {
                        lemma_record_semantics(m, name@, units);
                        lemma_record_is_insert(m, name@, units, i as int);
                        m.insert_ensures(i as int, (name@, units));
                    }
                    self.entries.insert(i, MetricEntry { name: name.to_owned(), units });
                    proof {
                        assert(self@ =~= spec_record(m, name@, units)) by {
                            assert(self.entries@ == old(self).entries@.insert(
                                i as int,
                                self.entries@[i as int],
                            ));
                            old(self).entries@.insert_ensures(i as int, self.entries@[i as int]);
                        }
                    }
                    return ;
                },
                NameOrder::Same => {
                    proof {
                        lemma_record_semantics(m, name@, units);
                        lemma_record_is_update(m, name@, units, i as int);
                    }
                    self.entries.set(i, MetricEntry { name: name.to_owned(), units });
                    proof {
                        assert(self@ =~= spec_record(m, name@, units));
                    }
                    return ;
                },
                NameOrder::After => {
                    i += 1;
                },
            }
        }
        proof {
            lemma_record_is_insert(m, name@, units, i as int);
            m.insert_ensures(i as int, (name@, units));
        }
        self.entries.push(MetricEntry { name: name.to_owned(), units });
        proof {
            assert(self@ =~= spec_record(m, name@, units));
        }
    }
}

/// The decimal digit character of a value below ten.
pub open spec fn digit_char(d: int) -> char {
    if d == 0 {
        '0'
    } else if d == 1 {
        '1'
    } else if d == 2 {
        '2'
    } else if d == 3 {
        '3'
    } else if d == 4 {
        '4'
    } else if d == 5 {
        '5'
    } else if d == 6 {
        '6'
    } else if d == 7 {
        '7'
    } else if d == 8 {
        '8'
    } else {
        '9'
    }
}

/// The decimal text of a value, most significant digit first.
pub open spec fn dec_chars(n: int) -> Seq<char>
    recommends
        n >= 0,
    decreases n,
{
    if n < 10 {
        seq![digit_char(n)]
    } else {
        dec_chars(n / 10) + seq![digit_char(n % 10)]
    }
}

/// The one-character text of a decimal digit.
fn digit_str(d: u64) -> (r: &'static str)
    requires
        d < 10,
    ensures
        r@ == seq![digit_char(d as int)],
{
    let r: &'static str = match d {
        0 => "0",
        1 => "1",
        2 => "2",
        3 => "3",
        4 => "4",
        5 => "5",
        6 => "6",
        7 => "7",
        8 => "8",
        _ => "9",
    };
    proof {
        reveal_strlit("0");
        reveal_strlit("1");
        reveal_strlit("2");
        reveal_strlit("3");
        reveal_strlit("4");
        reveal_strlit("5");
        reveal_strlit("6");
        reveal_strlit("7");
        reveal_strlit("8");
        reveal_strlit("9");
        assert(r@ =~= seq![digit_char(d as int)]);
    }
    r
}

/// The decimal text of a value.
pub fn u64_to_decimal(n: u64) -> (s: String)
    ensures
        s@ == dec_chars(n as int),
    decreases n,
{
    if n < 10 {
        digit_str(n).to_owned()
    } else {
        let q = n / 10;
        let d = n % 10;
        let mut s = u64_to_decimal(q);
        s.append(digit_str(d));
        s
    }
}

/// One report line: the name, a separating colon, and the unit count.
pub open spec fn line_chars(name: Seq<char>, units: u64) -> Seq<char> {
    name + ": "@ + dec_chars(units as int) + " CUs"@
}

/// Renders one report line.
pub fn format_line(name: &str, units: u64) -> (r: String)
    ensures
        r@ == line_chars(name@, units),
{
    let mut s = name.to_owned();
    s.append(": ");
    let digits = u64_to_decimal(units);
    s.append(digits.as_str());
    s.append(" CUs");
    s
}

impl MetricsLedger {
    /// Produces the report lines, one per recorded variant, sorted by name.
    pub fn report(&self) -> (r: Vec<String>)
        ensures
            r@.len() == self@.len(),
            forall|i: int|
                0 <= i < r@.len() ==> (#[trigger] r@[i])@ == line_chars(self@[i].0, self@[i].1),
    {
        let mut out: Vec<String> = Vec::new();
        let mut i: usize = 0;
        while i < self.entries.len()
            invariant
                i <= self.entries@.len(),
                self@.len() == self.entries@.len(),
                out@.len() == i,
                forall|k: int|
                    0 <= k < i ==> (#[trigger] out@[k])@ == line_chars(self@[k].0, self@[k].1),
            decreases self.entries@.len() - i,
        {
            proof {
                assert(self@[i as int].0 == self.entries@[i as int].name@);
                assert(self@[i as int].1 == self.entries@[i as int].units);
            }
            let line = format_line(self.entries[i].name.as_str(), self.entries[i].units);
            out.push(line);
            i += 1;
        }
        out
    }
}

} // verus!
