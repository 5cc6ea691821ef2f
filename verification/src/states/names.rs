use vstd::prelude::*;
use vstd::string::StrSliceExecFns;
use vstd::string::StringExecFns;

verus! {

/// The character that parts the components of a region identifier.
pub const SEPARATOR: char = '/';

/// `a` and `b` agree on their first `k` characters.
pub open spec fn agree(a: Seq<char>, b: Seq<char>, k: int) -> bool {
    &&& 0 <= k <= a.len()
    &&& k <= b.len()
    &&& forall|j: int| 0 <= j < k ==> a[j] == b[j]
}

/// `a` and `b` agree on their first `k` characters, and there `a` ends
/// while `b` goes on, or `a` has the smaller character.
pub open spec fn parts_at(a: Seq<char>, b: Seq<char>, k: int) -> bool {
    &&& agree(a, b, k)
    &&& k < b.len()
    &&& k < a.len() ==> (a[k] as int) < (b[k] as int)
}

/// `a` comes before `b` in dictionary order, characters taken by their code
/// points. This is the order of `str`.
pub open spec fn precedes(a: Seq<char>, b: Seq<char>) -> bool {
    exists|k: int| parts_at(a, b, k)
}

/// Each name comes before the next: the names are sorted and none occurs
/// twice.
pub open spec fn ascending(names: Seq<Seq<char>>) -> bool {
    forall|i: int, j: int| 0 <= i < j < names.len() ==> precedes(names[i], names[j])
}

/// The text of a string that may be missing.
pub open spec fn text_of(text: Option<String>) -> Option<Seq<char>> {
    match text {
        Some(t) => Some(t@),
        None => None,
    }
}

/// The texts of a list of strings.
pub open spec fn texts(list: Seq<String>) -> Seq<Seq<char>> {
    Seq::new(list.len(), |i: int| list[i]@)
}

/// No name comes before itself.
pub proof fn lemma_precedes_irreflexive(a: Seq<char>)
    ensures
        !precedes(a, a),
{
}

/// Of two different names one comes before the other.
pub proof fn lemma_precedes_total(a: Seq<char>, b: Seq<char>)
    ensures
        a == b || precedes(a, b) || precedes(b, a),
{
    if a =~= b {
    } else {
        let k = first_difference(a, b, 0);
        lemma_first_difference(a, b, 0);
        if k < a.len() && k < b.len() {
            let p: char = a[k];
            let q: char = b[k];
            assert(p != q);
            if (p as int) < (q as int) {
                assert(parts_at(a, b, k));
            } else {
                assert((q as int) < (p as int));
                assert(parts_at(b, a, k));
            }
        } else if k < b.len() {
            assert(parts_at(a, b, k));
        } else {
            assert(k < a.len());
            assert(parts_at(b, a, k));
        }
    }
}

/// The first position from `from` on at which `a` and `b` differ or one of
/// them ends.
pub open spec fn first_difference(a: Seq<char>, b: Seq<char>, from: int) -> int
    decreases a.len() - from,
{
    if 0 <= from < a.len() && from < b.len() && a[from] == b[from] {
        first_difference(a, b, from + 1)
    } else {
        from
    }
}

proof fn lemma_first_difference(a: Seq<char>, b: Seq<char>, from: int)
    requires
        agree(a, b, from),
    ensures
        agree(a, b, first_difference(a, b, from)),
        from <= first_difference(a, b, from),
        first_difference(a, b, from) < a.len() && first_difference(a, b, from) < b.len() ==> a[first_difference(
            a,
            b,
            from,
        )] != b[first_difference(a, b, from)],
    decreases a.len() - from,
{
    if from < a.len() && from < b.len() && a[from] == b[from] {
        lemma_first_difference(a, b, from + 1);
    }
}

/// What comes before a name that comes before a third, comes before the
/// third.
pub proof fn lemma_precedes_transitive(a: Seq<char>, b: Seq<char>, c: Seq<char>)
    requires
        precedes(a, b),
        precedes(b, c),
    ensures
        precedes(a, c),
{
    let k1 = choose|k: int| parts_at(a, b, k);
    let k2 = choose|k: int| parts_at(b, c, k);
    if k1 <= k2 {
        assert(agree(a, c, k1));
        if k1 < k2 {
            assert(b[k1] == c[k1]);
        }
        assert(parts_at(a, c, k1));
    } else {
        assert(agree(a, c, k2));
        assert(a[k2] == b[k2]);
        assert(parts_at(a, c, k2));
    }
}

/// Of two names at most one comes before the other.
pub proof fn lemma_precedes_asymmetric(a: Seq<char>, b: Seq<char>)
    requires
        precedes(a, b),
    ensures
        !precedes(b, a),
        a != b,
{
    if precedes(b, a) {
        lemma_precedes_transitive(a, b, a);
    }
}

/// Whether `a` comes before `b` in dictionary order.
pub fn comes_before(a: &String, b: &String) -> (yes: bool)
    ensures
        yes == precedes(a@, b@),
{
    let x = a.as_str();
    let y = b.as_str();
    let n = x.unicode_len();
    let m = y.unicode_len();
    let mut i: usize = 0;
    while i < n && i < m
        invariant
            n == a@.len(),
            m == b@.len(),
            x@ == a@,
            y@ == b@,
            agree(a@, b@, i as int),
        decreases n - i,
    {
        let p = x.get_char(i);
        let q = y.get_char(i);
        if p != q {
            proof {
                if p < q {
                    assert(parts_at(a@, b@, i as int));
                } else {
                    assert(parts_at(b@, a@, i as int));
                    lemma_precedes_asymmetric(b@, a@);
                }
            }
            return p < q;
        }
        i += 1;
    }
    proof {
        if i < m {
            assert(parts_at(a@, b@, i as int));
        } else if i < n {
            assert(parts_at(b@, a@, i as int));
            lemma_precedes_asymmetric(b@, a@);
        } else {
            assert(a@ =~= b@);
        }
    }
    i < m
}

/// Where the component of `s` that starts at `from` ends: at the first
/// separator from there on, or at the end of `s`.
pub open spec fn component_end(s: Seq<char>, from: int) -> int
    decreases s.len() - from,
{
    if 0 <= from < s.len() && s[from] != SEPARATOR {
        component_end(s, from + 1)
    } else {
        from
    }
}

/// A component holds no separator, and ends before one or at the end of
/// the text.
pub proof fn lemma_component_end(s: Seq<char>, from: int)
    requires
        0 <= from <= s.len(),
    ensures
        from <= component_end(s, from) <= s.len(),
        forall|j: int| from <= j < component_end(s, from) ==> s[j] != SEPARATOR,
        component_end(s, from) < s.len() ==> s[component_end(s, from)] == SEPARATOR,
    decreases s.len() - from,
{
    if from < s.len() && s[from] != SEPARATOR {
        lemma_component_end(s, from + 1);
    }
}

/// The first component of an identifier: what stands before its first
/// separator, or all of it where it has none.
pub open spec fn country_of(id: Seq<char>) -> Seq<char> {
    id.subrange(0, component_end(id, 0))
}

/// The second component of an identifier: what stands between its first
/// separator and its second, or its end. An identifier without a separator
/// has none.
pub open spec fn city_of(id: Seq<char>) -> Option<Seq<char>> {
    let first = component_end(id, 0);
    if first < id.len() {
        Some(id.subrange(first + 1, component_end(id, first + 1)))
    } else {
        None
    }
}

/// An identifier taken apart.
#[derive(Clone, Debug, PartialEq, Eq)]
pub struct RegionName {
    pub country: String,
    pub city: Option<String>,
}

/// An identifier taken apart, as a plain value.
pub struct RegionNameView {
    pub country: Seq<char>,
    pub city: Option<Seq<char>>,
}

impl View for RegionName {
    type V = RegionNameView;

    open spec fn view(&self) -> RegionNameView {
        RegionNameView {
            country: self.country@,
            city: match self.city {
                Some(city) => Some(city@),
                None => None,
            },
        }
    }
}

/// The parts of the identifier `id`.
pub open spec fn parsed(id: Seq<char>) -> RegionNameView {
    RegionNameView { country: country_of(id), city: city_of(id) }
}

/// The parts of each identifier of a list.
pub open spec fn parsed_all(ids: Seq<String>) -> Seq<RegionNameView> {
    Seq::new(ids.len(), |k: int| parsed(ids[k]@))
}

/// The plain values of a list of names.
pub open spec fn name_views(names: Seq<RegionName>) -> Seq<RegionNameView> {
    Seq::new(names.len(), |k: int| names[k]@)
}

/// Finds where the component of `s` that starts at `from` ends.
fn find_component_end(s: &str, from: usize, len: usize) -> (end: usize)
    requires
        len == s@.len(),
        from <= len,
    ensures
        end == component_end(s@, from as int),
        from <= end <= len,
{
    let mut i: usize = from;
    while i < len
        invariant
            len == s@.len(),
            from <= i <= len,
            component_end(s@, from as int) == component_end(s@, i as int),
        decreases len - i,
    {
        if s.get_char(i) == SEPARATOR {
            return i;
        }
        i += 1;
    }
    i
}

/// Takes an identifier apart at its separators.
pub fn split_identifier(id: &String) -> (name: RegionName)
    ensures
        name@ == parsed(id@),
{
    let s = id.as_str();
    let len = s.unicode_len();
    let first = find_component_end(s, 0, len);
    let country = String::from_str(s.substring_char(0, first));
    let city = if first < len {
        let second = find_component_end(s, first + 1, len);
        Some(String::from_str(s.substring_char(first + 1, second)))
    } else {
        None
    };
    RegionName { country, city }
}

/// The first place from `from` on whose name does not come before
/// `name`, or the length of the list where every name does.
pub open spec fn slot(list: Seq<Seq<char>>, name: Seq<char>, from: int) -> int
    decreases list.len() - from,
{
    if 0 <= from < list.len() && precedes(list[from], name) {
        slot(list, name, from + 1)
    } else {
        from
    }
}

/// The list with `name` put in at its slot, unless `name` stands there
/// already.
pub open spec fn with_name(list: Seq<Seq<char>>, name: Seq<char>) -> Seq<Seq<char>> {
    let at = slot(list, name, 0);
    if at < list.len() && list[at] == name {
        list
    } else {
        list.insert(at, name)
    }
}

/// Puts `name` into the list at the first place whose name does not come
/// before it, unless it stands there already, and returns the place.
///
/// An ascending list stays ascending and gains no double that way: see
/// `lemma_with_name`.
pub fn insert_name(list: &mut Vec<String>, name: &String) -> (at: usize)
    ensures
        at == slot(texts(old(list)@), name@, 0),
        texts(final(list)@) == with_name(texts(old(list)@), name@),
{
    let ghost before = texts(list@);
    let mut i: usize = 0;
    while i < list.len() && comes_before(&list[i], name)
        invariant
            i <= list@.len(),
            texts(list@) == before,
            slot(before, name@, 0) == slot(before, name@, i as int),
        decreases list@.len() - i,
    {
        i += 1;
    }
    if i < list.len() && list[i] == *name {
        return i;
    }
    list.insert(i, name.clone());
    assert(texts(list@) =~= before.insert(i as int, name@));
    i
}

/// The slot of a name lies in the list or at its end; every name before
/// it comes before the name, and the name at it does not.
pub proof fn lemma_slot(list: Seq<Seq<char>>, name: Seq<char>, from: int)
    requires
        0 <= from <= list.len(),
    ensures
        from <= slot(list, name, from) <= list.len(),
        forall|j: int| from <= j < slot(list, name, from) ==> precedes(#[trigger] list[j], name),
        slot(list, name, from) < list.len() ==> !precedes(list[slot(list, name, from)], name),
    decreases list.len() - from,
{
    if from < list.len() && precedes(list[from], name) {
        lemma_slot(list, name, from + 1);
    }
}

/// An ascending list with a name put in is ascending, and holds the name
/// and what it held before, nothing else.
pub proof fn lemma_with_name(list: Seq<Seq<char>>, name: Seq<char>)
    requires
        ascending(list),
    ensures
        ascending(with_name(list, name)),
        forall|c: Seq<char>| with_name(list, name).contains(c) <==> list.contains(c) || c == name,
{
    let at = slot(list, name, 0);
    let after = with_name(list, name);
    lemma_slot(list, name, 0);
    if at < list.len() && list[at] == name {
        assert(list.contains(name));
    } else {
        // From the slot on every name comes after `name`.
        assert forall|j: int| at <= j < list.len() implies precedes(name, #[trigger] list[j]) by {
            lemma_precedes_total(list[at], name);
            if at < j {
                assert(precedes(list[at], list[j]));
                lemma_precedes_transitive(name, list[at], list[j]);
            }
        }
        assert forall|a: int, b: int| 0 <= a < b < after.len() implies precedes(
            after[a],
            after[b],
        ) by {
            let x = if a < at { a } else { a - 1 };
            let y = if b < at { b } else { b - 1 };
            if a == at {
                assert(after[b] == list[y]);
            } else if b == at {
                assert(after[a] == list[x]);
            } else {
                assert(after[a] == list[x]);
                assert(after[b] == list[y]);
                assert(x < y);
            }
        }
        assert forall|c: Seq<char>| after.contains(c) <==> list.contains(c) || c == name by {
            if after.contains(c) {
                let j = choose|j: int| 0 <= j < after.len() && after[j] == c;
                if j < at {
                    assert(list[j] == c);
                } else if j > at {
                    assert(list[j - 1] == c);
                }
            }
            if list.contains(c) {
                let j = choose|j: int| 0 <= j < list.len() && list[j] == c;
                if j < at {
                    assert(after[j] == c);
                } else {
                    assert(after[j + 1] == c);
                }
            }
            if c == name {
                assert(after[at] == c);
            }
        }
    }
}

/// An ascending list is settled by the names in it: two ascending lists
/// that hold the same names are the same list.
pub proof fn lemma_ascending_unique(a: Seq<Seq<char>>, b: Seq<Seq<char>>)
    requires
        ascending(a),
        ascending(b),
        forall|c: Seq<char>| a.contains(c) <==> b.contains(c),
    ensures
        a == b,
    decreases a.len(),
{
    if a.len() == 0 {
        if b.len() > 0 {
            assert(b.contains(b[0]));
        }
        assert(a =~= b);
    } else {
        assert(a.contains(a[0]));
        let j = choose|j: int| 0 <= j < b.len() && b[j] == a[0];
        assert(b.contains(b[0]));
        let i = choose|i: int| 0 <= i < a.len() && a[i] == b[0];
        if i > 0 && j > 0 {
            assert(precedes(a[0], a[i]));
            assert(precedes(b[0], b[j]));
            lemma_precedes_asymmetric(a[0], b[0]);
        }
        assert(a[0] == b[0]);
        let x = a.drop_first();
        let y = b.drop_first();
        assert forall|c: Seq<char>| x.contains(c) <==> y.contains(c) by {
            if x.contains(c) {
                let k = choose|k: int| 0 <= k < x.len() && x[k] == c;
                assert(a[k + 1] == c);
                assert(precedes(a[0], a[k + 1]));
                lemma_precedes_asymmetric(a[0], c);
                assert(a.contains(c));
                let m = choose|m: int| 0 <= m < b.len() && b[m] == c;
                assert(y[m - 1] == c);
            }
            if y.contains(c) {
                let k = choose|k: int| 0 <= k < y.len() && y[k] == c;
                assert(b[k + 1] == c);
                assert(precedes(b[0], b[k + 1]));
                lemma_precedes_asymmetric(b[0], c);
                assert(b.contains(c));
                let m = choose|m: int| 0 <= m < a.len() && a[m] == c;
                assert(x[m - 1] == c);
            }
        }
        assert forall|p: int, q: int| 0 <= p < q < x.len() implies precedes(x[p], x[q]) by {
            assert(precedes(a[p + 1], a[q + 1]));
        }
        assert forall|p: int, q: int| 0 <= p < q < y.len() implies precedes(y[p], y[q]) by {
            assert(precedes(b[p + 1], b[q + 1]));
        }
        lemma_ascending_unique(x, y);
        assert(a =~= seq![a[0]] + x);
        assert(b =~= seq![b[0]] + y);
    }
}

} // verus!
