//! The order of the component cards on the dashboard.

use vstd::prelude::*;
use crate::components::sensors::SensorTableNames;
use crate::text::str_eq;

verus! {

/// A character as `to_lowercase` changes it for matching ASCII words: ASCII
/// capitals become small letters and the Kelvin sign becomes `k`. Every other
/// character lowers to characters of which none can complete an ASCII word
/// (`İ` lowers to `i` and a combining dot), so it is kept as it is.
pub open spec fn lower_char(c: char) -> char {
    if 'A' <= c <= 'Z' {
        ((c as u32) + 32) as char
    } else if c == '\u{212A}' {
        'k'
    } else {
        c
    }
}

/// A name with every character lowered by `lower_char`.
pub open spec fn lower_seq(s: Seq<char>) -> Seq<char> {
    s.map_values(|c: char| lower_char(c))
}

/// Whether `needle` occurs in `hay` as a block of consecutive characters.
pub open spec fn occurs_in(needle: Seq<char>, hay: Seq<char>) -> bool {
    exists|i: int| 0 <= i && i + needle.len() <= hay.len() && #[trigger] hay.subrange(i, i + needle.len()) == needle
}

/// Rank of a component card: names that mention the CPU come first, then the
/// GPU, memory, disks, network, then every other component.
pub open spec fn component_priority_of(name: Seq<char>) -> nat {
    let lower = lower_seq(name);
    if occurs_in("cpu"@, lower) {
        0
    } else if occurs_in("gpu"@, lower) {
        1
    } else if occurs_in("ram"@, lower) {
        2
    } else if occurs_in("disk"@, lower) {
        3
    } else if occurs_in("network"@, lower) {
        4
    } else {
        5
    }
}

/// Lexicographic order of names by code point, the order of `String`.
pub open spec fn name_lt(a: Seq<char>, b: Seq<char>) -> bool
    decreases a.len(),
{
    if a.len() == 0 {
        b.len() > 0
    } else if b.len() == 0 {
        false
    } else if a[0] != b[0] {
        a[0] < b[0]
    } else {
        name_lt(a.drop_first(), b.drop_first())
    }
}

/// Cards are ordered by rank, and by name within a rank.
pub open spec fn card_before(a: Seq<char>, b: Seq<char>) -> bool {
    component_priority_of(a) < component_priority_of(b)
        || (component_priority_of(a) == component_priority_of(b) && name_lt(a, b))
}

/// The component tables: every table but the total and the process ones.
pub open spec fn is_component_table(name: Seq<char>, tables: SensorTableNames) -> bool {
    name != tables.total@ && name != tables.process@
}

/// `s` lists its names in strictly increasing card order.
pub open spec fn card_sorted(s: Seq<Seq<char>>) -> bool {
    forall|i: int, j: int| 0 <= i < j < s.len() ==> card_before(#[trigger] s[i], #[trigger] s[j])
}

/// The names of a list of strings.
pub open spec fn names_of(v: Seq<String>) -> Seq<Seq<char>> {
    v.map_values(|s: String| s@)
}

proof fn lemma_name_lt_irreflexive(a: Seq<char>)
    ensures
        !name_lt(a, a),
    decreases a.len(),
{
    if a.len() > 0 {
        lemma_name_lt_irreflexive(a.drop_first());
    }
}

proof fn lemma_name_lt_transitive(a: Seq<char>, b: Seq<char>, c: Seq<char>)
    requires
        name_lt(a, b),
        name_lt(b, c),
    ensures
        name_lt(a, c),
    decreases a.len(),
{
    if a.len() > 0 && b.len() > 0 && c.len() > 0 && a[0] == b[0] && b[0] == c[0] {
        lemma_name_lt_transitive(a.drop_first(), b.drop_first(), c.drop_first());
    }
}

proof fn lemma_name_lt_total(a: Seq<char>, b: Seq<char>)
    ensures
        name_lt(a, b) || name_lt(b, a) || a == b,
    decreases a.len(),
{
    if a.len() > 0 && b.len() > 0 && a[0] == b[0] {
        lemma_name_lt_total(a.drop_first(), b.drop_first());
        if a.drop_first() == b.drop_first() {
            assert(a =~= seq![a[0]] + a.drop_first());
            assert(b =~= seq![b[0]] + b.drop_first());
        }
    } else if a.len() == 0 && b.len() == 0 {
        assert(a =~= b);
    }
}

/// Card order is a strict total order on names.
pub proof fn lemma_card_order(a: Seq<char>, b: Seq<char>, c: Seq<char>)
    ensures
        !card_before(a, a),
        card_before(a, b) && card_before(b, c) ==> card_before(a, c),
        card_before(a, b) || card_before(b, a) || a == b,
        card_before(a, b) ==> !card_before(b, a),
{
    lemma_name_lt_irreflexive(a);
    if name_lt(a, b) && name_lt(b, c) {
        lemma_name_lt_transitive(a, b, c);
    }
    lemma_name_lt_total(a, b);
    if name_lt(a, b) && name_lt(b, a) {
        lemma_name_lt_transitive(a, b, a);
    }
}

/// The name with ASCII capitals and the Kelvin sign lowered.
fn lower_chars(s: &str) -> (v: Vec<char>)
    ensures
        v@ == lower_seq(s@),
{
    let n = s.unicode_len();
    let mut v: Vec<char> = Vec::new();
    let mut i: usize = 0;
    while i < n
        invariant
            n == s@.len(),
            i <= n,
            v@ == lower_seq(s@.take(i as int)),
        decreases n - i,
    {
        let c = s.get_char(i);
        let l = if 'A' <= c && c <= 'Z' {
            assert(c as u32 + 32 <= 'z' as u32);
            ((c as u32 + 32) as u8) as char
        } else if c == '\u{212A}' {
            'k'
        } else {
            c
        };
        v.push(l);
        assert(lower_seq(s@.take(i + 1)) =~= lower_seq(s@.take(i as int)).push(lower_char(c)));
        i = i + 1;
    }
    assert(s@.take(n as int) =~= s@);
    v
}

/// Whether `needle` occurs in `hay`.
fn occurs(needle: &str, hay: &Vec<char>) -> (b: bool)
    ensures
        b == occurs_in(needle@, hay@),
{
    let m = needle.unicode_len();
    let n = hay.len();
    if m > n {
        assert forall|i: int| 0 <= i && i + needle@.len() <= hay@.len()
            implies #[trigger] hay@.subrange(i, i + needle@.len()) != needle@ by {}
        return false;
    }
    let mut i: usize = 0;
    while i <= n - m
        invariant
            m == needle@.len(),
            n == hay@.len(),
            m <= n,
            i <= n - m + 1,
            forall|k: int| 0 <= k < i ==> #[trigger] hay@.subrange(k, k + m) != needle@,
        decreases n - m + 1 - i,
    {
        let mut j: usize = 0;
        let mut same = true;
        while j < m
            invariant
                m == needle@.len(),
                n == hay@.len(),
                i + m <= n,
                j <= m,
                same == (forall|k: int| 0 <= k < j ==> hay@[i + k] == needle@[k]),
            decreases m - j,
        {
            if hay[i + j] != needle.get_char(j) {
                same = false;
            }
            j = j + 1;
        }
        if same {
            assert(hay@.subrange(i as int, i + m) =~= needle@);
            return true;
        }
        assert(hay@.subrange(i as int, i + m)[0] == hay@[i as int]);
        assert(hay@.subrange(i as int, i + m) != needle@) by {
            let k = choose|k: int| 0 <= k < m && hay@[i + k] != needle@[k];
            assert(hay@.subrange(i as int, i + m)[k] == hay@[i + k]);
        }
        i = i + 1;
    }
    false
}

/// Returns the rank of a component card.
pub fn component_priority(name: &str) -> (p: usize)
    ensures
        p == component_priority_of(name@),
{
    let lower = lower_chars(name);
    if occurs("cpu", &lower) {
        0
    } else if occurs("gpu", &lower) {
        1
    } else if occurs("ram", &lower) {
        2
    } else if occurs("disk", &lower) {
        3
    } else if occurs("network", &lower) {
        4
    } else {
        5
    }
}

/// Whether `a` comes before `b` by code point.
fn str_lt(a: &str, b: &str) -> (r: bool)
    ensures
        r == name_lt(a@, b@),
{
    let n = a.unicode_len();
    let m = b.unicode_len();
    let mut i: usize = 0;
    assert(a@.skip(0) =~= a@);
    assert(b@.skip(0) =~= b@);
    while i < n && i < m
        invariant
            n == a@.len(),
            m == b@.len(),
            i <= n,
            i <= m,
            name_lt(a@, b@) == name_lt(a@.skip(i as int), b@.skip(i as int)),
        decreases n - i,
    {
        let x = a.get_char(i);
        let y = b.get_char(i);
        assert(a@.skip(i as int)[0] == x);
        assert(b@.skip(i as int)[0] == y);
        if x != y {
            return x < y;
        }
        assert(a@.skip(i as int).drop_first() =~= a@.skip(i + 1));
        assert(b@.skip(i as int).drop_first() =~= b@.skip(i + 1));
        i = i + 1;
    }
    assert(a@.skip(i as int).len() == n - i);
    i == n && i < m
}

/// Whether card `a` comes before card `b`.
fn card_lt(a: &str, b: &str) -> (r: bool)
    ensures
        r == card_before(a@, b@),
{
    let pa = component_priority(a);
    let pb = component_priority(b);
    pa < pb || (pa == pb && str_lt(a, b))
}

proof fn lemma_insert_contains(s: Seq<Seq<char>>, pos: int, e: Seq<char>, x: Seq<char>)
    requires
        0 <= pos <= s.len(),
    ensures
        s.insert(pos, e).contains(x) <==> (s.contains(x) || x == e),
{
    let t = s.insert(pos, e);
    if t.contains(x) && x != e {
        let k = choose|k: int| 0 <= k < t.len() && t[k] == x;
        if k < pos {
            assert(s[k] == x);
        } else {
            assert(s[k - 1] == x);
        }
    }
    if s.contains(x) {
        let k = choose|k: int| 0 <= k < s.len() && s[k] == x;
        if k < pos {
            assert(t[k] == x);
        } else {
            assert(t[k + 1] == x);
        }
    }
    if x == e {
        assert(t[pos] == x);
    }
}

proof fn lemma_push_contains(s: Seq<Seq<char>>, e: Seq<char>, x: Seq<char>)
    ensures
        s.push(e).contains(x) <==> (s.contains(x) || x == e),
{
    let t = s.push(e);
    if t.contains(x) && x != e {
        let k = choose|k: int| 0 <= k < t.len() && t[k] == x;
        assert(s[k] == x);
    }
    if s.contains(x) {
        let k = choose|k: int| 0 <= k < s.len() && s[k] == x;
        assert(t[k] == x);
    }
    if x == e {
        assert(t[s.len() as int] == x);
    }
}

/// Inserting a name at a position after every earlier card and before every
/// later one keeps a list in card order.
proof fn lemma_insert_sorted(s: Seq<Seq<char>>, pos: int, e: Seq<char>)
    requires
        card_sorted(s),
        0 <= pos <= s.len(),
        forall|k: int| 0 <= k < pos ==> card_before(#[trigger] s[k], e),
        pos < s.len() ==> card_before(e, s[pos]),
    ensures
        card_sorted(s.insert(pos, e)),
{
    let t = s.insert(pos, e);
    assert forall|a: int, b: int| 0 <= a < b < t.len() implies card_before(#[trigger] t[a], #[trigger] t[b]) by {
        if b < pos {
            assert(card_before(s[a], s[b]));
        } else if a < pos && b == pos {
            assert(card_before(s[a], e));
        } else if a < pos {
            assert(card_before(s[a], s[b - 1]));
        } else if a == pos {
            if b - 1 != pos {
                assert(card_before(s[pos], s[b - 1]));
                lemma_card_order(e, s[pos], s[b - 1]);
            }
        } else {
            assert(card_before(s[a - 1], s[b - 1]));
        }
    }
}

/// The tables whose cards the dashboard shows under the power chart, in card
/// order. Table names are distinct, as the keys of the sensor map are.
pub fn ordered_component_tables(table_names: &Vec<String>, tables: &SensorTableNames) -> (v: Vec<String>)
    requires
        forall|i: int, j: int| 0 <= i < j < table_names@.len() ==> table_names@[i]@ != table_names@[j]@,
    ensures
        card_sorted(names_of(v@)),
        forall|x: Seq<char>| #[trigger] names_of(v@).contains(x)
            <==> (names_of(table_names@).contains(x) && is_component_table(x, *tables)),
{
    let mut v: Vec<String> = Vec::new();
    let n = table_names.len();
    let mut i: usize = 0;
    assert(names_of(v@) =~= Seq::<Seq<char>>::empty());
    assert(names_of(table_names@.take(0)) =~= Seq::<Seq<char>>::empty());
    while i < n
        invariant
            n == table_names@.len(),
            i <= n,
            forall|a: int, b: int| 0 <= a < b < table_names@.len() ==> table_names@[a]@ != table_names@[b]@,
            card_sorted(names_of(v@)),
            forall|x: Seq<char>| #[trigger] names_of(v@).contains(x)
                <==> (names_of(table_names@.take(i as int)).contains(x) && is_component_table(x, *tables)),
        decreases n - i,
    {
        let name = &table_names[i];
        let ghost before = names_of(v@);
        let ghost prev = names_of(table_names@.take(i as int));
        let ghost next = names_of(table_names@.take(i + 1));
        proof {
            assert(next =~= prev.push(name@));
            assert forall|x: Seq<char>| #[trigger] next.contains(x) <==> (prev.contains(x) || x == name@) by {
                lemma_push_contains(prev, name@, x);
            }
        }
        if !str_eq(name.as_str(), tables.total.as_str()) && !str_eq(name.as_str(), tables.process.as_str()) {
            proof {
                if prev.contains(name@) {
                    let k = choose|k: int| 0 <= k < prev.len() && prev[k] == name@;
                    assert(table_names@[k]@ == prev[k]);
                    assert(false);
                }
                assert(!before.contains(name@));
            }
            // First position whose card comes after the new one.
            let len = v.len();
            let mut pos: usize = 0;
            while pos < len && !card_lt(name.as_str(), v[pos].as_str())
                invariant
                    len == v@.len(),
                    pos <= len,
                    before == names_of(v@),
                    forall|k: int| 0 <= k < pos ==> card_before(#[trigger] before[k], name@),
                    !before.contains(name@),
                decreases len - pos,
            {
                proof {
                    assert(before[pos as int] == v@[pos as int]@);
                    lemma_card_order(name@, before[pos as int], name@);
                    if before[pos as int] == name@ {
                        assert(before.contains(name@));
                    }
                }
                pos = pos + 1;
            }
            proof {
                if pos < len {
                    assert(before[pos as int] == v@[pos as int]@);
                }
                lemma_insert_sorted(before, pos as int, name@);
            }
            v.insert(pos, name.clone());
            proof {
                let after = names_of(v@);
                assert(after =~= before.insert(pos as int, name@));
                assert forall|x: Seq<char>| #[trigger] after.contains(x)
                    <==> (next.contains(x) && is_component_table(x, *tables)) by {
                    lemma_insert_contains(before, pos as int, name@, x);
                }
            }
        } else {
            proof {
                assert forall|x: Seq<char>| #[trigger] names_of(v@).contains(x)
                    <==> (next.contains(x) && is_component_table(x, *tables)) by {
                }
            }
        }
        i = i + 1;
    }
    assert(table_names@.take(n as int) =~= table_names@);
    v
}

} // verus!
