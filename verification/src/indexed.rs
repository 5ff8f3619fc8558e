//! Decoding of a JSON object that stands in for an array: the service lists
//! records as an object whose keys are decimal array indices, with metadata
//! possibly embedded under other keys. Keys that parse as non-negative
//! integers are kept and their values ordered by index; every other key is
//! discarded.

use vstd::multiset::Multiset;
use vstd::prelude::*;

use crate::json::pairs_view;

verus! {

/// Whether `c` is a decimal digit.
pub open spec fn is_digit(c: char) -> bool {
    '0' <= c && c <= '9'
}

/// The value of a decimal digit.
pub open spec fn digit_val(c: char) -> nat
    recommends
        is_digit(c),
{
    ((c as u32) - 48) as nat
}

/// The value of a string of decimal digits, most significant first.
pub open spec fn digits_val(s: Seq<char>) -> nat
    decreases s.len(),
{
    if s.len() == 0 {
        0
    } else {
        digits_val(s.drop_last()) * 10 + digit_val(s.last())
    }
}

/// The digits of an index key, with an optional leading plus sign removed.
pub open spec fn digits_part(s: Seq<char>) -> Seq<char> {
    if s.len() > 0 && s[0] == '+' {
        s.drop_first()
    } else {
        s
    }
}

/// Whether `s` parses as a non-negative integer the way `usize` parses in
/// Rust: an optional leading plus sign, then at least one decimal digit,
/// with a value that fits the machine word.
pub open spec fn is_dec_index(s: Seq<char>) -> bool {
    &&& digits_part(s).len() > 0
    &&& (forall|i: int|
        0 <= i < digits_part(s).len() ==> is_digit(#[trigger] digits_part(s)[i]))
    &&& digits_val(digits_part(s)) <= u64::MAX
}

/// The index value of a key for which `is_dec_index` holds.
pub open spec fn dec_index_val(s: Seq<char>) -> nat {
    digits_val(digits_part(s))
}

/// A longer digit string never has a smaller value.
proof fn lemma_digits_val_mono(s: Seq<char>, i: int)
    requires
        0 <= i <= s.len(),
    ensures
        digits_val(s.take(i)) <= digits_val(s),
    decreases s.len() - i,
{
    if i < s.len() {
        assert(s.take(i + 1).drop_last() =~= s.take(i));
        let v = digits_val(s.take(i));
        assert(v <= v * 10) by (nonlinear_arith);
        lemma_digits_val_mono(s, i + 1);
    } else {
        assert(s.take(i) =~= s);
    }
}

/// Parses `s` as a non-negative integer, exactly as `str::parse::<usize>`
/// accepts one on a 64-bit machine.
pub fn parse_index(s: &str) -> (r: Option<u64>)
    ensures
        r is Some <==> is_dec_index(s@),
        r is Some ==> r->0 as nat == dec_index_val(s@),
{
    let n = s.unicode_len();
    let mut start: usize = 0;
    if n > 0 && s.get_char(0) == '+' {
        start = 1;
    }
    proof {
        if start == 1 {
            assert(digits_part(s@) =~= s@.drop_first());
        } else {
            assert(digits_part(s@) =~= s@);
        }
    }
    let ghost digits = digits_part(s@);
    if n == start {
        return None;
    }
    let mut acc: u64 = 0;
    let mut i: usize = start;
    while i < n
        invariant
            start <= i <= n,
            n == s@.len(),
            digits == digits_part(s@),
            digits.len() == n - start,
            forall|j: int| 0 <= j < digits.len() ==> digits[j] == s@[j + start],
            forall|j: int| 0 <= j < i - start ==> is_digit(#[trigger] digits[j]),
            acc as nat == digits_val(digits.take(i - start)),
        decreases n - i,
    {
        let c = s.get_char(i);
        let cv = c as u32;
        if cv < 48 || cv > 57 {
            proof {
                assert(digits[i - start] == c);
                assert(!is_digit(c));
            }
            return None;
        }
        let d: u64 = ((cv - 48) as u64);
        if acc > (u64::MAX - d) / 10 {
            proof {
                let j = i - start;
                assert(digits.take(j + 1).drop_last() =~= digits.take(j));
                assert(digits_val(digits.take(j + 1)) == acc * 10 + d);
                assert(acc * 10 + d > u64::MAX) by (nonlinear_arith)
                    requires
                        acc > (u64::MAX - d) / 10,
                        d <= 9,
                ;
                lemma_digits_val_mono(digits, j + 1);
            }
            return None;
        }
        proof {
            assert(acc * 10 + d <= u64::MAX) by (nonlinear_arith)
                requires
                    acc <= (u64::MAX - d) / 10,
                    d <= 9,
            ;
            let j = i - start;
            assert(digits.take(j + 1).drop_last() =~= digits.take(j));
        }
        acc = acc * 10 + d;
        i = i + 1;
    }
    proof {
        assert(digits.take(n - start) =~= digits);
    }
    Some(acc)
}

/// The numeric-keyed entries among an object's entries, in object order,
/// each key replaced by its index value.
pub open spec fn numeric_entries(entries: Seq<(Seq<char>, serde_json::Value)>) -> Seq<
    (u64, serde_json::Value),
>
    decreases entries.len(),
{
    if entries.len() == 0 {
        Seq::empty()
    } else {
        numeric_entries(entries.drop_last()) + if is_dec_index(entries.last().0) {
            seq![(dec_index_val(entries.last().0) as u64, entries.last().1)]
        } else {
            Seq::empty()
        }
    }
}

/// `p` inserted into `s` after every entry whose index does not exceed its
/// own, so that insertion keeps the order of equal indices.
pub open spec fn insert_sorted(
    p: (u64, serde_json::Value),
    s: Seq<(u64, serde_json::Value)>,
) -> Seq<(u64, serde_json::Value)>
    decreases s.len(),
{
    if s.len() == 0 {
        seq![p]
    } else if p.0 < s[0].0 {
        seq![p] + s
    } else {
        seq![s[0]] + insert_sorted(p, s.drop_first())
    }
}

/// `s` sorted by index, keeping the original order of equal indices.
pub open spec fn sort_entries(s: Seq<(u64, serde_json::Value)>) -> Seq<
    (u64, serde_json::Value),
>
    decreases s.len(),
{
    if s.len() == 0 {
        Seq::empty()
    } else {
        insert_sorted(s.last(), sort_entries(s.drop_last()))
    }
}

/// Whether the entries are ordered by index, smallest first.
pub open spec fn sorted_by_index(s: Seq<(u64, serde_json::Value)>) -> bool {
    forall|i: int, j: int| 0 <= i < j < s.len() ==> (#[trigger] s[i]).0 <= (#[trigger] s[j]).0
}

/// Inserting into an ordered sequence keeps it ordered and adds exactly
/// the inserted entry.
proof fn lemma_insert_sorted_props(p: (u64, serde_json::Value), s: Seq<(u64, serde_json::Value)>)
    requires
        sorted_by_index(s),
    ensures
        sorted_by_index(insert_sorted(p, s)),
        insert_sorted(p, s).to_multiset() =~= s.to_multiset().insert(p),
    decreases s.len(),
{
    broadcast use vstd::seq_lib::group_to_multiset_ensures;

    if s.len() == 0 {
        assert(seq![p] =~= Seq::<(u64, serde_json::Value)>::empty().push(p));
        assert(Seq::<(u64, serde_json::Value)>::empty().to_multiset() =~= Multiset::empty());
    } else if p.0 < s[0].0 {
        let r = seq![p] + s;
        assert(sorted_by_index(r));
        vstd::seq_lib::lemma_seq_union_to_multiset_commutative(seq![p], s);
        assert(s + seq![p] =~= s.push(p));
    } else {
        let sdf = s.drop_first();
        assert(sorted_by_index(sdf));
        lemma_insert_sorted_props(p, sdf);
        let ins = insert_sorted(p, sdf);
        let r = seq![s[0]] + ins;
        assert(insert_sorted(p, s) == r);
        // Everything in the tail insertion is at least the head's index.
        assert forall|k: int| 0 <= k < ins.len() implies s[0].0 <= (#[trigger] ins[k]).0 by {
            assert(ins.to_multiset().count(ins[k]) > 0);
            if ins[k] == p {
            } else {
                assert(sdf.to_multiset().count(ins[k]) > 0);
                assert(sdf.contains(ins[k]));
                let w = choose|w: int| 0 <= w < sdf.len() && sdf[w] == ins[k];
                assert(s[w + 1] == sdf[w]);
            }
        }
        assert(sorted_by_index(r));
        vstd::seq_lib::lemma_seq_union_to_multiset_commutative(seq![s[0]], ins);
        assert(ins + seq![s[0]] =~= ins.push(s[0]));
        vstd::seq_lib::lemma_seq_union_to_multiset_commutative(seq![s[0]], sdf);
        assert(sdf + seq![s[0]] =~= sdf.push(s[0]));
        assert(s =~= seq![s[0]] + sdf);
        assert(r.to_multiset() =~= s.to_multiset().insert(p));
    }
}

/// The ordering contract of [`sort_entries`]: the result is ordered by
/// index and holds exactly the given entries, no more and no fewer.
pub proof fn lemma_sort_entries_props(s: Seq<(u64, serde_json::Value)>)
    ensures
        sorted_by_index(sort_entries(s)),
        sort_entries(s).to_multiset() =~= s.to_multiset(),
    decreases s.len(),
{
    broadcast use vstd::seq_lib::group_to_multiset_ensures;

    if s.len() == 0 {
        assert(sort_entries(s) == Seq::<(u64, serde_json::Value)>::empty());
    } else {
        let sdl = s.drop_last();
        lemma_sort_entries_props(sdl);
        lemma_insert_sorted_props(s.last(), sort_entries(sdl));
        assert(s =~= sdl.push(s.last()));
    }
}

/// Splitting `insert_sorted` at the insertion point: if `p` belongs at `j`,
/// the result is `s` with `p` inserted there.
proof fn lemma_insert_sorted_at(p: (u64, serde_json::Value), s: Seq<(u64, serde_json::Value)>, j: int)
    requires
        0 <= j <= s.len(),
        forall|k: int| 0 <= k < j ==> (#[trigger] s[k]).0 <= p.0,
        j < s.len() ==> p.0 < s[j].0,
    ensures
        insert_sorted(p, s) == s.take(j) + seq![p] + s.skip(j),
    decreases s.len(),
{
    if s.len() == 0 {
        assert(insert_sorted(p, s) =~= s.take(j) + seq![p] + s.skip(j));
    } else if p.0 < s[0].0 {
        assert(j == 0);
        assert(insert_sorted(p, s) =~= s.take(0) + seq![p] + s.skip(0));
    } else {
        assert(j >= 1);
        lemma_insert_sorted_at(p, s.drop_first(), j - 1);
        assert(s.drop_first().take(j - 1) =~= s.take(j).drop_first());
        assert(s.drop_first().skip(j - 1) =~= s.skip(j));
        assert(insert_sorted(p, s) =~= s.take(j) + seq![p] + s.skip(j));
    }
}

/// What one entry contributes to [`numeric_entries`]: its index and value
/// where its key is numeric, nothing otherwise.
pub open spec fn one_entry(p: (Seq<char>, serde_json::Value)) -> Seq<(u64, serde_json::Value)> {
    if is_dec_index(p.0) {
        seq![(dec_index_val(p.0) as u64, p.1)]
    } else {
        Seq::empty()
    }
}

/// [`numeric_entries`] of a three-entry object, written out.
proof fn lemma_numeric_entries_three(s: Seq<(Seq<char>, serde_json::Value)>)
    requires
        s.len() == 3,
    ensures
        numeric_entries(s) == one_entry(s[0]) + one_entry(s[1]) + one_entry(s[2]),
{
    let s2 = s.drop_last();
    let s1 = s2.drop_last();
    let s0 = s1.drop_last();
    assert(s0.len() == 0);
    assert(numeric_entries(s0) == Seq::<(u64, serde_json::Value)>::empty());
    assert(s1.last() == s[0] && s2.last() == s[1] && s.last() == s[2]);
    assert(numeric_entries(s1) == numeric_entries(s0) + one_entry(s[0]));
    assert(numeric_entries(s2) == numeric_entries(s1) + one_entry(s[1]));
    assert(numeric_entries(s) == numeric_entries(s2) + one_entry(s[2]));
    assert(numeric_entries(s0) + one_entry(s[0]) =~= one_entry(s[0]));
}

/// Sorting a two-entry sequence: the entry with the smaller index comes
/// first; on equal indices the original order stays.
proof fn lemma_sort_two(p: (u64, serde_json::Value), q: (u64, serde_json::Value))
    ensures
        sort_entries(seq![p, q]) == if q.0 < p.0 {
            seq![q, p]
        } else {
            seq![p, q]
        },
{
    let s = seq![p, q];
    assert(s.drop_last() =~= seq![p]);
    assert(seq![p].drop_last() =~= Seq::<(u64, serde_json::Value)>::empty());
    assert(sort_entries(Seq::<(u64, serde_json::Value)>::empty())
        == Seq::<(u64, serde_json::Value)>::empty());
    assert(sort_entries(seq![p]) == insert_sorted(p, Seq::empty()));
    assert(insert_sorted(p, Seq::empty()) == seq![p]);
    assert(sort_entries(s) == insert_sorted(q, seq![p]));
    if q.0 < p.0 {
        assert(insert_sorted(q, seq![p]) =~= seq![q, p]);
    } else {
        assert(seq![p].drop_first() =~= Seq::<(u64, serde_json::Value)>::empty());
        assert(insert_sorted(q, seq![p]) =~= seq![p] + insert_sorted(q, Seq::empty()));
        assert(seq![p] + insert_sorted(q, Seq::empty()) =~= seq![p, q]);
    }
}

/// The key `"0"` is the numeric index zero.
proof fn lemma_key_zero()
    ensures
        is_dec_index("0"@),
        dec_index_val("0"@) == 0,
{
    reveal_strlit("0");
    let s = "0"@;
    assert(s.len() == 1 && s[0] == '0');
    assert(digits_part(s) == s);
    assert(s.drop_last() =~= Seq::<char>::empty());
    assert(digits_val(s) == digits_val(s.drop_last()) * 10 + digit_val(s.last()));
    assert(digits_val(Seq::<char>::empty()) == 0);
}

/// The key `"1"` is the numeric index one.
proof fn lemma_key_one()
    ensures
        is_dec_index("1"@),
        dec_index_val("1"@) == 1,
{
    reveal_strlit("1");
    let s = "1"@;
    assert(s.len() == 1 && s[0] == '1');
    assert(digits_part(s) == s);
    assert(s.drop_last() =~= Seq::<char>::empty());
    assert(digits_val(s) == digits_val(s.drop_last()) * 10 + digit_val(s.last()));
    assert(digits_val(Seq::<char>::empty()) == 0);
}

/// The key `"metadata"` is not a numeric index.
proof fn lemma_key_metadata()
    ensures
        !is_dec_index("metadata"@),
{
    reveal_strlit("metadata");
    let s = "metadata"@;
    assert(s[0] == 'm');
    assert(digits_part(s) == s);
    assert(!is_digit(digits_part(s)[0]));
}

/// A listing body whose object holds exactly the keys `"0"`, `"1"` and
/// `"metadata"` — in any order — decodes exactly the values at `"0"` and
/// `"1"`, in that order, and ignores the metadata entirely.
pub proof fn lemma_metadata_ignored(
    entries: Seq<(Seq<char>, serde_json::Value)>,
    v0: serde_json::Value,
    v1: serde_json::Value,
    vm: serde_json::Value,
)
    requires
        entries.to_multiset() == seq![("0"@, v0), ("1"@, v1), ("metadata"@, vm)].to_multiset(),
    ensures
        sort_entries(numeric_entries(entries)) == seq![(0u64, v0), (1u64, v1)],
{
    broadcast use vstd::seq_lib::group_to_multiset_ensures;

    reveal_strlit("0");
    reveal_strlit("1");
    reveal_strlit("metadata");
    let a = ("0"@, v0);
    let b = ("1"@, v1);
    let c = ("metadata"@, vm);
    let abc = seq![a, b, c];
    lemma_key_zero();
    lemma_key_one();
    lemma_key_metadata();
    assert("0"@.len() == 1 && "1"@.len() == 1 && "metadata"@.len() == 8);
    assert(a != b && a != c && b != c);
    assert(abc =~= Seq::<(Seq<char>, serde_json::Value)>::empty().push(a).push(b).push(c));
    assert(Seq::<(Seq<char>, serde_json::Value)>::empty().to_multiset() =~= Multiset::empty());
    assert(abc.to_multiset() =~= Multiset::empty().insert(a).insert(b).insert(c));
    assert(abc.to_multiset().count(a) == 1 && abc.to_multiset().count(b) == 1
        && abc.to_multiset().count(c) == 1);
    entries.to_multiset_ensures();
    abc.to_multiset_ensures();
    assert(entries.len() == 3);
    assert(entries.contains(entries[0]) && entries.contains(entries[1]) && entries.contains(
        entries[2],
    ));
    assert(entries[0] == a || entries[0] == b || entries[0] == c) by {
        assert(abc.to_multiset().count(entries[0]) > 0);
        assert(abc.contains(entries[0]));
    }
    assert(entries[1] == a || entries[1] == b || entries[1] == c) by {
        assert(abc.to_multiset().count(entries[1]) > 0);
        assert(abc.contains(entries[1]));
    }
    assert(entries[2] == a || entries[2] == b || entries[2] == c) by {
        assert(abc.to_multiset().count(entries[2]) > 0);
        assert(abc.contains(entries[2]));
    }
    assert(entries[0] != entries[1]) by {
        if entries[0] == entries[1] {
            let r = entries.remove(0);
            assert(r.to_multiset() =~= entries.to_multiset().remove(entries[0]));
            assert(r[0] == entries[1]);
            assert(r.contains(r[0]));
            assert(r.to_multiset().count(entries[1]) > 0);
        }
    }
    assert(entries[0] != entries[2]) by {
        if entries[0] == entries[2] {
            let r = entries.remove(0);
            assert(r.to_multiset() =~= entries.to_multiset().remove(entries[0]));
            assert(r[1] == entries[2]);
            assert(r.contains(r[1]));
            assert(r.to_multiset().count(entries[2]) > 0);
        }
    }
    assert(entries[1] != entries[2]) by {
        if entries[1] == entries[2] {
            let r = entries.remove(1);
            assert(r.to_multiset() =~= entries.to_multiset().remove(entries[1]));
            assert(r[1] == entries[2]);
            assert(r.contains(r[1]));
            assert(r.to_multiset().count(entries[2]) > 0);
        }
    }
    lemma_numeric_entries_three(entries);
    let n = numeric_entries(entries);
    assert(one_entry(a) == seq![(0u64, v0)]);
    assert(one_entry(b) == seq![(1u64, v1)]);
    assert(one_entry(c) == Seq::<(u64, serde_json::Value)>::empty());
    if entries[0] == c {
        if entries[1] == a {
            assert(n =~= seq![(0u64, v0), (1u64, v1)]);
            lemma_sort_two((0u64, v0), (1u64, v1));
        } else {
            assert(n =~= seq![(1u64, v1), (0u64, v0)]);
            lemma_sort_two((1u64, v1), (0u64, v0));
        }
    } else if entries[1] == c {
        if entries[0] == a {
            assert(n =~= seq![(0u64, v0), (1u64, v1)]);
            lemma_sort_two((0u64, v0), (1u64, v1));
        } else {
            assert(n =~= seq![(1u64, v1), (0u64, v0)]);
            lemma_sort_two((1u64, v1), (0u64, v0));
        }
    } else {
        assert(entries[2] == c);
        if entries[0] == a {
            assert(n =~= seq![(0u64, v0), (1u64, v1)]);
            lemma_sort_two((0u64, v0), (1u64, v1));
        } else {
            assert(n =~= seq![(1u64, v1), (0u64, v0)]);
            lemma_sort_two((1u64, v1), (0u64, v0));
        }
    }
}

/// Filters an object's entries to those under numeric keys and orders them
/// by index, keeping the object's order between equal indices.
pub fn sorted_numeric_entries(entries: &Vec<(String, serde_json::Value)>) -> (r: Vec<
    (u64, serde_json::Value),
>)
    ensures
        r@ == sort_entries(numeric_entries(pairs_view(entries@))),
{
    let ghost model = pairs_view(entries@);
    let mut filtered: Vec<(u64, serde_json::Value)> = Vec::new();
    let n = entries.len();
    for i in 0..n
        invariant
            n == entries@.len(),
            model == pairs_view(entries@),
            filtered@ == numeric_entries(model.take(i as int)),
    {
        proof {
            assert(model.take(i + 1).drop_last() =~= model.take(i as int));
        }
        match parse_index(entries[i].0.as_str()) {
            Some(k) => {
                filtered.push((k, entries[i].1.clone()));
            },
            None => {},
        }
    }
    proof {
        assert(model.take(n as int) =~= model);
    }
    let mut out: Vec<(u64, serde_json::Value)> = Vec::new();
    let m = filtered.len();
    for i in 0..m
        invariant
            m == filtered@.len(),
            out@ == sort_entries(filtered@.take(i as int)),
    {
        let p = (filtered[i].0, filtered[i].1.clone());
        let mut j: usize = 0;
        while j < out.len() && out[j].0 <= p.0
            invariant
                0 <= j <= out@.len(),
                forall|k: int| 0 <= k < j ==> (#[trigger] out@[k]).0 <= p.0,
            decreases out@.len() - j,
        {
            j = j + 1;
        }
        proof {
            assert(filtered@.take(i + 1).drop_last() =~= filtered@.take(i as int));
            assert(filtered@.take(i + 1).last() == p);
            lemma_insert_sorted_at(p, out@, j as int);
        }
        out.insert(j, p);
        proof {
            assert(out@ =~= sort_entries(filtered@.take(i + 1)));
        }
    }
    proof {
        assert(filtered@.take(m as int) =~= filtered@);
    }
    out
}

} // verus!
