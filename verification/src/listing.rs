use vstd::prelude::*;

use crate::config::ConfigEntry;
use vstd::multiset::Multiset;

verus! {

/// `a` comes strictly before `b` in lexicographic order of code points, the
/// order of `String`'s `Ord` (UTF-8 byte order agrees with code-point order).
pub open spec fn seq_lt(a: Seq<char>, b: Seq<char>) -> bool
    decreases a.len(),
{
    if a.len() == 0 {
        b.len() > 0
    } else if b.len() == 0 {
        false
    } else if a[0] != b[0] {
        a[0] < b[0]
    } else {
        seq_lt(a.drop_first(), b.drop_first())
    }
}

proof fn lemma_seq_lt_transitive(a: Seq<char>, b: Seq<char>, c: Seq<char>)
    requires
        seq_lt(a, b),
        seq_lt(b, c),
    ensures
        seq_lt(a, c),
    decreases a.len(),
{
    if a.len() > 0 && b.len() > 0 && c.len() > 0 && a[0] == b[0] && b[0] == c[0] {
        lemma_seq_lt_transitive(a.drop_first(), b.drop_first(), c.drop_first());
    }
}

proof fn lemma_seq_lt_irreflexive(a: Seq<char>)
    ensures
        !seq_lt(a, a),
    decreases a.len(),
{
    if a.len() > 0 {
        lemma_seq_lt_irreflexive(a.drop_first());
    }
}

/// Whether `a` sorts strictly before `b`.
pub fn str_lt(a: &str, b: &str) -> (r: bool)
    ensures
        r == seq_lt(a@, b@),
{
    let n = a.unicode_len();
    let m = b.unicode_len();
    let mut i: usize = 0;
    assert(a@.skip(0) =~= a@ && b@.skip(0) =~= b@);
    while i < n && i < m
        invariant
            n == a@.len(),
            m == b@.len(),
            i <= n,
            i <= m,
            seq_lt(a@, b@) == seq_lt(a@.skip(i as int), b@.skip(i as int)),
        decreases n - i,
    {
        let ca = a.get_char(i);
        let cb = b.get_char(i);
        assert(a@.skip(i as int)[0] == ca && b@.skip(i as int)[0] == cb);
        if ca != cb {
            return ca < cb;
        }
        assert(a@.skip(i as int).drop_first() =~= a@.skip(i + 1));
        assert(b@.skip(i as int).drop_first() =~= b@.skip(i + 1));
        i = i + 1;
    }
    i == n && i < m
}

/// The display name of a file in the configuration directory: its stem when
/// its extension is `xml` (the part of the name after its last `.`, where
/// that `.` is not the first character), and nothing otherwise.
pub open spec fn spec_xml_display_name(file_name: Seq<char>) -> Option<Seq<char>> {
    if file_name.len() > 4 && file_name.skip(file_name.len() - 4) == ".xml"@ {
        Some(file_name.take(file_name.len() - 4))
    } else {
        None
    }
}

/// The display name of a configuration file, `None` for other files.
pub fn xml_display_name(file_name: &str) -> (r: Option<String>)
    ensures
        match r {
            Some(name) => spec_xml_display_name(file_name@) == Some(name@),
            None => spec_xml_display_name(file_name@) is None,
        },
{
    let n = file_name.unicode_len();
    if n <= 4 {
        return None;
    }
    let ext = file_name.substring_char(n - 4, n);
    if crate::text::str_eq(ext, ".xml") {
        Some(String::from_str(file_name.substring_char(0, n - 4)))
    } else {
        None
    }
}

/// No entry is followed by one whose display name sorts after it.
pub open spec fn sorted_newest_first(entries: Seq<ConfigEntry>) -> bool {
    forall|i: int, j: int|
        0 <= i < j < entries.len() ==> !seq_lt(
            #[trigger] entries[i].display_name@,
            #[trigger] entries[j].display_name@,
        )
}

/// `perm` shows `r` to be `s` reordered, keeping entries with equal display
/// names in their order in `s`: position `k` of `r` holds entry `perm[k]` of
/// `s`, no entry of `s` is used twice, and equal names keep their order.
pub open spec fn stable_reordering(r: Seq<ConfigEntry>, s: Seq<ConfigEntry>, perm: Seq<int>) -> bool {
    &&& perm.len() == r.len()
    &&& r.len() == s.len()
    &&& forall|k: int| 0 <= k < r.len() ==> 0 <= #[trigger] perm[k] < s.len() && r[k] == s[perm[k]]
    &&& forall|k: int, l: int| 0 <= k < l < r.len() ==> #[trigger] perm[k] != #[trigger] perm[l]
    &&& forall|k: int, l: int|
        0 <= k < l < r.len() && r[k].display_name@ == r[l].display_name@ ==> #[trigger] perm[k]
            < #[trigger] perm[l]
}

proof fn lemma_seq_lt_total(a: Seq<char>, b: Seq<char>)
    requires
        !seq_lt(a, b),
        a != b,
    ensures
        seq_lt(b, a),
    decreases a.len(),
{
    if a.len() == 0 {
        assert(b.len() == 0);
        assert(a =~= b);
    } else if b.len() == 0 {
    } else if a[0] != b[0] {

    } else {
        if a.drop_first() =~= b.drop_first() {
            assert(a =~= seq![a[0]] + a.drop_first());
            assert(b =~= seq![b[0]] + b.drop_first());
        }
        lemma_seq_lt_total(a.drop_first(), b.drop_first());
    }
}

/// Orders configuration entries by display name, greatest first (the names
/// end in the save time, so the newest save of a title comes first); entries
/// with equal names keep their order.
pub fn sort_config_entries(entries: Vec<ConfigEntry>) -> (r: Vec<ConfigEntry>)
    ensures
        r@.to_multiset() == entries@.to_multiset(),
        sorted_newest_first(r@),
        exists|perm: Seq<int>| stable_reordering(r@, entries@, perm),
{
    broadcast use vstd::seq_lib::group_to_multiset_ensures;

    let ghost input = entries@;
    let mut rest = entries;
    let mut sorted: Vec<ConfigEntry> = Vec::new();
    let ghost mut perm: Seq<int> = Seq::empty();
    let ghost mut taken: int = 0;
    assert(input.skip(0) =~= input);
    while rest.len() > 0
        invariant
            sorted@.to_multiset().add(rest@.to_multiset()) == input.to_multiset(),
            sorted_newest_first(sorted@),
            0 <= taken <= input.len(),
            rest@ == input.skip(taken),
            perm.len() == sorted@.len(),
            sorted@.len() == taken,
            forall|k: int|
                0 <= k < sorted@.len() ==> 0 <= #[trigger] perm[k] < taken && sorted@[k]
                    == input[perm[k]],
            forall|k: int, l: int| 0 <= k < l < sorted@.len() ==> #[trigger] perm[k] != #[trigger] perm[l],
            forall|k: int, l: int|
                0 <= k < l < sorted@.len() && sorted@[k].display_name@ == sorted@[l].display_name@
                    ==> #[trigger] perm[k] < #[trigger] perm[l],
        decreases rest@.len(),
    {
        let ghost rest_before = rest@;
        let e = rest.remove(0);
        assert(rest_before.remove(0) == rest@);
        proof {
            rest_before.to_multiset_ensures();
            assert(e == input[taken]);
            assert(rest@ =~= input.skip(taken + 1));
        }
        assert(rest_before.remove(0).to_multiset() == rest_before.to_multiset().remove(
            rest_before[0],
        ));
        let mut p: usize = 0;
        while p < sorted.len() && !str_lt(sorted[p].display_name.as_str(), e.display_name.as_str())
            invariant
                p <= sorted@.len(),
                forall|k: int| 0 <= k < p ==> !seq_lt(
                    #[trigger] sorted@[k].display_name@,
                    e.display_name@,
                ),
            decreases sorted@.len() - p,
        {
            p = p + 1;
        }
        let ghost before = sorted@;
        let ghost perm_before = perm;
        sorted.insert(p, e);
        proof {
            perm = perm_before.insert(p as int, taken);
            assert(sorted@.remove(p as int) =~= before);
            assert(sorted@[p as int] == e);
            assert(sorted@.to_multiset() =~= before.to_multiset().insert(e)) by {
                sorted@.to_multiset_ensures();
                assert(sorted@.remove(p as int).to_multiset() == sorted@.to_multiset().remove(
                    sorted@[p as int],
                ));
                assert(sorted@.to_multiset().count(e) > 0);
            }
            assert(rest_before.to_multiset().count(e) > 0) by {
                assert(rest_before[0] == e);
                assert(rest_before.contains(e));
            }
            assert forall|i: int, j: int| 0 <= i < j < sorted@.len() implies !seq_lt(
                #[trigger] sorted@[i].display_name@,
                #[trigger] sorted@[j].display_name@,
            ) by {
                let ni = sorted@[i].display_name@;
                let nj = sorted@[j].display_name@;
                if j < p {
                    assert(sorted@[i] == before[i] && sorted@[j] == before[j]);
                } else if j == p {
                    assert(sorted@[i] == before[i]);
                } else if i < p {
                    assert(sorted@[i] == before[i] && sorted@[j] == before[j - 1]);
                } else if i == p {
                    assert(sorted@[j] == before[j - 1]);
                    assert(p < before.len());
                    assert(seq_lt(before[p as int].display_name@, e.display_name@));
                    if seq_lt(ni, nj) {
                        if p < j - 1 {
                            assert(!seq_lt(before[p as int].display_name@, before[j - 1].display_name@));
                        }
                        if p == j - 1 {
                            lemma_seq_lt_transitive(before[p as int].display_name@, ni, nj);
                            lemma_seq_lt_irreflexive(nj);
                        } else {
                            lemma_seq_lt_transitive(before[p as int].display_name@, ni, nj);
                        }
                    }
                } else {
                    assert(sorted@[i] == before[i - 1] && sorted@[j] == before[j - 1]);
                }
            }
            // Entries after the insertion point have names strictly before e's.
            assert forall|l: int| p < l < sorted@.len() implies seq_lt(
                #[trigger] sorted@[l].display_name@,
                e.display_name@,
            ) by {
                let bp = before[p as int].display_name@;
                let bl = sorted@[l].display_name@;
                assert(sorted@[l] == before[l - 1]);
                assert(seq_lt(bp, e.display_name@));
                if l - 1 > p {
                    assert(!seq_lt(bp, bl));
                    if bp == bl {
                    } else {
                        lemma_seq_lt_total(bp, bl);
                        lemma_seq_lt_transitive(bl, bp, e.display_name@);
                    }
                }
            }
            assert forall|k: int|
                0 <= k < sorted@.len() implies 0 <= #[trigger] perm[k] < taken + 1 && sorted@[k]
                == input[perm[k]] by {
                if k < p {
                    assert(perm[k] == perm_before[k] && sorted@[k] == before[k]);
                } else if k > p {
                    assert(perm[k] == perm_before[k - 1] && sorted@[k] == before[k - 1]);
                }
            }
            assert forall|k: int, l: int| 0 <= k < l < sorted@.len() implies #[trigger] perm[k]
                != #[trigger] perm[l] by {
                if k < p && l < p {
                    assert(perm[k] == perm_before[k] && perm[l] == perm_before[l]);
                } else if k < p && l > p {
                    assert(perm[k] == perm_before[k] && perm[l] == perm_before[l - 1]);
                } else if k > p && l > p {
                    assert(perm[k] == perm_before[k - 1] && perm[l] == perm_before[l - 1]);
                } else if k == p {
                    assert(perm[l] == perm_before[l - 1]);
                } else {
                    assert(perm[k] == perm_before[k]);
                }
            }
            assert forall|k: int, l: int|
                0 <= k < l < sorted@.len() && sorted@[k].display_name@ == sorted@[l].display_name@
                    implies #[trigger] perm[k] < #[trigger] perm[l] by {
                if k < p && l < p {
                    assert(perm[k] == perm_before[k] && perm[l] == perm_before[l]);
                    assert(sorted@[k] == before[k] && sorted@[l] == before[l]);
                } else if k < p && l > p {
                    assert(perm[k] == perm_before[k] && perm[l] == perm_before[l - 1]);
                    assert(sorted@[k] == before[k] && sorted@[l] == before[l - 1]);
                } else if k > p && l > p {
                    assert(perm[k] == perm_before[k - 1] && perm[l] == perm_before[l - 1]);
                    assert(sorted@[k] == before[k - 1] && sorted@[l] == before[l - 1]);
                } else if k == p {
                    lemma_seq_lt_irreflexive(e.display_name@);
                } else {
                    assert(perm[k] == perm_before[k]);
                }
            }
            taken = taken + 1;
        }
    }
    proof {
        rest@.to_multiset_ensures();
        assert(stable_reordering(sorted@, input, perm));
    }
    assert(rest@.to_multiset() =~= Multiset::<ConfigEntry>::empty());
    sorted
}

} // verus!
