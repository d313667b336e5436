use vstd::prelude::*;

verus! {

/// Byte-wise lexicographic order from position `i` on: the first
/// position where the two names differ decides, and a name that ends
/// first comes first.
pub open spec fn bytes_le_from(a: Seq<u8>, b: Seq<u8>, i: nat) -> bool
    decreases a.len() - i,
{
    if i >= a.len() {
        true
    } else if i >= b.len() {
        false
    } else if a[i as int] < b[i as int] {
        true
    } else if a[i as int] > b[i as int] {
        false
    } else {
        bytes_le_from(a, b, i + 1)
    }
}

/// `a` comes no later than `b` in the order of entry names: the native
/// ordering of single-component paths, which compares their bytes.
pub open spec fn bytes_le(a: Seq<u8>, b: Seq<u8>) -> bool {
    bytes_le_from(a, b, 0)
}

/// `order` lists each index of `names` exactly once.
pub open spec fn is_permutation_of_indices(order: Seq<usize>, n: nat) -> bool {
    &&& order.len() == n
    &&& forall|i: int| 0 <= i < order.len() ==> #[trigger] order[i] < n
    &&& forall|i: int, j: int| 0 <= i < j < order.len() ==> order[i] != order[j]
}

/// Reading `names` in the sequence `order` gives a sorted listing.
pub open spec fn lists_sorted(names: Seq<Vec<u8>>, order: Seq<usize>) -> bool {
    forall|i: int, j: int|
        0 <= i < j < order.len() ==> bytes_le(
            (#[trigger] names[order[i] as int])@,
            (#[trigger] names[order[j] as int])@,
        )
}

/// The names of `names`, read in the sequence `order`.
pub open spec fn listed_names(names: Seq<Vec<u8>>, order: Seq<usize>) -> Seq<Seq<u8>> {
    order.map_values(|i: usize| names[i as int]@)
}

/// The names of `names`, in their own sequence.
pub open spec fn name_views(names: Seq<Vec<u8>>) -> Seq<Seq<u8>> {
    names.map_values(|name: Vec<u8>| name@)
}

/// Each name comes no later than every name after it.
pub open spec fn names_in_order(s: Seq<Seq<u8>>) -> bool {
    forall|i: int, j: int| 0 <= i < j < s.len() ==> bytes_le(#[trigger] s[i], #[trigger] s[j])
}

pub proof fn lemma_bytes_le_from_total(a: Seq<u8>, b: Seq<u8>, i: nat)
    ensures
        bytes_le_from(a, b, i) || bytes_le_from(b, a, i),
    decreases a.len() - i,
{
    if i < a.len() && i < b.len() && a[i as int] == b[i as int] {
        lemma_bytes_le_from_total(a, b, i + 1);
    }
}

pub proof fn lemma_bytes_le_from_transitive(a: Seq<u8>, b: Seq<u8>, c: Seq<u8>, i: nat)
    requires
        bytes_le_from(a, b, i),
        bytes_le_from(b, c, i),
    ensures
        bytes_le_from(a, c, i),
    decreases a.len() - i,
{
    if i < a.len() && a[i as int] == b[i as int] && b[i as int] == c[i as int] {
        lemma_bytes_le_from_transitive(a, b, c, i + 1);
    }
}

pub proof fn lemma_bytes_le_from_antisymmetric(a: Seq<u8>, b: Seq<u8>, i: nat)
    requires
        i <= a.len(),
        i <= b.len(),
        bytes_le_from(a, b, i),
        bytes_le_from(b, a, i),
    ensures
        a.subrange(i as int, a.len() as int) == b.subrange(i as int, b.len() as int),
    decreases a.len() - i,
{
    if i < a.len() {
        lemma_bytes_le_from_antisymmetric(a, b, i + 1);
        assert(a.subrange(i as int, a.len() as int) =~= seq![a[i as int]] + a.subrange(
            (i + 1) as int,
            a.len() as int,
        ));
        assert(b.subrange(i as int, b.len() as int) =~= seq![b[i as int]] + b.subrange(
            (i + 1) as int,
            b.len() as int,
        ));
    } else {
        assert(a.subrange(i as int, a.len() as int) =~= b.subrange(i as int, b.len() as int));
    }
}

/// The order of names is total: of two names, one comes no later.
pub proof fn lemma_bytes_le_total(a: Seq<u8>, b: Seq<u8>)
    ensures
        bytes_le(a, b) || bytes_le(b, a),
{
    lemma_bytes_le_from_total(a, b, 0);
}

/// The order of names is transitive.
pub proof fn lemma_bytes_le_transitive(a: Seq<u8>, b: Seq<u8>, c: Seq<u8>)
    requires
        bytes_le(a, b),
        bytes_le(b, c),
    ensures
        bytes_le(a, c),
{
    lemma_bytes_le_from_transitive(a, b, c, 0);
}

/// The order of names is antisymmetric: two names that each come no later
/// than the other are the same name.
pub proof fn lemma_bytes_le_antisymmetric(a: Seq<u8>, b: Seq<u8>)
    requires
        bytes_le(a, b),
        bytes_le(b, a),
    ensures
        a == b,
{
    lemma_bytes_le_from_antisymmetric(a, b, 0);
    assert(a.subrange(0, a.len() as int) =~= a);
    assert(b.subrange(0, b.len() as int) =~= b);
}

proof fn lemma_bytes_le_from_first_difference(a: Seq<u8>, b: Seq<u8>, i: nat, k: nat)
    requires
        i <= k,
        k < a.len(),
        k < b.len(),
        forall|j: int| i <= j < k ==> a[j] == b[j],
        a[k as int] != b[k as int],
    ensures
        bytes_le_from(a, b, i) == (a[k as int] < b[k as int]),
    decreases k - i,
{
    if i < k {
        lemma_bytes_le_from_first_difference(a, b, i + 1, k);
    }
}

proof fn lemma_bytes_le_from_prefix(a: Seq<u8>, b: Seq<u8>, i: nat)
    requires
        i <= a.len() <= b.len(),
        forall|j: int| i <= j < a.len() ==> a[j] == b[j],
    ensures
        bytes_le_from(a, b, i),
        a.len() < b.len() ==> !bytes_le_from(b, a, i),
    decreases a.len() - i,
{
    if i < a.len() {
        lemma_bytes_le_from_prefix(a, b, i + 1);
    }
}

/// Names are ordered byte by byte: where two names first differ, at a
/// position that both reach, the name with the smaller byte there comes
/// first.
pub proof fn lemma_bytes_le_first_difference(a: Seq<u8>, b: Seq<u8>, k: int)
    requires
        0 <= k < a.len(),
        k < b.len(),
        a.subrange(0, k) == b.subrange(0, k),
        a[k] != b[k],
    ensures
        bytes_le(a, b) <==> a[k] < b[k],
        bytes_le(b, a) <==> b[k] < a[k],
{
    assert forall|j: int| 0 <= j < k implies a[j] == b[j] by {
        assert(a.subrange(0, k)[j] == a[j]);
        assert(b.subrange(0, k)[j] == b[j]);
        assert(a.subrange(0, k)[j] == b.subrange(0, k)[j]);
    }
    lemma_bytes_le_from_first_difference(a, b, 0, k as nat);
    lemma_bytes_le_from_first_difference(b, a, 0, k as nat);
}

/// A name comes no later than every name that it begins, and strictly
/// before every longer one.
pub proof fn lemma_bytes_le_prefix(a: Seq<u8>, b: Seq<u8>)
    requires
        a.len() <= b.len(),
        b.subrange(0, a.len() as int) == a,
    ensures
        bytes_le(a, b),
        a.len() < b.len() ==> !bytes_le(b, a),
{
    assert forall|j: int| 0 <= j < a.len() implies a[j] == b[j] by {
        assert(b.subrange(0, a.len() as int)[j] == b[j]);
    }
    lemma_bytes_le_from_prefix(a, b, 0);
}

/// In particular, the first byte decides where it differs.
pub proof fn lemma_bytes_le_first_byte(a: Seq<u8>, b: Seq<u8>)
    requires
        a.len() > 0,
        b.len() > 0,
        a[0] < b[0],
    ensures
        bytes_le(a, b),
        !bytes_le(b, a),
{
    assert(a.subrange(0, 0) =~= b.subrange(0, 0));
    lemma_bytes_le_first_difference(a, b, 0);
}

/// Whether name `a` comes no later than name `b`.
pub fn name_le(a: &Vec<u8>, b: &Vec<u8>) -> (r: bool)
    ensures
        r == bytes_le(a@, b@),
{
    let mut i: usize = 0;
    while i < a.len() && i < b.len() && a[i] == b[i]
        invariant
            i <= a.len(),
            i <= b.len(),
            bytes_le(a@, b@) == bytes_le_from(a@, b@, i as nat),
        decreases a.len() - i,
    {
        i = i + 1;
    }
    if i >= a.len() {
        true
    } else if i >= b.len() {
        false
    } else {
        a[i] < b[i]
    }
}

/// The order in which `list_dir` reports the entries of a directory: a
/// sequence of positions into `names` that visits each entry exactly once,
/// in byte-wise lexicographic order of the names.
pub fn list_order(names: &Vec<Vec<u8>>) -> (order: Vec<usize>)
    ensures
        is_permutation_of_indices(order@, names@.len()),
        lists_sorted(names@, order@),
        listed_names(names@, order@).to_multiset() == name_views(names@).to_multiset(),
{
    let ghost nv = names@;
    let mut order: Vec<usize> = Vec::new();
    let mut k: usize = 0;
    assert(listed_names(nv, order@) =~= name_views(nv).take(0));
    while k < names.len()
        invariant
            k <= names.len(),
            nv == names@,
            order@.len() == k,
            forall|i: int| 0 <= i < order@.len() ==> #[trigger] order@[i] < k,
            forall|i: int, j: int| 0 <= i < j < order@.len() ==> order@[i] != order@[j],
            lists_sorted(nv, order@),
            listed_names(nv, order@).to_multiset() == name_views(nv).take(k as int).to_multiset(),
        decreases names.len() - k,
    {
        let mut p: usize = 0;
        while p < order.len() && name_le(&names[order[p]], &names[k])
            invariant
                p <= order@.len(),
                k < names.len(),
                nv == names@,
                forall|i: int| 0 <= i < order@.len() ==> #[trigger] order@[i] < k,
                forall|i: int| 0 <= i < p ==> bytes_le(#[trigger] nv[order@[i] as int]@, nv[k as int]@),
            decreases order@.len() - p,
        {
            p = p + 1;
        }
        proof {
            if p < order@.len() {
                assert(!bytes_le(nv[order@[p as int] as int]@, nv[k as int]@));
                lemma_bytes_le_total(nv[order@[p as int] as int]@, nv[k as int]@);
                assert forall|j: int| p <= j < order@.len() implies bytes_le(
                    nv[k as int]@,
                    (#[trigger] nv[order@[j] as int])@,
                ) by {
                    if j > p {
                        lemma_bytes_le_transitive(
                            nv[k as int]@,
                            nv[order@[p as int] as int]@,
                            nv[order@[j] as int]@,
                        );
                    }
                }
            }
        }
        let ghost old_order = order@;
        order.insert(p, k);
        proof {
            assert forall|i: int, j: int| 0 <= i < j < order@.len() implies bytes_le(
                (#[trigger] nv[order@[i] as int])@,
                (#[trigger] nv[order@[j] as int])@,
            ) by {
                if j < p {
                    assert(old_order[i] == order@[i]);
                    assert(old_order[j] == order@[j]);
                } else if i < p && j == p {
                } else if i < p && j > p {
                    assert(old_order[i] == order@[i]);
                    assert(old_order[j - 1] == order@[j]);
                } else if i == p {
                    assert(old_order[j - 1] == order@[j]);
                } else {
                    assert(old_order[i - 1] == order@[i]);
                    assert(old_order[j - 1] == order@[j]);
                }
            }
        }
        proof {
            broadcast use vstd::seq_lib::group_to_multiset_ensures;

            assert(listed_names(nv, order@) =~= listed_names(nv, old_order).insert(
                p as int,
                nv[k as int]@,
            ));
            assert(name_views(nv).take(k + 1) =~= name_views(nv).take(k as int).push(
                nv[k as int]@,
            ));
        }
        k = k + 1;
    }
    proof {
        assert(name_views(nv).take(nv.len() as int) =~= name_views(nv));
    }
    order
}

/// Two listings in order that hold the same names, each as often, are the
/// same listing.
pub proof fn lemma_ordered_names_unique(s: Seq<Seq<u8>>, t: Seq<Seq<u8>>)
    requires
        names_in_order(s),
        names_in_order(t),
        s.to_multiset() == t.to_multiset(),
    ensures
        s == t,
    decreases s.len(),
{
    broadcast use vstd::seq_lib::group_to_multiset_ensures;

    assert(s.len() == s.to_multiset().len());
    assert(t.len() == t.to_multiset().len());
    if s.len() == 0 {
        assert(s =~= t);
    } else {
        assert(s.contains(s[0]));
        assert(s.to_multiset().count(s[0]) > 0);
        assert(t.contains(s[0]));
        let k = choose|k: int| 0 <= k < t.len() && t[k] == s[0];
        assert(t.contains(t[0]));
        assert(t.to_multiset().count(t[0]) > 0);
        assert(s.contains(t[0]));
        let m = choose|m: int| 0 <= m < s.len() && s[m] == t[0];
        if k > 0 {
            assert(bytes_le(t[0], t[k]));
        }
        if m > 0 {
            assert(bytes_le(s[0], s[m]));
        }
        if k > 0 && m > 0 {
            lemma_bytes_le_antisymmetric(s[0], t[0]);
        }
        assert(s[0] == t[0]);
        let s1 = s.remove(0);
        let t1 = t.remove(0);
        assert(s1.to_multiset() == s.to_multiset().remove(s[0]));
        assert(t1.to_multiset() == t.to_multiset().remove(t[0]));
        assert forall|i: int, j: int| 0 <= i < j < s1.len() implies bytes_le(
            #[trigger] s1[i],
            #[trigger] s1[j],
        ) by {
            assert(s1[i] == s[i + 1]);
            assert(s1[j] == s[j + 1]);
        }
        assert forall|i: int, j: int| 0 <= i < j < t1.len() implies bytes_le(
            #[trigger] t1[i],
            #[trigger] t1[j],
        ) by {
            assert(t1[i] == t[i + 1]);
            assert(t1[j] == t[j + 1]);
        }
        lemma_ordered_names_unique(s1, t1);
        assert forall|i: int| 0 <= i < s.len() implies s[i] == t[i] by {
            if i > 0 {
                assert(s1[i - 1] == s[i]);
                assert(t1[i - 1] == t[i]);
            }
        }
        assert(s =~= t);
    }
}

/// `list_dir` reports a directory the same way whatever order the
/// directory yields its entries in: two listings that meet the contract of
/// `list_order`, for two sequences that hold the same names each as often,
/// list the same names in the same sequence.
pub proof fn lemma_listing_independent_of_read_order(
    names1: Seq<Vec<u8>>,
    order1: Seq<usize>,
    names2: Seq<Vec<u8>>,
    order2: Seq<usize>,
)
    requires
        is_permutation_of_indices(order1, names1.len()),
        lists_sorted(names1, order1),
        listed_names(names1, order1).to_multiset() == name_views(names1).to_multiset(),
        is_permutation_of_indices(order2, names2.len()),
        lists_sorted(names2, order2),
        listed_names(names2, order2).to_multiset() == name_views(names2).to_multiset(),
        name_views(names1).to_multiset() == name_views(names2).to_multiset(),
    ensures
        listed_names(names1, order1) == listed_names(names2, order2),
{
    let l1 = listed_names(names1, order1);
    let l2 = listed_names(names2, order2);
    assert forall|i: int, j: int| 0 <= i < j < l1.len() implies bytes_le(
        #[trigger] l1[i],
        #[trigger] l1[j],
    ) by {
        assert(bytes_le(names1[order1[i] as int]@, names1[order1[j] as int]@));
    }
    assert forall|i: int, j: int| 0 <= i < j < l2.len() implies bytes_le(
        #[trigger] l2[i],
        #[trigger] l2[j],
    ) by {
        assert(bytes_le(names2[order2[i] as int]@, names2[order2[j] as int]@));
    }
    lemma_ordered_names_unique(l1, l2);
}

} // verus!
