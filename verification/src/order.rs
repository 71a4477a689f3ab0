use vstd::prelude::*;
use vstd::slice::*;
use vstd::string::*;
use vstd::utf8::*;

verus! {

/// Strict lexicographic order on byte strings: at the first position where
/// they differ the smaller byte decides, and a proper prefix comes first.
pub open spec fn bytes_before(a: Seq<u8>, b: Seq<u8>) -> bool
    decreases a.len(),
{
    if b.len() == 0 {
        false
    } else if a.len() == 0 {
        true
    } else if a[0] == b[0] {
        bytes_before(a.drop_first(), b.drop_first())
    } else {
        a[0] < b[0]
    }
}

/// Strict byte-wise order on texts, by their UTF-8 encoding.
pub open spec fn text_before(a: Seq<char>, b: Seq<char>) -> bool {
    bytes_before(encode_utf8(a), encode_utf8(b))
}

/// No byte string comes before itself.
pub proof fn lemma_bytes_irreflexive(a: Seq<u8>)
    ensures
        !bytes_before(a, a),
    decreases a.len(),
{
    if a.len() > 0 {
        lemma_bytes_irreflexive(a.drop_first());
    }
}

/// Of two byte strings at most one comes before the other.
pub proof fn lemma_bytes_asymmetric(a: Seq<u8>, b: Seq<u8>)
    requires
        bytes_before(a, b),
    ensures
        !bytes_before(b, a),
    decreases a.len(),
{
    if a.len() > 0 && b.len() > 0 && a[0] == b[0] {
        lemma_bytes_asymmetric(a.drop_first(), b.drop_first());
    }
}

/// The order on byte strings is transitive.
pub proof fn lemma_bytes_transitive(a: Seq<u8>, b: Seq<u8>, c: Seq<u8>)
    requires
        bytes_before(a, b),
        bytes_before(b, c),
    ensures
        bytes_before(a, c),
    decreases a.len(),
{
    if a.len() > 0 && b.len() > 0 && c.len() > 0 && a[0] == b[0] && b[0] == c[0] {
        lemma_bytes_transitive(a.drop_first(), b.drop_first(), c.drop_first());
    }
}

/// Of two different byte strings one comes before the other.
pub proof fn lemma_bytes_total(a: Seq<u8>, b: Seq<u8>)
    requires
        a != b,
    ensures
        bytes_before(a, b) || bytes_before(b, a),
    decreases a.len(),
{
    if a.len() > 0 && b.len() > 0 && a[0] == b[0] {
        if a.drop_first() == b.drop_first() {
            assert(a =~= seq![a[0]] + a.drop_first());
            assert(b =~= seq![b[0]] + b.drop_first());
        }
        lemma_bytes_total(a.drop_first(), b.drop_first());
    } else if a.len() == 0 && b.len() == 0 {
        assert(a =~= b);
    }
}

/// Different texts have different encodings.
pub proof fn lemma_encoding_injective(a: Seq<char>, b: Seq<char>)
    requires
        encode_utf8(a) == encode_utf8(b),
    ensures
        a == b,
{
    encode_utf8_decode_utf8(a);
    encode_utf8_decode_utf8(b);
}

/// The byte-wise order on texts is a strict total order.
pub proof fn lemma_text_order(a: Seq<char>, b: Seq<char>, c: Seq<char>)
    ensures
        !text_before(a, a),
        text_before(a, b) ==> !text_before(b, a),
        text_before(a, b) && text_before(b, c) ==> text_before(a, c),
        a != b ==> text_before(a, b) || text_before(b, a),
{
    lemma_bytes_irreflexive(encode_utf8(a));
    if text_before(a, b) {
        lemma_bytes_asymmetric(encode_utf8(a), encode_utf8(b));
        if text_before(b, c) {
            lemma_bytes_transitive(encode_utf8(a), encode_utf8(b), encode_utf8(c));
        }
    }
    if a != b {
        if encode_utf8(a) == encode_utf8(b) {
            lemma_encoding_injective(a, b);
        }
        lemma_bytes_total(encode_utf8(a), encode_utf8(b));
    }
}

/// Whether `a` comes strictly before `b` in byte-wise order.
pub fn str_before(a: &str, b: &str) -> (before: bool)
    ensures
        before == text_before(a@, b@),
{
    let x = a.as_bytes();
    let y = b.as_bytes();
    let n = x.len();
    let m = y.len();
    let mut i: usize = 0;
    assert(x@.skip(0) =~= x@);
    assert(y@.skip(0) =~= y@);
    while i < n && i < m
        invariant
            x@ == encode_utf8(a@),
            y@ == encode_utf8(b@),
            n == x@.len(),
            m == y@.len(),
            i <= n,
            i <= m,
            bytes_before(x@, y@) == bytes_before(x@.skip(i as int), y@.skip(i as int)),
        decreases n - i,
    {
        let ghost xs = x@.skip(i as int);
        let ghost ys = y@.skip(i as int);
        assert(xs[0] == x@[i as int]);
        assert(ys[0] == y@[i as int]);
        assert(xs.drop_first() =~= x@.skip(i + 1));
        assert(ys.drop_first() =~= y@.skip(i + 1));
        if x[i] != y[i] {
            return x[i] < y[i];
        }
        i += 1;
    }
    i < m
}

/// Whether each text comes strictly before all that follow it.
pub open spec fn ascending(keys: Seq<Seq<char>>) -> bool {
    forall|i: int, j: int| 0 <= i < j < keys.len() ==> text_before(keys[i], keys[j])
}

/// Whether `keys` lists exactly the members of `names`, in ascending order.
pub open spec fn lists_in_order(keys: Seq<Seq<char>>, names: Set<Seq<char>>) -> bool {
    ascending(keys) && forall|k: Seq<char>| names.contains(k) <==> keys.contains(k)
}

/// The members of a finite set of names in ascending byte-wise order.
pub open spec fn sorted_keys(names: Set<Seq<char>>) -> Seq<Seq<char>> {
    choose|keys: Seq<Seq<char>>| lists_in_order(keys, names)
}

/// A set of names has at most one ascending listing.
pub proof fn lemma_listing_unique(
    first: Seq<Seq<char>>,
    second: Seq<Seq<char>>,
    names: Set<Seq<char>>,
)
    requires
        lists_in_order(first, names),
        lists_in_order(second, names),
    ensures
        first == second,
    decreases first.len(),
{
    if first.len() == 0 {
        if second.len() > 0 {
            assert(second.contains(second[0]));
            assert(names.contains(second[0]));
        }
        assert(first =~= second);
    } else {
        assert(first.contains(first[0]));
        assert(names.contains(first[0]));
        assert(second.contains(first[0]));
        let j = second.index_of(first[0]);
        assert(second.contains(second[0]));
        assert(names.contains(second[0]));
        let i = first.index_of(second[0]);
        lemma_text_order(first[0], second[0], first[0]);
        assert(first[0] == second[0]);
        let head = first[0];
        let rest = names.remove(head);
        let f = first.drop_first();
        let s = second.drop_first();
        assert forall|k: Seq<char>| rest.contains(k) <==> f.contains(k) by {
            lemma_text_order(head, head, head);
            if rest.contains(k) {
                let p = first.index_of(k);
                assert(first[p] == k);
                assert(f[p - 1] == k);
            }
            if f.contains(k) {
                let p = f.index_of(k);
                assert(first[p + 1] == k);
                assert(first.contains(k));
                assert(text_before(first[0], first[p + 1]));
            }
        }
        assert forall|k: Seq<char>| rest.contains(k) <==> s.contains(k) by {
            lemma_text_order(head, head, head);
            if rest.contains(k) {
                let p = second.index_of(k);
                assert(second[p] == k);
                assert(s[p - 1] == k);
            }
            if s.contains(k) {
                let p = s.index_of(k);
                assert(second[p + 1] == k);
                assert(second.contains(k));
                assert(text_before(second[0], second[p + 1]));
            }
        }
        assert(ascending(f)) by {
            assert forall|a: int, b: int| 0 <= a < b < f.len() implies text_before(f[a], f[b]) by {
                assert(text_before(first[a + 1], first[b + 1]));
            }
        }
        assert(ascending(s)) by {
            assert forall|a: int, b: int| 0 <= a < b < s.len() implies text_before(s[a], s[b]) by {
                assert(text_before(second[a + 1], second[b + 1]));
            }
        }
        lemma_listing_unique(f, s, rest);
        assert(first =~= seq![head] + f);
        assert(second =~= seq![head] + s);
    }
}

/// An ascending listing of a set of names is the set's sorted listing.
pub proof fn lemma_listing_is_sorted(keys: Seq<Seq<char>>, names: Set<Seq<char>>)
    requires
        lists_in_order(keys, names),
    ensures
        sorted_keys(names) == keys,
{
    lemma_listing_unique(sorted_keys(names), keys, names);
}

/// A listing with one more name put at its place in the order.
pub open spec fn insert_in_order(keys: Seq<Seq<char>>, key: Seq<char>) -> Seq<Seq<char>>
    decreases keys.len(),
{
    if keys.len() == 0 {
        seq![key]
    } else if text_before(key, keys[0]) {
        seq![key] + keys
    } else {
        seq![keys[0]] + insert_in_order(keys.drop_first(), key)
    }
}

/// Putting a new name at its place keeps a listing ascending and adds
/// that name to it, and nothing else.
pub proof fn lemma_insert_in_order(keys: Seq<Seq<char>>, key: Seq<char>)
    requires
        ascending(keys),
        !keys.contains(key),
    ensures
        ascending(insert_in_order(keys, key)),
        forall|k: Seq<char>| insert_in_order(keys, key).contains(k) <==> k == key || keys.contains(k),
    decreases keys.len(),
{
    let result = insert_in_order(keys, key);
    if keys.len() == 0 {
        assert(result[0] == key);
        assert forall|k: Seq<char>| result.contains(k) <==> k == key || keys.contains(k) by {
            if result.contains(k) {
                let p = result.index_of(k);
            }
        }
    } else if text_before(key, keys[0]) {
        assert(result[0] == key);
        assert forall|i: int, j: int| 0 <= i < j < result.len() implies text_before(
            result[i],
            result[j],
        ) by {
            if i == 0 {
                assert(result[j] == keys[j - 1]);
                if j - 1 > 0 {
                    assert(text_before(keys[0], keys[j - 1]));
                    lemma_text_order(key, keys[0], keys[j - 1]);
                }
            } else {
                assert(text_before(keys[i - 1], keys[j - 1]));
            }
        }
        assert forall|k: Seq<char>| result.contains(k) <==> k == key || keys.contains(k) by {
            if result.contains(k) {
                let p = result.index_of(k);
                if p > 0 {
                    assert(keys[p - 1] == k);
                }
            }
            if keys.contains(k) {
                let p = keys.index_of(k);
                assert(result[p + 1] == k);
            }
        }
    } else {
        let rest = keys.drop_first();
        let inner = insert_in_order(rest, key);
        assert(keys.contains(keys[0]));
        assert(ascending(rest)) by {
            assert forall|i: int, j: int| 0 <= i < j < rest.len() implies text_before(
                rest[i],
                rest[j],
            ) by {
                assert(text_before(keys[i + 1], keys[j + 1]));
            }
        }
        assert(!rest.contains(key)) by {
            if rest.contains(key) {
                let p = rest.index_of(key);
                assert(keys[p + 1] == key);
            }
        }
        lemma_insert_in_order(rest, key);
        lemma_text_order(keys[0], key, keys[0]);
        assert(text_before(keys[0], key));
        assert(result[0] == keys[0]);
        assert forall|i: int, j: int| 0 <= i < j < result.len() implies text_before(
            result[i],
            result[j],
        ) by {
            assert(result[j] == inner[j - 1]);
            if i == 0 {
                assert(inner.contains(inner[j - 1]));
                if inner[j - 1] != key {
                    assert(rest.contains(inner[j - 1]));
                    let q = rest.index_of(inner[j - 1]);
                    assert(keys[q + 1] == inner[j - 1]);
                    assert(text_before(keys[0], keys[q + 1]));
                }
            } else {
                assert(result[i] == inner[i - 1]);
                assert(text_before(inner[i - 1], inner[j - 1]));
            }
        }
        assert forall|k: Seq<char>| result.contains(k) <==> k == key || keys.contains(k) by {
            if result.contains(k) {
                let p = result.index_of(k);
                if p > 0 {
                    assert(inner[p - 1] == k);
                    assert(inner.contains(k));
                    if k != key {
                        assert(rest.contains(k));
                        let q = rest.index_of(k);
                        assert(rest[q] == k);
                        assert(keys[q + 1] == k);
                    }
                }
            }
            if k == key {
                assert(inner.contains(key));
                let p = inner.index_of(key);
                assert(result[p + 1] == key);
            }
            if keys.contains(k) {
                let p = keys.index_of(k);
                if p == 0 {
                    assert(result[0] == k);
                } else {
                    assert(rest[p - 1] == k);
                    assert(rest.contains(k));
                    assert(inner.contains(k));
                    let q = inner.index_of(k);
                    assert(result[q + 1] == k);
                }
            }
        }
    }
}

/// Every finite set of names has an ascending listing, and the sorted
/// listing is one.
pub proof fn lemma_sorted_keys_list(names: Set<Seq<char>>)
    requires
        names.finite(),
    ensures
        lists_in_order(sorted_keys(names), names),
    decreases names.len(),
{
    if names.len() == 0 {
        let none = Seq::<Seq<char>>::empty();
        assert forall|k: Seq<char>| names.contains(k) <==> none.contains(k) by {
            if names.contains(k) {
                vstd::set_lib::lemma_set_empty_equivalency_len(names);
            }
        }
        assert(lists_in_order(none, names));
    } else {
        let picked = names.choose();
        let rest = names.remove(picked);
        lemma_sorted_keys_list(rest);
        let listing = sorted_keys(rest);
        lemma_insert_in_order(listing, picked);
        assert(lists_in_order(insert_in_order(listing, picked), names));
    }
}

/// An ascending listing names nothing twice.
pub proof fn lemma_ascending_distinct(keys: Seq<Seq<char>>)
    requires
        ascending(keys),
    ensures
        keys.no_duplicates(),
{
    assert forall|i: int, j: int| 0 <= i < keys.len() && 0 <= j < keys.len() && i != j implies keys[i]
        != keys[j] by {
        lemma_text_order(keys[i], keys[j], keys[i]);
        if i < j {
            assert(text_before(keys[i], keys[j]));
        } else {
            assert(text_before(keys[j], keys[i]));
        }
    }
}

} // verus!
