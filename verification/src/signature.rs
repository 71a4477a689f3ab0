use crate::digest::{base64_encode, base64_text, hmac_sha1, hmac_sha1_tag, lemma_base64_injective};
use crate::form::{
    entries_map, keys_of, lemma_entries_map_at, lemma_entries_map_finite,
    lemma_reordering_keeps_map, FormParams,
};
use crate::order::{
    ascending, lemma_ascending_distinct, lemma_encoding_injective, lemma_listing_is_sorted,
    lemma_sorted_keys_list, lemma_text_order, lists_in_order, sorted_keys, str_before, text_before,
};
use vstd::prelude::*;
use vstd::string::*;
use vstd::utf8::*;

verus! {

/// Each of `keys` followed at once by its value in `fields`, all joined
/// without separators, in the order of `keys`.
pub open spec fn entries_text(keys: Seq<Seq<char>>, fields: Map<Seq<char>, Seq<char>>) -> Seq<char>
    decreases keys.len(),
{
    if keys.len() == 0 {
        Seq::empty()
    } else {
        entries_text(keys.drop_last(), fields) + keys.last() + fields[keys.last()]
    }
}

/// The text that is signed: the endpoint URL, then every field name with
/// its value, the names in ascending byte-wise order.
pub open spec fn canonical_text(url: Seq<char>, fields: Map<Seq<char>, Seq<char>>) -> Seq<char> {
    url + entries_text(sorted_keys(fields.dom()), fields)
}

/// The HMAC-SHA1 tag of a request's canonical text under the shared
/// secret, both taken as UTF-8 bytes.
pub open spec fn request_tag(
    url: Seq<char>,
    fields: Map<Seq<char>, Seq<char>>,
    auth_token: Seq<char>,
) -> Seq<u8> {
    hmac_sha1(encode_utf8(auth_token), encode_utf8(canonical_text(url, fields)))
}

/// The signature that the provider presents for a request: the base64 text
/// of the request's tag.
pub open spec fn expected_signature(
    url: Seq<char>,
    fields: Map<Seq<char>, Seq<char>>,
    auth_token: Seq<char>,
) -> Seq<char> {
    base64_text(request_tag(url, fields, auth_token))
}

/// Whether a presented signature is the one expected for a request. This
/// is a function of the request, the presented text and the secret, and
/// of nothing else.
pub open spec fn signature_accepted(
    url: Seq<char>,
    fields: Map<Seq<char>, Seq<char>>,
    signature_header: Seq<char>,
    auth_token: Seq<char>,
) -> bool {
    signature_header == expected_signature(url, fields, auth_token)
}

/// The names of the stored fields, taken in the order that `order` gives
/// to their positions.
pub open spec fn keys_in_order(entries: Seq<(Seq<char>, Seq<char>)>, order: Seq<usize>) -> Seq<
    Seq<char>,
> {
    Seq::new(order.len(), |k: int| entries[order[k] as int].0)
}

/// The positions of the stored fields, arranged so that the field names
/// ascend in byte-wise order.
fn sorted_positions(form_params: &FormParams) -> (order: Vec<usize>)
    requires
        form_params.wf(),
    ensures
        order@.len() == form_params.entries().len(),
        forall|k: int| 0 <= k < order@.len() ==> (#[trigger] order@[k]) < order@.len(),
        lists_in_order(keys_in_order(form_params.entries(), order@), form_params@.dom()),
{
    let n = form_params.len();
    let ghost entries = form_params.entries();
    let mut order: Vec<usize> = Vec::new();
    let mut i: usize = 0;
    while i < n
        invariant
            form_params.wf(),
            entries == form_params.entries(),
            n == entries.len(),
            i <= n,
            order@.len() == i,
            forall|k: int| 0 <= k < order@.len() ==> (#[trigger] order@[k]) < i,
            forall|idx: usize| idx < i ==> order@.contains(idx),
            ascending(keys_in_order(entries, order@)),
        decreases n - i,
    {
        let ghost before = order@;
        let ghost new_key = entries[i as int].0;
        let mut p: usize = 0;
        while p < order.len()
            invariant
                form_params.wf(),
                entries == form_params.entries(),
                n == entries.len(),
                i < n,
                order@ == before,
                p <= order@.len(),
                new_key == entries[i as int].0,
                forall|k: int| 0 <= k < order@.len() ==> (#[trigger] order@[k]) < i,
                forall|k: int| 0 <= k < p ==> text_before(entries[order@[k] as int].0, new_key),
            ensures
                p < before.len() ==> !text_before(entries[before[p as int] as int].0, new_key),
            decreases order@.len() - p,
        {
            let at = order[p];
            if !str_before(form_params.key_at(at).as_str(), form_params.key_at(i).as_str()) {
                break;
            }
            p += 1;
        }
        proof {
            let keys = keys_in_order(entries, before);
            assert forall|k: int| p <= k < before.len() implies text_before(
                new_key,
                entries[before[k] as int].0,
            ) by {
                let at = before[p as int];
                assert(before[p as int] < i);
                assert(keys_of(entries)[at as int] == entries[at as int].0);
                assert(keys_of(entries)[i as int] == new_key);
                assert(entries[at as int].0 != new_key);
                lemma_text_order(entries[at as int].0, new_key, entries[at as int].0);
                if k > p {
                    assert(text_before(keys[p as int], keys[k]));
                    lemma_text_order(new_key, keys[p as int], keys[k]);
                }
            }
        }
        order.insert(p, i);
        proof {
            let after = order@;
            let old_keys = keys_in_order(entries, before);
            let new_keys = keys_in_order(entries, after);
            assert forall|a: int, b: int| 0 <= a < b < new_keys.len() implies text_before(
                new_keys[a],
                new_keys[b],
            ) by {
                if b < p {
                    assert(text_before(old_keys[a], old_keys[b]));
                } else if b == p {
                    assert(after[a] == before[a]);
                } else if a < p {
                    assert(text_before(old_keys[a], old_keys[b - 1]));
                } else if a == p {
                    assert(after[b] == before[b - 1]);
                } else {
                    assert(text_before(old_keys[a - 1], old_keys[b - 1]));
                }
            }
            assert forall|idx: usize| idx < i + 1 implies after.contains(idx) by {
                if idx == i {
                    assert(after[p as int] == i);
                } else {
                    assert(before.contains(idx));
                    let q = before.index_of(idx);
                    if q < p {
                        assert(after[q] == idx);
                    } else {
                        assert(after[q + 1] == idx);
                    }
                }
            }
            assert forall|k: int| 0 <= k < after.len() implies (#[trigger] after[k]) < i + 1 by {
                if k < p {
                    assert(after[k] == before[k]);
                } else if k > p {
                    assert(after[k] == before[k - 1]);
                }
            }
        }
        i += 1;
    }
    proof {
        let keys = keys_in_order(entries, order@);
        lemma_entries_map_finite(entries);
        assert forall|k: Seq<char>| form_params@.dom().contains(k) <==> keys.contains(k) by {
            if form_params@.dom().contains(k) {
                let idx = keys_of(entries).index_of(k);
                assert(keys_of(entries)[idx] == k);
                assert(order@.contains(idx as usize));
                let q = order@.index_of(idx as usize);
                assert(keys[q] == k);
            }
            if keys.contains(k) {
                let q = keys.index_of(k);
                let idx = order@[q];
                assert(keys_of(entries)[idx as int] == k);
            }
        }
    }
    order
}

/// Builds the text that is signed for a request.
pub fn canonical_string(url: &str, form_params: &FormParams) -> (data: String)
    requires
        form_params.wf(),
    ensures
        data@ == canonical_text(url@, form_params@),
{
    let order = sorted_positions(form_params);
    let n = order.len();
    let ghost entries = form_params.entries();
    let ghost keys = keys_in_order(entries, order@);
    let mut data = String::from_str(url);
    let mut k: usize = 0;
    assert(keys.take(0) =~= Seq::<Seq<char>>::empty());
    assert(data@ =~= url@ + entries_text(keys.take(0), form_params@));
    while k < n
        invariant
            form_params.wf(),
            entries == form_params.entries(),
            keys == keys_in_order(entries, order@),
            n == order@.len(),
            n == entries.len(),
            k <= n,
            forall|q: int| 0 <= q < order@.len() ==> (#[trigger] order@[q]) < order@.len(),
            data@ == url@ + entries_text(keys.take(k as int), form_params@),
        decreases n - k,
    {
        let at = order[k];
        proof {
            lemma_entries_map_at(entries, at as int);
            let next = keys.take(k + 1);
            assert(next.drop_last() =~= keys.take(k as int));
            assert(next.last() == entries[at as int].0);
        }
        data.append(form_params.key_at(at).as_str());
        data.append(form_params.value_at(at).as_str());
        assert(data@ =~= url@ + entries_text(keys.take(k + 1), form_params@));
        k += 1;
    }
    proof {
        assert(keys.take(n as int) =~= keys);
        lemma_listing_is_sorted(keys, form_params@.dom());
    }
    data
}

/// Computes the signature that the provider presents for a request.
pub fn compute_signature(url: &str, form_params: &FormParams, auth_token: &str) -> (signature:
    String)
    requires
        form_params.wf(),
    ensures
        signature@ == expected_signature(url@, form_params@, auth_token@),
{
    let data = canonical_string(url, form_params);
    let tag = hmac_sha1_tag(auth_token.as_bytes(), data.as_str().as_bytes());
    base64_encode(tag.as_slice())
}

/// Whether `signature_header` is the base64 text of `tag`. The comparison
/// is exact, character by character.
pub fn tag_matches(tag: &[u8], signature_header: &str) -> (valid: bool)
    requires
        tag@.len() / 3 * 4 + 4 <= usize::MAX,
    ensures
        valid == (signature_header@ == base64_text(tag@)),
{
    let computed = base64_encode(tag);
    let presented = String::from_str(signature_header);
    computed == presented
}

/// Whether `signature_header` is the signature of the request under
/// `auth_token`. The comparison is exact, character by character. A
/// mismatch is an ordinary `false`. Equal arguments always give the same
/// answer.
pub fn validate_twilio_signature(
    url: &str,
    form_params: &FormParams,
    signature_header: &str,
    auth_token: &str,
) -> (valid: bool)
    requires
        form_params.wf(),
    ensures
        valid == signature_accepted(url@, form_params@, signature_header@, auth_token@),
{
    let data = canonical_string(url, form_params);
    let tag = hmac_sha1_tag(auth_token.as_bytes(), data.as_str().as_bytes());
    tag_matches(tag.as_slice(), signature_header)
}

/// The signature does not depend on the order in which the fields were
/// stored: entry lists that hold the same entries in another order have
/// the same canonical text and the same signature.
pub proof fn lemma_signature_ignores_field_order(
    url: Seq<char>,
    first: Seq<(Seq<char>, Seq<char>)>,
    second: Seq<(Seq<char>, Seq<char>)>,
    auth_token: Seq<char>,
)
    requires
        keys_of(first).no_duplicates(),
        keys_of(second).no_duplicates(),
        first.to_multiset() == second.to_multiset(),
    ensures
        canonical_text(url, entries_map(first)) == canonical_text(url, entries_map(second)),
        expected_signature(url, entries_map(first), auth_token) == expected_signature(
            url,
            entries_map(second),
            auth_token,
        ),
{
    lemma_reordering_keeps_map(first, second);
}

/// The text of two listings, one after the other, is the text of the
/// first followed by the text of the second.
pub proof fn lemma_entries_text_concat(
    front: Seq<Seq<char>>,
    back: Seq<Seq<char>>,
    fields: Map<Seq<char>, Seq<char>>,
)
    ensures
        entries_text(front + back, fields) == entries_text(front, fields) + entries_text(
            back,
            fields,
        ),
    decreases back.len(),
{
    if back.len() == 0 {
        assert(front + back =~= front);
        assert(entries_text(front, fields) + entries_text(back, fields) =~= entries_text(
            front,
            fields,
        ));
    } else {
        assert((front + back).drop_last() =~= front + back.drop_last());
        assert((front + back).last() == back.last());
        lemma_entries_text_concat(front, back.drop_last(), fields);
        assert(entries_text(front + back, fields) =~= entries_text(front, fields) + entries_text(
            back,
            fields,
        ));
    }
}

/// The text of a listing looks only at the values of the names it lists.
pub proof fn lemma_entries_text_agrees(
    keys: Seq<Seq<char>>,
    first: Map<Seq<char>, Seq<char>>,
    second: Map<Seq<char>, Seq<char>>,
)
    requires
        forall|i: int| 0 <= i < keys.len() ==> first[#[trigger] keys[i]] == second[keys[i]],
    ensures
        entries_text(keys, first) == entries_text(keys, second),
    decreases keys.len(),
{
    if keys.len() > 0 {
        assert forall|i: int| 0 <= i < keys.drop_last().len() implies first[#[trigger] keys.drop_last()[i]]
            == second[keys.drop_last()[i]] by {
            assert(keys.drop_last()[i] == keys[i]);
        }
        lemma_entries_text_agrees(keys.drop_last(), first, second);
        assert(first[keys[keys.len() - 1]] == second[keys[keys.len() - 1]]);
    }
}

/// Another endpoint URL gives another canonical text.
pub proof fn lemma_changed_url_changes_text(
    url: Seq<char>,
    other_url: Seq<char>,
    fields: Map<Seq<char>, Seq<char>>,
)
    requires
        url != other_url,
    ensures
        canonical_text(url, fields) != canonical_text(other_url, fields),
{
    let tail = entries_text(sorted_keys(fields.dom()), fields);
    if url + tail == other_url + tail {
        assert(url.len() == other_url.len()) by {
            assert((url + tail).len() == (other_url + tail).len());
        }
        assert forall|i: int| 0 <= i < url.len() implies url[i] == other_url[i] by {
            assert((url + tail)[i] == url[i]);
            assert((other_url + tail)[i] == other_url[i]);
        }
        assert(url =~= other_url);
    }
}

/// Another value for one field gives another canonical text.
pub proof fn lemma_changed_value_changes_text(
    url: Seq<char>,
    fields: Map<Seq<char>, Seq<char>>,
    name: Seq<char>,
    value: Seq<char>,
)
    requires
        fields.dom().finite(),
        fields.contains_key(name),
        fields[name] != value,
    ensures
        canonical_text(url, fields.insert(name, value)) != canonical_text(url, fields),
{
    let changed = fields.insert(name, value);
    assert(changed.dom() =~= fields.dom());
    let keys = sorted_keys(fields.dom());
    lemma_sorted_keys_list(fields.dom());
    lemma_ascending_distinct(keys);
    assert(keys.contains(name));
    let p = keys.index_of(name);
    let front = keys.take(p);
    let back = keys.skip(p + 1);
    let one = seq![name];
    assert(keys =~= front + one + back);
    assert forall|i: int| 0 <= i < front.len() implies fields[#[trigger] front[i]] == changed[front[i]] by {
        assert(front[i] == keys[i]);
        assert(keys[i] != keys[p]);
    }
    assert forall|i: int| 0 <= i < back.len() implies fields[#[trigger] back[i]] == changed[back[i]] by {
        assert(back[i] == keys[p + 1 + i]);
        assert(keys[p + 1 + i] != keys[p]);
    }
    lemma_entries_text_agrees(front, fields, changed);
    lemma_entries_text_agrees(back, fields, changed);
    lemma_entries_text_concat(front + one, back, fields);
    lemma_entries_text_concat(front, one, fields);
    lemma_entries_text_concat(front + one, back, changed);
    lemma_entries_text_concat(front, one, changed);
    assert(one.drop_last() =~= Seq::<Seq<char>>::empty());
    assert(entries_text(one.drop_last(), fields) =~= Seq::<char>::empty());
    assert(entries_text(one.drop_last(), changed) =~= Seq::<char>::empty());
    assert(one.last() == name);
    assert(entries_text(one, fields) =~= name + fields[name]);
    assert(entries_text(one, changed) =~= name + value);
    let lead = url + entries_text(front, fields) + name;
    let rest = entries_text(back, fields);
    let signed = canonical_text(url, fields);
    let tampered = canonical_text(url, changed);
    assert(signed =~= lead + fields[name] + rest);
    assert(tampered =~= lead + value + rest);
    if signed == tampered {
        assert(fields[name].len() == value.len()) by {
            assert((lead + fields[name] + rest).len() == (lead + value + rest).len());
        }
        assert forall|i: int| 0 <= i < value.len() implies fields[name][i] == value[i] by {
            assert((lead + fields[name] + rest)[lead.len() + i] == fields[name][i]);
            assert((lead + value + rest)[lead.len() + i] == value[i]);
        }
        assert(fields[name] =~= value);
    }
}

/// Different canonical texts are different inputs to the keyed hash.
pub proof fn lemma_changed_text_changes_hash_input(text: Seq<char>, other: Seq<char>)
    requires
        text != other,
    ensures
        encode_utf8(text) != encode_utf8(other),
{
    if encode_utf8(text) == encode_utf8(other) {
        lemma_encoding_injective(text, other);
    }
}

/// Requests with different tags have different signatures.
pub proof fn lemma_different_tags_different_signatures(
    url: Seq<char>,
    fields: Map<Seq<char>, Seq<char>>,
    other_url: Seq<char>,
    other_fields: Map<Seq<char>, Seq<char>>,
    auth_token: Seq<char>,
)
    requires
        request_tag(url, fields, auth_token) != request_tag(other_url, other_fields, auth_token),
    ensures
        expected_signature(url, fields, auth_token) != expected_signature(
            other_url,
            other_fields,
            auth_token,
        ),
{
    let tag = request_tag(url, fields, auth_token);
    let other_tag = request_tag(other_url, other_fields, auth_token);
    if base64_text(tag) == base64_text(other_tag) {
        lemma_base64_injective(tag, other_tag);
    }
}

/// The signature of a request is not accepted for the same fields at
/// another endpoint URL. The two requests are different inputs to the
/// keyed hash; the law holds wherever the hash tells them apart.
pub proof fn lemma_changed_url_is_rejected(
    url: Seq<char>,
    other_url: Seq<char>,
    fields: Map<Seq<char>, Seq<char>>,
    auth_token: Seq<char>,
)
    requires
        url != other_url,
        request_tag(url, fields, auth_token) != request_tag(other_url, fields, auth_token),
    ensures
        encode_utf8(canonical_text(url, fields)) != encode_utf8(canonical_text(other_url, fields)),
        !signature_accepted(
            other_url,
            fields,
            expected_signature(url, fields, auth_token),
            auth_token,
        ),
{
    lemma_changed_url_changes_text(url, other_url, fields);
    lemma_changed_text_changes_hash_input(
        canonical_text(url, fields),
        canonical_text(other_url, fields),
    );
    lemma_different_tags_different_signatures(url, fields, other_url, fields, auth_token);
}

/// The signature of a request is not accepted once the value of one of
/// its fields has been changed. The two requests are different inputs to
/// the keyed hash; the law holds wherever the hash tells them apart.
pub proof fn lemma_changed_value_is_rejected(
    url: Seq<char>,
    fields: Map<Seq<char>, Seq<char>>,
    name: Seq<char>,
    value: Seq<char>,
    auth_token: Seq<char>,
)
    requires
        fields.dom().finite(),
        fields.contains_key(name),
        fields[name] != value,
        request_tag(url, fields, auth_token) != request_tag(
            url,
            fields.insert(name, value),
            auth_token,
        ),
    ensures
        encode_utf8(canonical_text(url, fields)) != encode_utf8(
            canonical_text(url, fields.insert(name, value)),
        ),
        !signature_accepted(
            url,
            fields.insert(name, value),
            expected_signature(url, fields, auth_token),
            auth_token,
        ),
{
    lemma_changed_value_changes_text(url, fields, name, value);
    lemma_changed_text_changes_hash_input(
        canonical_text(url, fields),
        canonical_text(url, fields.insert(name, value)),
    );
    lemma_different_tags_different_signatures(
        url,
        fields,
        url,
        fields.insert(name, value),
        auth_token,
    );
}

} // verus!
