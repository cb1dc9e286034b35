//! Item extraction: given a raw board node, produce the flat item list
//! (skipping entries whose underlying content was deleted or inaccessible),
//! classify each item into a column through its first single-select field
//! value, and accumulate per-column item counts.

use vstd::prelude::*;
use crate::json::{
    arr_in, get_in, is_null_in, opt_val, spec_arr_or_empty, spec_get, spec_str, spec_str_or_empty,
    str_eq, str_in, str_or_empty_in, JsonValue,
};
use crate::model::{ItemModel, ProjectItem};

verus! {

/// The item nodes of a board node; a missing list reads as no items.
pub open spec fn item_nodes(node: JsonValue) -> Seq<JsonValue> {
    spec_arr_or_empty(spec_get(spec_get(node, "items"@), "nodes"@))
}

/// Whether an item node survives extraction: its polymorphic content must
/// not be null (a null content marks a deleted or inaccessible source).
pub open spec fn item_included(n: JsonValue) -> bool {
    !(spec_get(n, "content"@) is Null)
}

/// The title of an item's content, with the fixed placeholder default.
pub open spec fn title_of(content: JsonValue) -> Seq<char> {
    match spec_str(spec_get(content, "title"@)) {
        Some(t) => t,
        None => "Untitled"@,
    }
}

/// The string leaves named `key` under a node list, in order; entries
/// without such a leaf contribute nothing.
pub open spec fn string_leaves(nodes: Seq<JsonValue>, key: Seq<char>) -> Seq<Seq<char>>
    decreases nodes.len(),
{
    if nodes.len() == 0 {
        Seq::empty()
    } else {
        let prefix = string_leaves(nodes.drop_last(), key);
        match spec_str(spec_get(nodes.last(), key)) {
            Some(s) => prefix.push(s),
            None => prefix,
        }
    }
}

/// The first single-select option id among an item's field values, taken
/// verbatim; scanning stops at the first carrier, and an item without one
/// reads as the empty id (unclassified).
pub open spec fn first_option_id(fvs: Seq<JsonValue>) -> Seq<char>
    decreases fvs.len(),
{
    if fvs.len() == 0 {
        Seq::empty()
    } else {
        match spec_str(spec_get(fvs[0], "optionId"@)) {
            Some(id) => id,
            None => first_option_id(fvs.drop_first()),
        }
    }
}

/// The extracted model of one included item node.
pub open spec fn item_of(n: JsonValue) -> ItemModel {
    let content = spec_get(n, "content"@);
    ItemModel {
        id: spec_str_or_empty(spec_get(n, "id"@)),
        title: title_of(content),
        url: spec_str(spec_get(content, "url"@)),
        assignees: string_leaves(
            spec_arr_or_empty(spec_get(spec_get(content, "assignees"@), "nodes"@)),
            "login"@,
        ),
        labels: string_leaves(
            spec_arr_or_empty(spec_get(spec_get(content, "labels"@), "nodes"@)),
            "name"@,
        ),
        column_id: first_option_id(
            spec_arr_or_empty(spec_get(spec_get(n, "fieldValues"@), "nodes"@)),
        ),
    }
}

/// The item list extracted from a node list: included nodes in order.
pub open spec fn items_of(nodes: Seq<JsonValue>) -> Seq<ItemModel>
    decreases nodes.len(),
{
    if nodes.len() == 0 {
        Seq::empty()
    } else {
        let prefix = items_of(nodes.drop_last());
        if item_included(nodes.last()) {
            prefix.push(item_of(nodes.last()))
        } else {
            prefix
        }
    }
}

/// How many items of a list are classified into the column `id`.
pub open spec fn count_with(items: Seq<ItemModel>, id: Seq<char>) -> nat
    decreases items.len(),
{
    if items.len() == 0 {
        0
    } else {
        count_with(items.drop_last(), id) + if items.last().column_id == id {
            1nat
        } else {
            0nat
        }
    }
}

/// The count a scratch counts list records for `id`: the value of the first
/// entry whose key is `id`, or zero.
pub open spec fn assoc_count(entries: Seq<(String, usize)>, id: Seq<char>) -> nat
    decreases entries.len(),
{
    if entries.len() == 0 {
        0
    } else if entries[0].0@ == id {
        entries[0].1 as nat
    } else {
        assoc_count(entries.drop_first(), id)
    }
}

/// Whether some entry of a counts list carries the key `id`.
pub open spec fn has_key(entries: Seq<(String, usize)>, id: Seq<char>) -> bool {
    exists|k: int| 0 <= k < entries.len() && entries[k].0@ == id
}

/// Whether every key of a counts list is a non-empty string.
pub open spec fn keys_nonempty(entries: Seq<(String, usize)>) -> bool {
    forall|k: int| 0 <= k < entries.len() ==> entries[k].0@.len() > 0
}

/// An id no entry carries counts as zero.
proof fn lemma_assoc_count_absent(entries: Seq<(String, usize)>, id: Seq<char>)
    requires
        !has_key(entries, id),
    ensures
        assoc_count(entries, id) == 0,
    decreases entries.len(),
{
    if entries.len() > 0 {
        assert(entries[0].0@ != id);
        assert(forall|k: int|
            0 <= k < entries.drop_first().len() ==> entries.drop_first()[k] == entries[k + 1]);
        lemma_assoc_count_absent(entries.drop_first(), id);
    }
}

/// Appending an entry changes only the count of an id that had no entry.
proof fn lemma_assoc_count_push(entries: Seq<(String, usize)>, e: (String, usize), id: Seq<char>)
    ensures
        has_key(entries, id) ==> assoc_count(entries.push(e), id) == assoc_count(entries, id),
        !has_key(entries, id) && id == e.0@ ==> assoc_count(entries.push(e), id) == e.1,
        !has_key(entries, id) && id != e.0@ ==> assoc_count(entries.push(e), id) == 0,
    decreases entries.len(),
{
    if entries.len() == 0 {
        assert(entries.push(e)[0] == e);
        assert(entries.push(e).drop_first() =~= Seq::<(String, usize)>::empty());
        assert(assoc_count(Seq::<(String, usize)>::empty(), id) == 0);
    } else {
        assert(entries.push(e)[0] == entries[0]);
        assert(entries.push(e).drop_first() =~= entries.drop_first().push(e));
        lemma_assoc_count_push(entries.drop_first(), e, id);
        if entries[0].0@ != id {
            assert(has_key(entries, id) <==> has_key(entries.drop_first(), id)) by {
                if has_key(entries, id) {
                    let k = choose|k: int| 0 <= k < entries.len() && entries[k].0@ == id;
                    assert(entries.drop_first()[k - 1] == entries[k]);
                }
                if has_key(entries.drop_first(), id) {
                    let k = choose|k: int|
                        0 <= k < entries.drop_first().len() && entries.drop_first()[k].0@ == id;
                    assert(entries.drop_first()[k] == entries[k + 1]);
                }
            }
        }
    }
}

/// The first entry carrying a key determines that key's count.
proof fn lemma_assoc_count_first_match(entries: Seq<(String, usize)>, i: int)
    requires
        0 <= i < entries.len(),
        forall|k: int| 0 <= k < i ==> entries[k].0@ != entries[i].0@,
    ensures
        assoc_count(entries, entries[i].0@) == entries[i].1,
    decreases i,
{
    if i > 0 {
        assert(forall|k: int|
            0 <= k < entries.drop_first().len() ==> entries.drop_first()[k] == entries[k + 1]);
        lemma_assoc_count_first_match(entries.drop_first(), i - 1);
    }
}

/// Replacing the first entry of a key changes only that key's count.
proof fn lemma_assoc_count_update(
    entries: Seq<(String, usize)>,
    i: int,
    e: (String, usize),
    id: Seq<char>,
)
    requires
        0 <= i < entries.len(),
        e.0@ == entries[i].0@,
        forall|k: int| 0 <= k < i ==> entries[k].0@ != entries[i].0@,
    ensures
        id == e.0@ ==> assoc_count(entries.update(i, e), id) == e.1,
        id != e.0@ ==> assoc_count(entries.update(i, e), id) == assoc_count(entries, id),
    decreases i,
{
    let updated = entries.update(i, e);
    if i == 0 {
        assert(updated[0] == e);
        assert(updated.drop_first() =~= entries.drop_first());
    } else {
        assert(updated[0] == entries[0]);
        assert(updated.drop_first() =~= entries.drop_first().update(i - 1, e));
        assert(forall|k: int|
            0 <= k < entries.drop_first().len() ==> entries.drop_first()[k] == entries[k + 1]);
        lemma_assoc_count_update(entries.drop_first(), i - 1, e, id);
    }
}

/// A column count never exceeds the number of items.
pub proof fn lemma_count_le_len(items: Seq<ItemModel>, id: Seq<char>)
    ensures
        count_with(items, id) <= items.len(),
    decreases items.len(),
{
    if items.len() > 0 {
        lemma_count_le_len(items.drop_last(), id);
    }
}

/// Extraction never produces more items than there are nodes.
pub proof fn lemma_items_len_le(nodes: Seq<JsonValue>)
    ensures
        items_of(nodes).len() <= nodes.len(),
    decreases nodes.len(),
{
    if nodes.len() > 0 {
        lemma_items_len_le(nodes.drop_last());
    }
}

/// Law: an item whose content is null is excluded from the item list — and
/// with it from every column count — wherever it stands among the nodes.
pub proof fn lemma_null_content_excluded(nodes: Seq<JsonValue>, x: JsonValue, j: int)
    requires
        0 <= j <= nodes.len(),
        !item_included(x),
    ensures
        items_of(nodes.insert(j, x)) == items_of(nodes),
        forall|id: Seq<char>| #![auto]
            count_with(items_of(nodes.insert(j, x)), id) == count_with(items_of(nodes), id),
    decreases nodes.len(),
{
    let ins = nodes.insert(j, x);
    if j == nodes.len() {
        assert(ins.drop_last() =~= nodes);
        assert(ins.last() == x);
    } else {
        assert(ins.last() == nodes.last());
        assert(ins.drop_last() =~= nodes.drop_last().insert(j, x));
        lemma_null_content_excluded(nodes.drop_last(), x, j);
    }
}

/// Record one more item for `key` in the scratch counts list.
fn bump_count(counts: &mut Vec<(String, usize)>, key: &String)
    requires
        key@.len() > 0,
        keys_nonempty(old(counts)@),
        assoc_count(old(counts)@, key@) < usize::MAX,
    ensures
        keys_nonempty(final(counts)@),
        assoc_count(final(counts)@, key@) == assoc_count(old(counts)@, key@) + 1,
        forall|id: Seq<char>|
            id != key@ ==> assoc_count(final(counts)@, id) == assoc_count(old(counts)@, id),
{
    let n = counts.len();
    let mut i: usize = 0;
    while i < n
        invariant
            i <= n,
            n == counts@.len(),
            counts@ == old(counts)@,
            keys_nonempty(counts@),
            key@.len() > 0,
            assoc_count(old(counts)@, key@) < usize::MAX,
            forall|k: int| 0 <= k < i ==> counts@[k].0@ != key@,
        decreases n - i,
    {
        let hit = str_eq(counts[i].0.as_str(), key.as_str());
        if hit {
            proof {
                lemma_assoc_count_first_match(counts@, i as int);
            }
            let c = counts[i].1;
            let ghost pre = counts@;
            counts[i].1 = c + 1;
            proof {
                assert(counts@ =~= pre.update(i as int, (pre[i as int].0, (c + 1) as usize)));
                lemma_assoc_count_update(
                    pre,
                    i as int,
                    (pre[i as int].0, (c + 1) as usize),
                    key@,
                );
                assert forall|id: Seq<char>| id != key@ implies assoc_count(counts@, id)
                    == assoc_count(pre, id) by {
                    lemma_assoc_count_update(
                        pre,
                        i as int,
                        (pre[i as int].0, (c + 1) as usize),
                        id,
                    );
                }
            }
            return ;
        }
        i = i + 1;
    }
    proof {
        assert(!has_key(counts@, key@));
        lemma_assoc_count_absent(counts@, key@);
    }
    let ghost pre = counts@;
    counts.push((key.clone(), 1));
    proof {
        lemma_assoc_count_push(pre, (*key, 1usize), key@);
        assert(counts@ =~= pre.push((*key, 1usize)));
        assert forall|id: Seq<char>| id != key@ implies assoc_count(counts@, id) == assoc_count(
            pre,
            id,
        ) by {
            lemma_assoc_count_push(pre, (*key, 1usize), id);
            if !has_key(pre, id) {
                lemma_assoc_count_absent(pre, id);
            }
        }
        assert(keys_nonempty(counts@));
    }
}

/// The string leaves named `key` under `outer.nodes` of a content node.
fn nested_leaves(content: Option<&JsonValue>, outer: &str, key: &str) -> (r: Vec<String>)
    ensures
        r.deep_view() == string_leaves(
            spec_arr_or_empty(spec_get(spec_get(opt_val(content), outer@), "nodes"@)),
            key@,
        ),
{
    let mut out: Vec<String> = Vec::new();
    if let Some(nodes) = arr_in(get_in(get_in(content, outer), "nodes")) {
        let n = nodes.len();
        let mut i: usize = 0;
        while i < n
            invariant
                i <= n,
                n == nodes@.len(),
                out.deep_view() == string_leaves(nodes@.take(i as int), key@),
            decreases n - i,
        {
            let node = &nodes[i];
            let leaf = str_in(get_in(Some(node), key));
            proof {
                assert(nodes@.take(i + 1).drop_last() =~= nodes@.take(i as int));
                assert(nodes@.take(i + 1).last() == nodes@[i as int]);
            }
            if let Some(s) = leaf {
                let ghost pre = out.deep_view();
                let ghost sv = s@;
                out.push(s);
                proof {
                    assert(out.deep_view() =~~= pre.push(sv));
                }
            }
            i = i + 1;
        }
        proof {
            assert(nodes@.take(n as int) =~= nodes@);
        }
        out
    } else {
        proof {
            assert(out.deep_view() =~~= Seq::<Seq<char>>::empty());
        }
        out
    }
}

/// The column id of one item node: the first field value carrying a
/// single-select option id, or the empty string.
fn item_column_id(item: &JsonValue) -> (r: String)
    ensures
        r@ == first_option_id(
            spec_arr_or_empty(spec_get(spec_get(*item, "fieldValues"@), "nodes"@)),
        ),
{
    if let Some(fvs) = arr_in(get_in(get_in(Some(item), "fieldValues"), "nodes")) {
        let n = fvs.len();
        let mut i: usize = 0;
        proof {
            assert(fvs@.skip(0) =~= fvs@);
        }
        while i < n
            invariant
                i <= n,
                n == fvs@.len(),
                first_option_id(
                    spec_arr_or_empty(spec_get(spec_get(*item, "fieldValues"@), "nodes"@)),
                ) == first_option_id(fvs@.skip(i as int)),
            decreases n - i,
        {
            let fv = &fvs[i];
            let leaf = str_in(get_in(Some(fv), "optionId"));
            proof {
                assert(fvs@.skip(i as int)[0] == fvs@[i as int]);
                assert(fvs@.skip(i as int).drop_first() =~= fvs@.skip(i + 1));
            }
            if let Some(id) = leaf {
                return id;
            }
            i = i + 1;
        }
        proof {
            assert(fvs@.skip(n as int) =~= Seq::<JsonValue>::empty());
        }
        String::new()
    } else {
        String::new()
    }
}

/// Item extraction over a raw board node. Returns the flat item list (in
/// source order, null-content nodes excluded) and the scratch per-column
/// counts, recorded only for non-empty column ids. Tolerant of missing
/// structure at every level: absent lists and leaves read as defaults.
pub fn extract_items(node: &JsonValue) -> (r: (Vec<ProjectItem>, Vec<(String, usize)>))
    ensures
        r.0.deep_view() == items_of(item_nodes(*node)),
        keys_nonempty(r.1@),
        forall|id: Seq<char>| #![auto]
            assoc_count(r.1@, id) == if id.len() == 0 {
                0nat
            } else {
                count_with(items_of(item_nodes(*node)), id)
            },
{
    let mut items: Vec<ProjectItem> = Vec::new();
    let mut counts: Vec<(String, usize)> = Vec::new();
    if let Some(nodes) = arr_in(get_in(get_in(Some(node), "items"), "nodes")) {
        proof {
            assert(nodes@ == item_nodes(*node));
        }
        let n = nodes.len();
        let mut i: usize = 0;
        while i < n
            invariant
                i <= n,
                n == nodes@.len(),
                nodes@ == item_nodes(*node),
                items.deep_view() == items_of(nodes@.take(i as int)),
                keys_nonempty(counts@),
                forall|id: Seq<char>| #![auto]
                    assoc_count(counts@, id) == if id.len() == 0 {
                        0nat
                    } else {
                        count_with(items_of(nodes@.take(i as int)), id)
                    },
            decreases n - i,
        {
            let item = &nodes[i];
            let content = get_in(Some(item), "content");
            proof {
                assert(nodes@.take(i + 1).drop_last() =~= nodes@.take(i as int));
                assert(nodes@.take(i + 1).last() == nodes@[i as int]);
            }
            if !is_null_in(content) {
                let title = match str_in(get_in(content, "title")) {
                    Some(t) => t,
                    None => "Untitled".to_owned(),
                };
                let url = str_in(get_in(content, "url"));
                let assignees = nested_leaves(content, "assignees", "login");
                let labels = nested_leaves(content, "labels", "name");
                let column_id = item_column_id(item);
                let one = ProjectItem {
                    id: str_or_empty_in(get_in(Some(item), "id")),
                    title,
                    url,
                    assignees,
                    labels,
                    column_id: column_id.clone(),
                };
                proof {
                    assert(one.deep_view() == item_of(nodes@[i as int]));
                }
                if !column_id.as_str().is_empty() {
                    proof {
                        lemma_items_len_le(nodes@.take(i as int));
                        lemma_count_le_len(items_of(nodes@.take(i as int)), column_id@);
                    }
                    bump_count(&mut counts, &column_id);
                }
                let ghost pre = items.deep_view();
                items.push(one);
                proof {
                    assert(items.deep_view() =~~= pre.push(item_of(nodes@[i as int])));
                    assert(items_of(nodes@.take(i + 1)) == items_of(nodes@.take(i as int)).push(
                        item_of(nodes@[i as int]),
                    ));
                    let ghost grown = items_of(nodes@.take(i as int)).push(
                        item_of(nodes@[i as int]),
                    );
                    assert(grown.drop_last() =~= items_of(nodes@.take(i as int)));
                    assert(grown.last() == item_of(nodes@[i as int]));
                    assert forall|id: Seq<char>| #![auto]
                        assoc_count(counts@, id) == (if id.len() == 0 {
                            0nat
                        } else {
                            count_with(items_of(nodes@.take(i + 1)), id)
                        }) by {
                        if id.len() > 0 {
                            assert(count_with(grown, id) == count_with(
                                items_of(nodes@.take(i as int)),
                                id,
                            ) + if item_of(nodes@[i as int]).column_id == id {
                                1nat
                            } else {
                                0nat
                            });
                        }
                    }
                }
            } else {
                proof {
                    assert(items_of(nodes@.take(i + 1)) == items_of(nodes@.take(i as int)));
                }
            }
            i = i + 1;
        }
        proof {
            assert(nodes@.take(n as int) =~= nodes@);
        }
        (items, counts)
    } else {
        proof {
            assert(item_nodes(*node) =~= Seq::<JsonValue>::empty());
            assert(items.deep_view() =~~= Seq::<ItemModel>::empty());
        }
        (items, counts)
    }
}

} // verus!
