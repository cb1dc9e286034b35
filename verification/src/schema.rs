//! Schema discovery: given a raw board node, locate the single-select field
//! whose name equals the configured status-field name and read its options
//! as the ordered column list, plus the field-level id needed for mutation.

use vstd::prelude::*;
use crate::json::{
    arr_in, get_in, spec_arr, spec_arr_or_empty, spec_get, spec_str_or_empty, str_eq,
    str_or_empty_in, JsonValue,
};
use crate::model::{ColumnModel, ProjectColumn};

verus! {

/// The fields of the board's first view, in their returned order; no view,
/// or no field list, reads as no fields.
pub open spec fn view_fields(node: JsonValue) -> Seq<JsonValue> {
    let views = spec_arr_or_empty(spec_get(spec_get(node, "views"@), "nodes"@));
    if views.len() > 0 {
        spec_arr_or_empty(spec_get(spec_get(views[0], "fields"@), "nodes"@))
    } else {
        Seq::empty()
    }
}

/// Whether a field node is a candidate status field: its declared name
/// equals the configured name (case-sensitive, missing name reads as empty)
/// and it carries an option list, the mark of a single-select field.
pub open spec fn is_status_field(f: JsonValue, status_name: Seq<char>) -> bool {
    &&& spec_str_or_empty(spec_get(f, "name"@)) == status_name
    &&& spec_arr(spec_get(f, "options"@)) is Some
}

/// The first candidate status field, scanning in returned order.
pub open spec fn find_status_field(fields: Seq<JsonValue>, status_name: Seq<char>) -> Option<
    JsonValue,
>
    decreases fields.len(),
{
    if fields.len() == 0 {
        None
    } else if is_status_field(fields[0], status_name) {
        Some(fields[0])
    } else {
        find_status_field(fields.drop_first(), status_name)
    }
}

/// The column one option node stands for; counts start at zero and are
/// merged in later from the item extraction.
pub open spec fn column_of_option(opt: JsonValue) -> ColumnModel {
    ColumnModel {
        id: spec_str_or_empty(spec_get(opt, "id"@)),
        name: spec_str_or_empty(spec_get(opt, "name"@)),
        items_count: 0,
    }
}

/// The ordered column list of a board node: the options of the first
/// candidate status field, or none when no field matches.
pub open spec fn schema_columns(node: JsonValue, status_name: Seq<char>) -> Seq<ColumnModel> {
    match find_status_field(view_fields(node), status_name) {
        Some(f) => spec_arr_or_empty(spec_get(f, "options"@)).map_values(
            |o: JsonValue| column_of_option(o),
        ),
        None => Seq::empty(),
    }
}

/// The field-level id of the status field, empty when no field matches.
pub open spec fn schema_field_id(node: JsonValue, status_name: Seq<char>) -> Seq<char> {
    match find_status_field(view_fields(node), status_name) {
        Some(f) => spec_str_or_empty(spec_get(f, "id"@)),
        None => Seq::empty(),
    }
}

/// Index of the first candidate status field in `fields`, if any.
fn status_field_index(fields: &Vec<JsonValue>, status_name: &str) -> (r: Option<usize>)
    ensures
        match r {
            Some(i) => i < fields@.len() && find_status_field(fields@, status_name@) == Some(
                fields@[i as int],
            ) && is_status_field(fields@[i as int], status_name@),
            None => find_status_field(fields@, status_name@) is None,
        },
{
    let n = fields.len();
    let mut i: usize = 0;
    proof {
        assert(fields@.skip(0) =~= fields@);
    }
    while i < n
        invariant
            i <= n,
            n == fields@.len(),
            find_status_field(fields@, status_name@) == find_status_field(
                fields@.skip(i as int),
                status_name@,
            ),
        decreases n - i,
    {
        let f = &fields[i];
        let fname = str_or_empty_in(get_in(Some(f), "name"));
        let is_candidate = str_eq(fname.as_str(), status_name) && arr_in(
            get_in(Some(f), "options"),
        ).is_some();
        proof {
            assert(fields@.skip(i as int)[0] == fields@[i as int]);
            assert(fields@.skip(i as int).drop_first() =~= fields@.skip(i + 1));
        }
        if is_candidate {
            return Some(i);
        }
        i = i + 1;
    }
    proof {
        assert(fields@.skip(n as int) =~= Seq::<JsonValue>::empty());
    }
    None
}

/// Schema extraction over a raw board node. Returns the ordered column
/// list (counts zero) and the status field id; a board without a matching
/// field yields an empty list and an empty id, which is not an error.
pub fn extract_columns(node: &JsonValue, status_name: &str) -> (r: (Vec<ProjectColumn>, String))
    ensures
        r.0.deep_view() == schema_columns(*node, status_name@),
        r.1@ == schema_field_id(*node, status_name@),
{
    let mut columns: Vec<ProjectColumn> = Vec::new();
    if let Some(views) = arr_in(get_in(get_in(Some(node), "views"), "nodes")) {
        if views.len() > 0 {
            let first_view = &views[0];
            if let Some(fields) = arr_in(get_in(get_in(Some(first_view), "fields"), "nodes")) {
                proof {
                    assert(fields@ == view_fields(*node));
                }
                if let Some(fi) = status_field_index(fields, status_name) {
                    let f = &fields[fi];
                    let field_id = str_or_empty_in(get_in(Some(f), "id"));
                    let options = arr_in(get_in(Some(f), "options")).unwrap();
                    let m = options.len();
                    let mut j: usize = 0;
                    while j < m
                        invariant
                            j <= m,
                            m == options@.len(),
                            columns.deep_view() == options@.take(j as int).map_values(
                                |o: JsonValue| column_of_option(o),
                            ),
                        decreases m - j,
                    {
                        let opt = &options[j];
                        let col = ProjectColumn {
                            id: str_or_empty_in(get_in(Some(opt), "id")),
                            name: str_or_empty_in(get_in(Some(opt), "name")),
                            items_count: 0,
                        };
                        proof {
                            assert(col.deep_view() == column_of_option(options@[j as int]));
                        }
                        let ghost pre = columns.deep_view();
                        columns.push(col);
                        proof {
                            assert(columns.deep_view() =~~= pre.push(
                                column_of_option(options@[j as int]),
                            ));
                            assert(columns.deep_view() =~~= options@.take(j + 1).map_values(
                                |o: JsonValue| column_of_option(o),
                            ));
                        }
                        j = j + 1;
                    }
                    proof {
                        assert(options@.take(m as int) =~= options@);
                        assert(columns.deep_view() =~~= schema_columns(*node, status_name@));
                    }
                    return (columns, field_id);
                }
            }
        }
    }
    proof {
        assert(find_status_field(view_fields(*node), status_name@) is None);
        assert(columns.deep_view() =~~= Seq::<ColumnModel>::empty());
    }
    (columns, String::new())
}

/// Law: a board node with no view yields no columns and an empty status
/// field id.
pub proof fn lemma_no_views_no_schema(node: JsonValue, status_name: Seq<char>)
    requires
        spec_arr_or_empty(spec_get(spec_get(node, "views"@), "nodes"@)).len() == 0,
    ensures
        schema_columns(node, status_name) == Seq::<ColumnModel>::empty(),
        schema_field_id(node, status_name) == Seq::<char>::empty(),
{
    assert(view_fields(node) =~= Seq::<JsonValue>::empty());
    assert(find_status_field(view_fields(node), status_name) is None);
}

/// Law: when the first matching status field carries an empty option list,
/// the field id is still captured but the column list is empty.
pub proof fn lemma_empty_options_keep_field_id(
    node: JsonValue,
    status_name: Seq<char>,
    f: JsonValue,
)
    requires
        find_status_field(view_fields(node), status_name) == Some(f),
        spec_arr(spec_get(f, "options"@)) == Some(Seq::<JsonValue>::empty()),
    ensures
        schema_columns(node, status_name).len() == 0,
        schema_field_id(node, status_name) == spec_str_or_empty(spec_get(f, "id"@)),
{
}

} // verus!
