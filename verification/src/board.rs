//! The board sync facade: the pure half of every fetch. Given the decoded
//! response of the combined board query, run schema and item extraction,
//! merge the per-column counts into the column list, and assemble the
//! `ProjectData` aggregate. Also the single-page list parsers for
//! organizations and boards, and the per-organization fan-out aggregation.

use vstd::prelude::*;
use crate::error::ApiError;
use crate::items::{assoc_count, count_with, extract_items, item_nodes, items_of};
use crate::json::{
    arr_in, get_in, is_null_in, is_str_entry, spec_arr, spec_arr_or_empty, spec_get, spec_str,
    spec_str_or_empty, spec_u64, str_eq, str_in, str_or_empty_in, u64_in, JsonValue,
};
use crate::model::{
    ColumnModel, Organization, OrganizationModel, Project, ProjectColumn, ProjectData,
    ProjectDataModel, ProjectModel,
};
use crate::schema::{extract_columns, schema_columns, schema_field_id};

verus! {

/// The value of an unsigned-integer leaf, defaulting to zero.
pub open spec fn u64_or_zero(v: JsonValue) -> u64 {
    match spec_u64(v) {
        Some(n) => n,
        None => 0,
    }
}

/// The board node of a combined fetch response.
pub open spec fn board_node(response: JsonValue) -> JsonValue {
    spec_get(spec_get(response, "data"@), "node"@)
}

/// The board metadata of a board node; missing leaves read as defaults,
/// and the human-facing board number is truncated to 32 bits.
pub open spec fn project_of(node: JsonValue) -> ProjectModel {
    ProjectModel {
        id: spec_str_or_empty(spec_get(node, "id"@)),
        title: spec_str_or_empty(spec_get(node, "title"@)),
        number: ((u64_or_zero(spec_get(node, "number"@)) % 0x1_0000_0000) as u32),
        url: spec_str_or_empty(spec_get(node, "url"@)),
    }
}

/// The columns of a board after the count merge: each schema column carries
/// the number of items classified into it. Only non-empty ids are ever
/// recorded in the counts, so a column whose option had no id keeps zero.
pub open spec fn merged_columns(node: JsonValue, status_name: Seq<char>) -> Seq<ColumnModel> {
    schema_columns(node, status_name).map_values(
        |c: ColumnModel|
            ColumnModel {
                id: c.id,
                name: c.name,
                items_count: if c.id.len() == 0 {
                    0int
                } else {
                    count_with(items_of(item_nodes(node)), c.id) as int
                },
            },
    )
}

/// Everything one fetch of a board node produces; `hidden_columns` is left
/// empty for the caller to inject.
pub open spec fn board_data_of(node: JsonValue, status_name: Seq<char>) -> ProjectDataModel {
    ProjectDataModel {
        project: project_of(node),
        columns: merged_columns(node, status_name),
        items: items_of(item_nodes(node)),
        status_field_id: schema_field_id(node, status_name),
        hidden_columns: Seq::empty(),
    }
}

/// The merged count of one column id, read from the scratch counts list.
fn count_for(counts: &Vec<(String, usize)>, id: &String) -> (r: usize)
    ensures
        r as nat == assoc_count(counts@, id@),
{
    let n = counts.len();
    let mut i: usize = 0;
    proof {
        assert(counts@.skip(0) =~= counts@);
    }
    while i < n
        invariant
            i <= n,
            n == counts@.len(),
            assoc_count(counts@, id@) == assoc_count(counts@.skip(i as int), id@),
        decreases n - i,
    {
        let hit = str_eq(counts[i].0.as_str(), id.as_str());
        proof {
            assert(counts@.skip(i as int)[0] == counts@[i as int]);
            assert(counts@.skip(i as int).drop_first() =~= counts@.skip(i + 1));
        }
        if hit {
            return counts[i].1;
        }
        i = i + 1;
    }
    proof {
        assert(counts@.skip(n as int) =~= Seq::<(String, usize)>::empty());
    }
    0
}

/// The pure half of `fetchBoard`: assemble a board's data from the decoded
/// response of the combined query. A null board node — an id that does not
/// exist or is not visible to the token — is the one failure; extraction
/// itself never fails, it defaults.
pub fn project_data_from_response(response: &JsonValue, status_name: &str) -> (r: Result<
    ProjectData,
    ApiError,
>)
    ensures
        r is Err <==> board_node(*response) is Null,
        r matches Err(e) ==> e is NotFound,
        r matches Ok(d) ==> d@ == board_data_of(board_node(*response), status_name@),
{
    let node_opt = get_in(get_in(Some(response), "data"), "node");
    if is_null_in(node_opt) {
        return Err(ApiError::NotFound);
    }
    let node = node_opt.unwrap();
    let number_wide = match u64_in(get_in(Some(node), "number")) {
        Some(n) => n,
        None => 0,
    };
    let project = Project {
        id: str_or_empty_in(get_in(Some(node), "id")),
        title: str_or_empty_in(get_in(Some(node), "title")),
        number: ((number_wide % 0x1_0000_0000) as u32),
        url: str_or_empty_in(get_in(Some(node), "url")),
    };
    let (bare_columns, status_field_id) = extract_columns(node, status_name);
    let (items, counts) = extract_items(node);
    let mut columns: Vec<ProjectColumn> = Vec::new();
    let n = bare_columns.len();
    let mut i: usize = 0;
    while i < n
        invariant
            i <= n,
            n == bare_columns@.len(),
            bare_columns.deep_view() == schema_columns(*node, status_name@),
            forall|id: Seq<char>| #![auto]
                assoc_count(counts@, id) == if id.len() == 0 {
                    0nat
                } else {
                    count_with(items_of(item_nodes(*node)), id)
                },
            columns.deep_view() == merged_columns(*node, status_name@).take(i as int),
        decreases n - i,
    {
        let c = &bare_columns[i];
        let cnt = count_for(&counts, &c.id);
        let merged = ProjectColumn { id: c.id.clone(), name: c.name.clone(), items_count: cnt };
        let ghost pre = columns.deep_view();
        columns.push(merged);
        proof {
            assert(columns.deep_view() =~~= pre.push(merged_columns(*node, status_name@)[i as int]));
            assert(columns.deep_view() =~~= merged_columns(*node, status_name@).take(i + 1));
        }
        i = i + 1;
    }
    let data = ProjectData {
        project,
        columns,
        items,
        status_field_id,
        hidden_columns: Vec::new(),
    };
    proof {
        assert(data.columns.deep_view() =~~= merged_columns(*node, status_name@));
        assert(data.hidden_columns.deep_view() =~~= Seq::<Seq<char>>::empty());
        assert(data@ == board_data_of(board_node(*response), status_name@));
    }
    Ok(data)
}

/// Law: in every fetched board, a column with a non-empty id counts exactly
/// the items classified into it, and a column whose option carried no id
/// counts zero — unclassified items inflate no column.
pub proof fn lemma_column_count_invariant(node: JsonValue, status_name: Seq<char>, k: int)
    requires
        0 <= k < board_data_of(node, status_name).columns.len(),
    ensures
        board_data_of(node, status_name).columns[k].id.len() > 0 ==> board_data_of(
            node,
            status_name,
        ).columns[k].items_count == count_with(
            board_data_of(node, status_name).items,
            board_data_of(node, status_name).columns[k].id,
        ) as int,
        board_data_of(node, status_name).columns[k].id.len() == 0 ==> board_data_of(
            node,
            status_name,
        ).columns[k].items_count == 0,
{
}

/// Law: a fetch is a function of the response alone — two fetches of equal
/// responses yield board data equal in every field, so an unchanged remote
/// gives an unchanged result.
pub proof fn lemma_fetch_idempotent(r1: JsonValue, r2: JsonValue, status_name: Seq<char>)
    requires
        r1 == r2,
    ensures
        board_data_of(board_node(r1), status_name) == board_data_of(board_node(r2), status_name),
{
}

/// The organization one REST list element stands for; missing leaves read
/// as defaults.
pub open spec fn organization_of(o: JsonValue) -> OrganizationModel {
    OrganizationModel {
        id: u64_or_zero(spec_get(o, "id"@)),
        login: spec_str_or_empty(spec_get(o, "login"@)),
        name: spec_str(spec_get(o, "name"@)),
    }
}

/// The organizations of a REST list response.
pub open spec fn organizations_of(nodes: Seq<JsonValue>) -> Seq<OrganizationModel> {
    nodes.map_values(|o: JsonValue| organization_of(o))
}

/// Parse the REST organization list. The response must be an array — the
/// caller cannot proceed without this list, so a different shape is a hard
/// parse failure, not a default.
pub fn parse_organizations(response: &JsonValue) -> (r: Result<Vec<Organization>, ApiError>)
    ensures
        r is Ok <==> spec_arr(*response) is Some,
        r matches Ok(os) ==> os.deep_view() == organizations_of(spec_arr_or_empty(*response)),
        r matches Err(e) ==> (e matches ApiError::ParseError { detail } && detail@
            == "organizations response is not an array"@),
{
    if let Some(nodes) = response.as_arr() {
        let mut orgs: Vec<Organization> = Vec::new();
        let n = nodes.len();
        let mut i: usize = 0;
        while i < n
            invariant
                i <= n,
                n == nodes@.len(),
                orgs.deep_view() == organizations_of(nodes@.take(i as int)),
            decreases n - i,
        {
            let o = &nodes[i];
            let id = match u64_in(get_in(Some(o), "id")) {
                Some(v) => v,
                None => 0,
            };
            let org = Organization {
                id,
                login: str_or_empty_in(get_in(Some(o), "login")),
                name: str_in(get_in(Some(o), "name")),
            };
            let ghost pre = orgs.deep_view();
            orgs.push(org);
            proof {
                assert(orgs.deep_view() =~~= pre.push(organization_of(nodes@[i as int])));
                assert(orgs.deep_view() =~~= organizations_of(nodes@.take(i + 1)));
            }
            i = i + 1;
        }
        proof {
            assert(nodes@.take(n as int) =~= nodes@);
        }
        Ok(orgs)
    } else {
        Err(ApiError::ParseError { detail: "organizations response is not an array".to_owned() })
    }
}

/// The board-list nodes of a board-list response.
pub open spec fn projects_nodes_value(response: JsonValue) -> JsonValue {
    spec_get(
        spec_get(spec_get(spec_get(response, "data"@), "organization"@), "projectsV2"@),
        "nodes"@,
    )
}

/// The board one list node stands for, if all four leaves are present; a
/// node missing any of them stands for nothing and is dropped.
pub open spec fn project_entry(p: JsonValue) -> Option<ProjectModel> {
    if {
        &&& spec_str(spec_get(p, "id"@)) is Some
        &&& spec_str(spec_get(p, "title"@)) is Some
        &&& spec_u64(spec_get(p, "number"@)) is Some
        &&& spec_str(spec_get(p, "url"@)) is Some
    } {
        Some(
            ProjectModel {
                id: spec_str(spec_get(p, "id"@))->0,
                title: spec_str(spec_get(p, "title"@))->0,
                number: ((spec_u64(spec_get(p, "number"@))->0 % 0x1_0000_0000) as u32),
                url: spec_str(spec_get(p, "url"@))->0,
            },
        )
    } else {
        None
    }
}

/// The boards of a board-list response, keeping only well-formed nodes.
pub open spec fn projects_of(nodes: Seq<JsonValue>) -> Seq<ProjectModel>
    decreases nodes.len(),
{
    if nodes.len() == 0 {
        Seq::empty()
    } else {
        let prefix = projects_of(nodes.drop_last());
        match project_entry(nodes.last()) {
            Some(p) => prefix.push(p),
            None => prefix,
        }
    }
}

/// Parse an organization's board list. The node list must be an array —
/// a hard parse failure otherwise; a list element missing a leaf is
/// silently dropped.
pub fn parse_projects(response: &JsonValue) -> (r: Result<Vec<Project>, ApiError>)
    ensures
        r is Ok <==> spec_arr(projects_nodes_value(*response)) is Some,
        r matches Ok(ps) ==> ps.deep_view() == projects_of(
            spec_arr_or_empty(projects_nodes_value(*response)),
        ),
        r matches Err(e) ==> (e matches ApiError::ParseError { detail } && detail@
            == "projects response is not an array"@),
{
    let nodes_opt = arr_in(
        get_in(
            get_in(get_in(get_in(Some(response), "data"), "organization"), "projectsV2"),
            "nodes",
        ),
    );
    if let Some(nodes) = nodes_opt {
        let mut projects: Vec<Project> = Vec::new();
        let n = nodes.len();
        let mut i: usize = 0;
        while i < n
            invariant
                i <= n,
                n == nodes@.len(),
                nodes@ == spec_arr_or_empty(projects_nodes_value(*response)),
                projects.deep_view() == projects_of(nodes@.take(i as int)),
            decreases n - i,
        {
            let p = &nodes[i];
            let id = str_in(get_in(Some(p), "id"));
            let title = str_in(get_in(Some(p), "title"));
            let number = u64_in(get_in(Some(p), "number"));
            let url = str_in(get_in(Some(p), "url"));
            proof {
                assert(nodes@.take(i + 1).drop_last() =~= nodes@.take(i as int));
                assert(nodes@.take(i + 1).last() == nodes@[i as int]);
            }
            if id.is_some() && title.is_some() && number.is_some() && url.is_some() {
                let entry = Project {
                    id: id.unwrap(),
                    title: title.unwrap(),
                    number: ((number.unwrap() % 0x1_0000_0000) as u32),
                    url: url.unwrap(),
                };
                let ghost pre = projects.deep_view();
                projects.push(entry);
                proof {
                    assert(projects.deep_view() =~~= pre.push(
                        project_entry(nodes@[i as int])->0,
                    ));
                    assert(projects.deep_view() =~~= projects_of(nodes@.take(i + 1)));
                }
            }
            i = i + 1;
        }
        proof {
            assert(nodes@.take(n as int) =~= nodes@);
        }
        Ok(projects)
    } else {
        Err(ApiError::ParseError { detail: "projects response is not an array".to_owned() })
    }
}

/// A field-for-field copy of a board entry.
fn clone_project(p: &Project) -> (r: Project)
    ensures
        r@ == p@,
{
    Project {
        id: p.id.clone(),
        title: p.title.clone(),
        number: p.number,
        url: p.url.clone(),
    }
}

/// A field-for-field copy of a board list.
fn clone_projects(ps: &Vec<Project>) -> (r: Vec<Project>)
    ensures
        r.deep_view() == ps.deep_view(),
{
    let mut out: Vec<Project> = Vec::new();
    let n = ps.len();
    let mut i: usize = 0;
    while i < n
        invariant
            i <= n,
            n == ps@.len(),
            out.deep_view() == ps.deep_view().take(i as int),
        decreases n - i,
    {
        let ghost pre = out.deep_view();
        out.push(clone_project(&ps[i]));
        proof {
            assert(out.deep_view() =~~= pre.push(ps@[i as int].deep_view()));
            assert(out.deep_view() =~~= ps.deep_view().take(i + 1));
        }
        i = i + 1;
    }
    proof {
        assert(ps.deep_view().take(n as int) =~= ps.deep_view());
    }
    out
}

/// The joined result of the per-organization fan-out: each organization's
/// boards in organization order, a failed or empty branch contributing no
/// entry — and never aborting the others.
pub open spec fn fanout_boards(
    orgs: Seq<OrganizationModel>,
    results: Seq<Result<Vec<Project>, ApiError>>,
) -> Seq<(Seq<char>, Seq<ProjectModel>)>
    decreases orgs.len(),
{
    if orgs.len() == 0 || results.len() == 0 {
        Seq::empty()
    } else {
        let rest = fanout_boards(orgs.drop_last(), results.drop_last());
        match results.last() {
            Ok(ps) => if ps@.len() > 0 {
                rest.push((orgs.last().login, ps.deep_view()))
            } else {
                rest
            },
            Err(_) => rest,
        }
    }
}

/// Join the per-organization board-list results: one slot per organization,
/// in order; a branch that failed, or found no boards, is left out while
/// every other branch's boards are kept.
pub fn aggregate_org_projects(
    orgs: &Vec<Organization>,
    results: &Vec<Result<Vec<Project>, ApiError>>,
) -> (r: Vec<(String, Vec<Project>)>)
    requires
        orgs@.len() == results@.len(),
    ensures
        r.deep_view() == fanout_boards(orgs.deep_view(), results@),
{
    let mut out: Vec<(String, Vec<Project>)> = Vec::new();
    let n = orgs.len();
    let mut i: usize = 0;
    while i < n
        invariant
            i <= n,
            n == orgs@.len(),
            n == results@.len(),
            out.deep_view() == fanout_boards(
                orgs.deep_view().take(i as int),
                results@.take(i as int),
            ),
        decreases n - i,
    {
        proof {
            assert(orgs.deep_view().take(i + 1).drop_last() =~= orgs.deep_view().take(i as int));
            assert(results@.take(i + 1).drop_last() =~= results@.take(i as int));
            assert(orgs.deep_view().take(i + 1).last() == orgs@[i as int].deep_view());
            assert(results@.take(i + 1).last() == results@[i as int]);
        }
        match &results[i] {
            Ok(ps) => {
                if ps.len() > 0 {
                    let ghost pre = out.deep_view();
                    out.push((orgs[i].login.clone(), clone_projects(ps)));
                    proof {
                        assert(out.deep_view() =~~= pre.push(
                            (orgs@[i as int].login@, ps.deep_view()),
                        ));
                        assert(out.deep_view() =~~= fanout_boards(
                            orgs.deep_view().take(i + 1),
                            results@.take(i + 1),
                        ));
                    }
                } else {
                    proof {
                        assert(out.deep_view() =~~= fanout_boards(
                            orgs.deep_view().take(i + 1),
                            results@.take(i + 1),
                        ));
                    }
                }
            },
            Err(_) => {
                proof {
                    assert(out.deep_view() =~~= fanout_boards(
                        orgs.deep_view().take(i + 1),
                        results@.take(i + 1),
                    ));
                }
            },
        }
        i = i + 1;
    }
    proof {
        assert(orgs.deep_view().take(n as int) =~= orgs.deep_view());
        assert(results@.take(n as int) =~= results@);
    }
    out
}

/// Law: fan-out resilience — one failed branch costs only its own slot:
/// dropping that organization and its result leaves the aggregate
/// unchanged, so every other organization's boards survive the failure.
pub proof fn lemma_fanout_failure_isolated(
    orgs: Seq<OrganizationModel>,
    results: Seq<Result<Vec<Project>, ApiError>>,
    j: int,
)
    requires
        orgs.len() == results.len(),
        0 <= j < results.len(),
        results[j] is Err,
    ensures
        fanout_boards(orgs, results) == fanout_boards(orgs.remove(j), results.remove(j)),
    decreases orgs.len(),
{
    if j == orgs.len() - 1 {
        assert(orgs.remove(j) =~= orgs.drop_last());
        assert(results.remove(j) =~= results.drop_last());
    } else {
        assert(orgs.remove(j).last() == orgs.last());
        assert(results.remove(j).last() == results.last());
        assert(orgs.remove(j).drop_last() =~= orgs.drop_last().remove(j));
        assert(results.remove(j).drop_last() =~= results.drop_last().remove(j));
        lemma_fanout_failure_isolated(orgs.drop_last(), results.drop_last(), j);
    }
}

/// The variables of the board-list query.
pub fn org_projects_variables(org: &str) -> (r: JsonValue)
    ensures
        (r matches JsonValue::Obj(pairs) && pairs@.len() == 1 && is_str_entry(
            pairs@[0],
            "org"@,
            org@,
        )),
{
    let mut pairs: Vec<(String, JsonValue)> = Vec::new();
    pairs.push(("org".to_owned(), JsonValue::Str(org.to_owned())));
    JsonValue::Obj(pairs)
}

/// The variables of the combined board query.
pub fn board_variables(board_id: &str) -> (r: JsonValue)
    ensures
        (r matches JsonValue::Obj(pairs) && pairs@.len() == 1 && is_str_entry(
            pairs@[0],
            "projectId"@,
            board_id@,
        )),
{
    let mut pairs: Vec<(String, JsonValue)> = Vec::new();
    pairs.push(("projectId".to_owned(), JsonValue::Str(board_id.to_owned())));
    JsonValue::Obj(pairs)
}

} // verus!
