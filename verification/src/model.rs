//! The flat domain model the synchronization core produces: organizations,
//! boards ("projects"), columns, items, and the per-fetch aggregate.
//!
//! Each executable type has a ghost model (`...Model`) over mathematical
//! sequences, reached through `view`; all contracts in this crate speak of
//! those models.

use vstd::prelude::*;

verus! {

/// An organization the authenticated user belongs to.
#[derive(Debug, Clone, PartialEq, Eq)]
pub struct Organization {
    /// Numeric organization id.
    pub id: u64,
    /// Unique, stable login name.
    pub login: String,
    /// Optional display name.
    pub name: Option<String>,
}

pub ghost struct OrganizationModel {
    pub id: u64,
    pub login: Seq<char>,
    pub name: Option<Seq<char>>,
}

impl View for Organization {
    type V = OrganizationModel;

    open spec fn view(&self) -> OrganizationModel {
        OrganizationModel {
            id: self.id,
            login: self.login@,
            name: match self.name {
                Some(n) => Some(n@),
                None => None,
            },
        }
    }
}

impl DeepView for Organization {
    type V = OrganizationModel;

    open spec fn deep_view(&self) -> OrganizationModel {
        self.view()
    }
}

/// A board, identified by an opaque id; `number` is organization-scoped
/// and human-facing only.
#[derive(Debug, Clone, PartialEq, Eq)]
pub struct Project {
    /// Opaque node id.
    pub id: String,
    /// Board title.
    pub title: String,
    /// Board number within the organization.
    pub number: u32,
    /// Web URL of the board.
    pub url: String,
}

pub ghost struct ProjectModel {
    pub id: Seq<char>,
    pub title: Seq<char>,
    pub number: u32,
    pub url: Seq<char>,
}

impl View for Project {
    type V = ProjectModel;

    open spec fn view(&self) -> ProjectModel {
        ProjectModel { id: self.id@, title: self.title@, number: self.number, url: self.url@ }
    }
}

impl DeepView for Project {
    type V = ProjectModel;

    open spec fn deep_view(&self) -> ProjectModel {
        self.view()
    }
}

/// A Kanban column, backed by one option of the board's single-select
/// status field. `id` is the option id, not the field id.
#[derive(Debug, Clone, PartialEq, Eq)]
pub struct ProjectColumn {
    /// Option id: the column's identity within a fetch.
    pub id: String,
    /// Column name.
    pub name: String,
    /// Number of items currently classified into this column.
    pub items_count: usize,
}

pub ghost struct ColumnModel {
    pub id: Seq<char>,
    pub name: Seq<char>,
    pub items_count: int,
}

impl View for ProjectColumn {
    type V = ColumnModel;

    open spec fn view(&self) -> ColumnModel {
        ColumnModel { id: self.id@, name: self.name@, items_count: self.items_count as int }
    }
}

impl DeepView for ProjectColumn {
    type V = ColumnModel;

    open spec fn deep_view(&self) -> ColumnModel {
        self.view()
    }
}

/// A unit of work placed on the board. `column_id` references a
/// `ProjectColumn::id`, or is empty when the item is unclassified.
#[derive(Debug, Clone, PartialEq, Eq)]
pub struct ProjectItem {
    /// Opaque item id.
    pub id: String,
    /// Item title; a fixed placeholder when the source had none.
    pub title: String,
    /// Optional URL of the underlying issue or pull request.
    pub url: Option<String>,
    /// Assignee usernames, in source order.
    pub assignees: Vec<String>,
    /// Label names, in source order.
    pub labels: Vec<String>,
    /// Id of the column holding this item, or empty if unclassified.
    pub column_id: String,
}

pub ghost struct ItemModel {
    pub id: Seq<char>,
    pub title: Seq<char>,
    pub url: Option<Seq<char>>,
    pub assignees: Seq<Seq<char>>,
    pub labels: Seq<Seq<char>>,
    pub column_id: Seq<char>,
}

impl View for ProjectItem {
    type V = ItemModel;

    open spec fn view(&self) -> ItemModel {
        ItemModel {
            id: self.id@,
            title: self.title@,
            url: match self.url {
                Some(u) => Some(u@),
                None => None,
            },
            assignees: self.assignees.deep_view(),
            labels: self.labels.deep_view(),
            column_id: self.column_id@,
        }
    }
}

impl DeepView for ProjectItem {
    type V = ItemModel;

    open spec fn deep_view(&self) -> ItemModel {
        self.view()
    }
}

/// Everything one board fetch produces. A fetch-scoped, immutable value:
/// re-derived on every fetch, never incrementally patched. `hidden_columns`
/// is not remote data; the caller injects it after the fetch.
#[derive(Debug, Clone, PartialEq, Eq)]
pub struct ProjectData {
    /// Board metadata.
    pub project: Project,
    /// Columns in schema order, with merged item counts.
    pub columns: Vec<ProjectColumn>,
    /// Items in source order, null-content entries excluded.
    pub items: Vec<ProjectItem>,
    /// Field-level id of the status field, needed for mutation; empty when
    /// the board has no matching field.
    pub status_field_id: String,
    /// Caller-injected list of hidden column ids; empty as fetched.
    pub hidden_columns: Vec<String>,
}

pub ghost struct ProjectDataModel {
    pub project: ProjectModel,
    pub columns: Seq<ColumnModel>,
    pub items: Seq<ItemModel>,
    pub status_field_id: Seq<char>,
    pub hidden_columns: Seq<Seq<char>>,
}

impl View for ProjectData {
    type V = ProjectDataModel;

    open spec fn view(&self) -> ProjectDataModel {
        ProjectDataModel {
            project: self.project@,
            columns: self.columns.deep_view(),
            items: self.items.deep_view(),
            status_field_id: self.status_field_id@,
            hidden_columns: self.hidden_columns.deep_view(),
        }
    }
}

impl ProjectData {
    /// The one post-fetch injection point: replace the caller-owned hidden
    /// column list, leaving every fetched field untouched.
    pub fn set_hidden_columns(&mut self, hidden: Vec<String>)
        ensures
            final(self)@ == (ProjectDataModel { hidden_columns: hidden.deep_view(), ..old(self)@ }),
    {
        self.hidden_columns = hidden;
    }
}

} // verus!
