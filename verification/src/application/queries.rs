//! Query objects for read operations, and their builder.

use vstd::prelude::*;
use crate::json::JsonValue;

verus! {

/// A query for all agents.
#[derive(Debug, Clone)]
pub struct GetAllAgentsQuery {
    pub include_disabled: bool,
    pub sort_by: Option<AgentSortField>,
    pub sort_order: Option<SortOrder>,
}

/// A query for the most recent conversations.
#[derive(Debug, Clone)]
pub struct GetRecentConversationsQuery {
    pub limit: usize,
    pub include_messages: bool,
}

/// A query for all twins, filtered, sorted and paginated.
#[derive(Debug, Clone)]
pub struct GetAllTwinsQuery {
    pub twin_type: Option<String>,
    pub status_filter: Option<Vec<String>>,
    pub tag_filter: Option<Vec<String>>,
    pub sort_by: Option<TwinSortField>,
    pub sort_order: Option<SortOrder>,
    pub limit: Option<usize>,
    pub offset: Option<usize>,
}

/// A query for the twins of one type.
#[derive(Debug, Clone)]
pub struct GetTwinsByTypeQuery {
    pub twin_type: String,
    pub include_inactive: bool,
}

/// A query for all tools, of one category (by its name) if one is given.
#[derive(Debug, Clone)]
pub struct GetAllToolsQuery {
    pub category: Option<String>,
    pub enabled_only: bool,
    pub sort_by: Option<ToolSortField>,
    pub sort_order: Option<SortOrder>,
}

/// A query for the tools of one category, given by its name.
#[derive(Debug, Clone)]
pub struct GetToolsByCategoryQuery {
    pub category: String,
    pub enabled_only: bool,
}

/// A query for a tool by its name.
#[derive(Debug, Clone)]
pub struct GetToolByNameQuery {
    pub tool_name: String,
}

/// A query for which of the named tools are available.
#[derive(Debug, Clone)]
pub struct CheckToolAvailabilityQuery {
    pub tool_names: Vec<String>,
}

/// A query for the twins whose last synchronization is older than the
/// given number of hours.
#[derive(Debug, Clone)]
pub struct GetTwinsNeedingSyncQuery {
    pub hours_since_last_sync: u32,
    pub twin_type: Option<String>,
    pub limit: Option<usize>,
}

/// Sort direction.
#[derive(Debug, Clone, Copy, PartialEq, Eq)]
pub enum SortOrder {
    Asc,
    Desc,
}

/// The fields agents can be sorted by.
#[derive(Debug, Clone, Copy, PartialEq, Eq)]
pub enum AgentSortField {
    Name,
    CreatedAt,
    UpdatedAt,
}

/// The fields twins can be sorted by.
#[derive(Debug, Clone, Copy, PartialEq, Eq)]
pub enum TwinSortField {
    Name,
    Type,
    Status,
    CreatedAt,
    UpdatedAt,
    LastSync,
}

/// The fields tools can be sorted by.
#[derive(Debug, Clone, Copy, PartialEq, Eq)]
pub enum ToolSortField {
    Name,
    Category,
    CreatedAt,
    UpdatedAt,
}

/// A condition on one property of a twin.
#[derive(Debug)]
pub struct PropertyFilter {
    pub property_name: String,
    pub operator: FilterOperator,
    pub value: JsonValue,
}

/// How a property is compared with a filter's value.
#[derive(Debug, Clone, Copy, PartialEq, Eq)]
pub enum FilterOperator {
    Equals,
    NotEquals,
    GreaterThan,
    LessThan,
    GreaterThanOrEqual,
    LessThanOrEqual,
    Contains,
    StartsWith,
    EndsWith,
    In,
    NotIn,
}

/// A page request: pages are numbered from 1.
#[derive(Debug, Clone, Copy)]
pub struct PaginationParams {
    pub page: u32,
    pub page_size: u32,
}

impl Default for PaginationParams {
    /// The first page of twenty.
    fn default() -> (p: Self)
        ensures
            p.page == 1,
            p.page_size == 20,
    {
        PaginationParams { page: 1, page_size: 20 }
    }
}

impl PaginationParams {
    /// The index of the first item of the page; the page is at least 1
    /// and the offset fits in `u32`.
    pub fn offset(&self) -> (o: usize)
        requires
            self.page >= 1,
            (self.page - 1) * self.page_size <= u32::MAX,
        ensures
            o == (self.page - 1) * self.page_size,
    {
        let p = self.page - 1;
        let o: u32 = p * self.page_size;
        o as usize
    }

    /// The number of items on a page.
    pub fn limit(&self) -> (l: usize)
        ensures
            l == self.page_size,
    {
        self.page_size as usize
    }
}

/// Builds a `GetAllTwinsQuery` step by step.
#[derive(Debug)]
pub struct TwinQueryBuilder {
    pub twin_type: Option<String>,
    pub status_filter: Option<Vec<String>>,
    pub tag_filter: Option<Vec<String>>,
    pub property_filters: Vec<PropertyFilter>,
    pub sort_by: Option<TwinSortField>,
    pub sort_order: Option<SortOrder>,
    pub limit: Option<usize>,
    pub offset: Option<usize>,
}

/// Whether `b` asks for nothing yet.
pub open spec fn is_blank(b: TwinQueryBuilder) -> bool {
    &&& b.twin_type is None
    &&& b.status_filter is None
    &&& b.tag_filter is None
    &&& b.property_filters@.len() == 0
    &&& b.sort_by is None
    &&& b.sort_order is None
    &&& b.limit is None
    &&& b.offset is None
}

impl TwinQueryBuilder {
    /// A builder that asks for nothing yet.
    pub fn new() -> (b: Self)
        ensures
            is_blank(b),
    {
        TwinQueryBuilder {
            twin_type: None,
            status_filter: None,
            tag_filter: None,
            property_filters: Vec::new(),
            sort_by: None,
            sort_order: None,
            limit: None,
            offset: None,
        }
    }

    /// Restricts the query to one twin type.
    pub fn with_type(self, twin_type: String) -> (b: Self)
        ensures
            b == (TwinQueryBuilder { twin_type: Some(twin_type), ..self }),
    {
        let mut b = self;
        b.twin_type = Some(twin_type);
        b
    }

    /// Restricts the query to the given states.
    pub fn with_status(self, status: Vec<String>) -> (b: Self)
        ensures
            b == (TwinQueryBuilder { status_filter: Some(status), ..self }),
    {
        let mut b = self;
        b.status_filter = Some(status);
        b
    }

    /// Restricts the query to the given tags.
    pub fn with_tags(self, tags: Vec<String>) -> (b: Self)
        ensures
            b == (TwinQueryBuilder { tag_filter: Some(tags), ..self }),
    {
        let mut b = self;
        b.tag_filter = Some(tags);
        b
    }

    /// Adds a property condition.
    pub fn with_property_filter(self, filter: PropertyFilter) -> (b: Self)
        ensures
            b.property_filters@ == self.property_filters@.push(filter),
            b.twin_type == self.twin_type,
            b.status_filter == self.status_filter,
            b.tag_filter == self.tag_filter,
            b.sort_by == self.sort_by,
            b.sort_order == self.sort_order,
            b.limit == self.limit,
            b.offset == self.offset,
    {
        let mut b = self;
        b.property_filters.push(filter);
        b
    }

    /// Sorts the results by `field` in direction `order`.
    pub fn sort_by(self, field: TwinSortField, order: SortOrder) -> (b: Self)
        ensures
            b == (TwinQueryBuilder { sort_by: Some(field), sort_order: Some(order), ..self }),
    {
        let mut b = self;
        b.sort_by = Some(field);
        b.sort_order = Some(order);
        b
    }

    /// Takes at most `limit` results after skipping `offset`.
    pub fn paginate(self, limit: usize, offset: usize) -> (b: Self)
        ensures
            b == (TwinQueryBuilder { limit: Some(limit), offset: Some(offset), ..self }),
    {
        let mut b = self;
        b.limit = Some(limit);
        b.offset = Some(offset);
        b
    }

    /// The query asked for; property conditions are not part of it.
    pub fn build(self) -> (q: GetAllTwinsQuery)
        ensures
            q == (GetAllTwinsQuery {
                twin_type: self.twin_type,
                status_filter: self.status_filter,
                tag_filter: self.tag_filter,
                sort_by: self.sort_by,
                sort_order: self.sort_order,
                limit: self.limit,
                offset: self.offset,
            }),
    {
        GetAllTwinsQuery {
            twin_type: self.twin_type,
            status_filter: self.status_filter,
            tag_filter: self.tag_filter,
            sort_by: self.sort_by,
            sort_order: self.sort_order,
            limit: self.limit,
            offset: self.offset,
        }
    }
}

impl Default for TwinQueryBuilder {
    /// A builder that asks for nothing yet.
    fn default() -> (b: Self)
        ensures
            is_blank(b),
    {
        TwinQueryBuilder::new()
    }
}

} // verus!
