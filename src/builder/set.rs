//! Query builder for card set requests.
use vstd::prelude::*;

use crate::builder::{Ordering, QueryBuilder, QueryModel};
use crate::filter::FilterMap;
use crate::pokemon_api_client::api_client::SetId;
use crate::text::views;

verus! {

/// Query builder for card set requests.
pub struct SetQueryBuilder {
    filters: FilterMap,
    page: Option<u32>,
    page_size: Option<u8>,
    order_by: Vec<Ordering>,
    select_fields: Vec<String>,
}

impl View for SetQueryBuilder {
    type V = QueryModel;

    closed spec fn view(&self) -> QueryModel {
        QueryModel {
            filters: self.filters@,
            page: self.page,
            page_size: self.page_size,
            order_by: self.order_by@,
            select_fields: views(self.select_fields@),
        }
    }
}

impl SetQueryBuilder {
    /// Sets the number of results per page.
    #[must_use]
    pub fn with_page_size(self, size: u8) -> (r: Self)
        ensures
            r@ == self@.with_page_size(size),
    {
        let mut b = self;
        b.page_size = Some(size);
        b
    }

    /// Sets the page the results start at.
    #[must_use]
    pub fn with_page(self, page: u32) -> (r: Self)
        ensures
            r@ == self@.with_page(page),
    {
        let mut b = self;
        b.page = Some(page);
        b
    }

    /// Adds a field to order the results by.
    #[must_use]
    pub fn add_ordering(self, ordering: Ordering) -> (r: Self)
        ensures
            r@ == self@.with_ordering(ordering),
    {
        let mut b = self;
        b.order_by.push(ordering);
        b
    }

    /// Adds a field to select: the results hold only the selected fields.
    #[must_use]
    pub fn add_select(self, field: &str) -> (r: Self)
        ensures
            r@ == self@.with_select(field@),
    {
        let mut b = self;
        b.select_fields.push(field.to_owned());
        assert(views(b.select_fields@) =~= views(self.select_fields@).push(field@));
        b
    }

    /// Filters by set id; used more than once, the ids are alternatives.
    #[must_use]
    pub fn add_id(self, id: &SetId) -> (r: Self)
        ensures
            r@ == self@.with_filter("id"@, id.0@),
    {
        self.add_or_update_filter("id", id.0.as_str())
    }

    /// Filters by set name, wildcards allowed; used more than once, the names
    /// are alternatives.
    #[must_use]
    pub fn add_name(self, name: &str) -> (r: Self)
        ensures
            r@ == self@.with_filter("name"@, name@),
    {
        self.add_or_update_filter("name", name)
    }

    /// Filters by series, wildcards allowed; used more than once, the series
    /// are alternatives.
    #[must_use]
    pub fn add_sub_series(self, series: &str) -> (r: Self)
        ensures
            r@ == self@.with_filter("series"@, series@),
    {
        self.add_or_update_filter("series", series)
    }

    /// Filters by Pokemon TCG Online code, wildcards allowed; used more than
    /// once, the codes are alternatives.
    #[must_use]
    pub fn add_ptcgo_code(self, ptcgo_code: &str) -> (r: Self)
        ensures
            r@ == self@.with_filter("ptcgoCode"@, ptcgo_code@),
    {
        self.add_or_update_filter("ptcgoCode", ptcgo_code)
    }

    fn add_or_update_filter(self, key: &str, value: &str) -> (r: Self)
        ensures
            r@ == self@.with_filter(key@, value@),
    {
        SetQueryBuilder {
            filters: self.filters.add_or_update(key, value),
            page: self.page,
            page_size: self.page_size,
            order_by: self.order_by,
            select_fields: self.select_fields,
        }
    }
}

impl QueryBuilder for SetQueryBuilder {
    fn new() -> (r: Self) {
        let r = SetQueryBuilder {
            filters: FilterMap::new(),
            page: None,
            page_size: None,
            order_by: Vec::new(),
            select_fields: Vec::new(),
        };
        assert(r@.select_fields =~= Seq::<Seq<char>>::empty());
        assert(r@.order_by =~= Seq::<Ordering>::empty());
        r
    }

    fn page(&self) -> (r: Option<u32>) {
        self.page
    }

    fn page_size(&self) -> (r: Option<u8>) {
        self.page_size
    }

    fn filters(&self) -> (r: &FilterMap) {
        &self.filters
    }

    fn order_by(&self) -> (r: &Vec<Ordering>) {
        &self.order_by
    }

    fn select_fields(&self) -> (r: &Vec<String>) {
        &self.select_fields
    }
}

} // verus!
