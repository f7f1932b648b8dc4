//! Query builder for trainer card requests.
use vstd::prelude::*;

use crate::builder::{Ordering, QueryBuilder, QueryModel};
use crate::filter::FilterMap;
use crate::pokemon_api_client::api_client::CardId;
use crate::text::views;

verus! {

/// Query builder for trainer card requests.
pub struct TrainerQueryBuilder {
    filters: FilterMap,
    page: Option<u32>,
    page_size: Option<u8>,
    order_by: Vec<Ordering>,
    select_fields: Vec<String>,
}

impl View for TrainerQueryBuilder {
    type V = QueryModel;

    closed spec fn view(&self) -> QueryModel {
        QueryModel {
            filters: self.filters@,
            page: self.page,
            page_size: self.page_size,
            order_by: self.order_by@,
            select_fields: views(self.select_fields@),
        }
    }
}

impl TrainerQueryBuilder {
    /// Sets the number of results per page.
    #[must_use]
    pub fn with_page_size(self, size: u8) -> (r: Self)
        ensures
            r@ == self@.with_page_size(size),
    {
        let mut b = self;
        b.page_size = Some(size);
        b
    }

    /// Sets the page the results start at.
    #[must_use]
    pub fn with_page(self, page: u32) -> (r: Self)
        ensures
            r@ == self@.with_page(page),
    {
        let mut b = self;
        b.page = Some(page);
        b
    }

    /// Adds a field to order the results by.
    #[must_use]
    pub fn add_ordering(self, ordering: Ordering) -> (r: Self)
        ensures
            r@ == self@.with_ordering(ordering),
    {
        let mut b = self;
        b.order_by.push(ordering);
        b
    }

    /// Adds a field to select: the results hold only the selected fields.
    #[must_use]
    pub fn add_select(self, field: &str) -> (r: Self)
        ensures
            r@ == self@.with_select(field@),
    {
        let mut b = self;
        b.select_fields.push(field.to_owned());
        assert(views(b.select_fields@) =~= views(self.select_fields@).push(field@));
        b
    }

    /// Filters by card id; used more than once, the ids are alternatives.
    #[must_use]
    pub fn add_id(self, id: &CardId) -> (r: Self)
        ensures
            r@ == self@.with_filter("id"@, id.0@),
    {
        self.add_or_update_filter("id", id.0.as_str())
    }

    /// Filters by card name, wildcards allowed; used more than once, the names
    /// are alternatives.
    #[must_use]
    pub fn add_name(self, name: &str) -> (r: Self)
        ensures
            r@ == self@.with_filter("name"@, name@),
    {
        self.add_or_update_filter("name", name)
    }

    /// Filters by the series of the card's set, wildcards allowed; used more
    /// than once, the series are alternatives.
    #[must_use]
    pub fn add_set_series(self, set_series: &str) -> (r: Self)
        ensures
            r@ == self@.with_filter("set.series"@, set_series@),
    {
        self.add_or_update_filter("set.series", set_series)
    }

    fn add_or_update_filter(self, key: &str, value: &str) -> (r: Self)
        ensures
            r@ == self@.with_filter(key@, value@),
    {
        TrainerQueryBuilder {
            filters: self.filters.add_or_update(key, value),
            page: self.page,
            page_size: self.page_size,
            order_by: self.order_by,
            select_fields: self.select_fields,
        }
    }
}

impl QueryBuilder for TrainerQueryBuilder {
    fn new() -> (r: Self) {
        let r = TrainerQueryBuilder {
            filters: FilterMap::new(),
            page: None,
            page_size: None,
            order_by: Vec::new(),
            select_fields: Vec::new(),
        };
        assert(r@.select_fields =~= Seq::<Seq<char>>::empty());
        assert(r@.order_by =~= Seq::<Ordering>::empty());
        r
    }

    fn page(&self) -> (r: Option<u32>) {
        self.page
    }

    fn page_size(&self) -> (r: Option<u8>) {
        self.page_size
    }

    fn filters(&self) -> (r: &FilterMap) {
        &self.filters
    }

    fn order_by(&self) -> (r: &Vec<Ordering>) {
        &self.order_by
    }

    fn select_fields(&self) -> (r: &Vec<String>) {
        &self.select_fields
    }
}

} // verus!
