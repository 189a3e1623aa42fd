//! The configurable state of a table view: filter, search and column layout.

use vstd::prelude::*;
use vstd::string::*;

verus! {

/// The last state of the filter of a table view.
#[derive(Debug, PartialEq, Eq)]
pub struct FilterState {
    pub text: String,
    pub column: i32,
    pub is_case_sensitive: bool,
}

/// What a [`FilterState`] holds, as mathematical values.
pub struct FilterStateView {
    pub text: Seq<char>,
    pub column: i32,
    pub is_case_sensitive: bool,
}

impl DeepView for FilterState {
    type V = FilterStateView;

    open spec fn deep_view(&self) -> FilterStateView {
        FilterStateView {
            text: self.text@,
            column: self.column,
            is_case_sensitive: self.is_case_sensitive,
        }
    }
}

impl FilterState {
    /// Builds the filter state of a table view from its three parts.
    pub fn new(text: String, column: i32, is_case_sensitive: bool) -> (state: Self)
        ensures
            state.text == text,
            state.column == column,
            state.is_case_sensitive == is_case_sensitive,
    {
        Self { text, column, is_case_sensitive }
    }
}

impl Clone for FilterState {
    fn clone(&self) -> (copy: Self)
        ensures
            copy.deep_view() == self.deep_view(),
    {
        Self {
            text: self.text.clone(),
            column: self.column,
            is_case_sensitive: self.is_case_sensitive,
        }
    }
}

/// The last state of the search widget of a table view.
#[derive(Debug, PartialEq, Eq)]
pub struct SearchState {
    pub search_text: String,
    pub replace_text: String,
    pub column: i32,
    pub is_case_sensitive: bool,
}

/// What a [`SearchState`] holds, as mathematical values.
pub struct SearchStateView {
    pub search_text: Seq<char>,
    pub replace_text: Seq<char>,
    pub column: i32,
    pub is_case_sensitive: bool,
}

impl DeepView for SearchState {
    type V = SearchStateView;

    open spec fn deep_view(&self) -> SearchStateView {
        SearchStateView {
            search_text: self.search_text@,
            replace_text: self.replace_text@,
            column: self.column,
            is_case_sensitive: self.is_case_sensitive,
        }
    }
}

impl SearchState {
    /// Builds the search state of a table view from its four parts.
    pub fn new(
        search_text: String,
        replace_text: String,
        column: i32,
        is_case_sensitive: bool,
    ) -> (state: Self)
        ensures
            state.search_text == search_text,
            state.replace_text == replace_text,
            state.column == column,
            state.is_case_sensitive == is_case_sensitive,
    {
        Self { search_text, replace_text, column, is_case_sensitive }
    }
}

impl Clone for SearchState {
    fn clone(&self) -> (copy: Self)
        ensures
            copy.deep_view() == self.deep_view(),
    {
        Self {
            search_text: self.search_text.clone(),
            replace_text: self.replace_text.clone(),
            column: self.column,
            is_case_sensitive: self.is_case_sensitive,
        }
    }
}

/// The last state of the columns of a table view. In `sorting_column` the
/// flag is `false` for ascending and `true` for descending.
#[derive(Debug, PartialEq, Eq)]
pub struct ColumnsState {
    pub sorting_column: (i32, bool),
    pub visual_order: Vec<(i32, i32)>,
    pub hidden_columns: Vec<i32>,
}

/// What a [`ColumnsState`] holds, as mathematical values.
pub struct ColumnsStateView {
    pub sorting_column: (i32, bool),
    pub visual_order: Seq<(i32, i32)>,
    pub hidden_columns: Seq<i32>,
}

impl DeepView for ColumnsState {
    type V = ColumnsStateView;

    open spec fn deep_view(&self) -> ColumnsStateView {
        ColumnsStateView {
            sorting_column: self.sorting_column,
            visual_order: self.visual_order@,
            hidden_columns: self.hidden_columns@,
        }
    }
}

impl ColumnsState {
    /// Builds the column state of a table view from its three parts.
    pub fn new(
        sorting_column: (i32, bool),
        visual_order: Vec<(i32, i32)>,
        hidden_columns: Vec<i32>,
    ) -> (state: Self)
        ensures
            state.sorting_column == sorting_column,
            state.visual_order == visual_order,
            state.hidden_columns == hidden_columns,
    {
        Self { sorting_column, visual_order, hidden_columns }
    }
}

impl Clone for ColumnsState {
    fn clone(&self) -> (copy: Self)
        ensures
            copy.deep_view() == self.deep_view(),
    {
        let mut visual_order: Vec<(i32, i32)> = Vec::new();
        let mut i: usize = 0;
        while i < self.visual_order.len()
            invariant
                i <= self.visual_order.len(),
                visual_order@ == self.visual_order@.take(i as int),
            decreases self.visual_order.len() - i,
        {
            visual_order.push(self.visual_order[i]);
            i += 1;
        }
        let mut hidden_columns: Vec<i32> = Vec::new();
        let mut j: usize = 0;
        while j < self.hidden_columns.len()
            invariant
                j <= self.hidden_columns.len(),
                hidden_columns@ == self.hidden_columns@.take(j as int),
            decreases self.hidden_columns.len() - j,
        {
            hidden_columns.push(self.hidden_columns[j]);
            j += 1;
        }
        assert(self.visual_order@.take(self.visual_order.len() as int) == self.visual_order@);
        assert(self.hidden_columns@.take(self.hidden_columns.len() as int)
            == self.hidden_columns@);
        Self { sorting_column: self.sorting_column, visual_order, hidden_columns }
    }
}

/// The configurable state of one table view.
#[derive(Debug, PartialEq, Eq)]
pub struct TableState {
    pub filter_state: FilterState,
    pub search_state: SearchState,
    pub columns_state: ColumnsState,
}

/// What a [`TableState`] holds, as mathematical values.
pub struct TableStateView {
    pub filter_state: FilterStateView,
    pub search_state: SearchStateView,
    pub columns_state: ColumnsStateView,
}

impl DeepView for TableState {
    type V = TableStateView;

    open spec fn deep_view(&self) -> TableStateView {
        TableStateView {
            filter_state: self.filter_state.deep_view(),
            search_state: self.search_state.deep_view(),
            columns_state: self.columns_state.deep_view(),
        }
    }
}

/// The state of a table view that nobody has touched: no filter, no search,
/// no sorting column, every column shown in its own place.
pub open spec fn empty_table_state() -> TableStateView {
    TableStateView {
        filter_state: FilterStateView {
            text: Seq::<char>::empty(),
            column: 0,
            is_case_sensitive: false,
        },
        search_state: SearchStateView {
            search_text: Seq::<char>::empty(),
            replace_text: Seq::<char>::empty(),
            column: 0,
            is_case_sensitive: false,
        },
        columns_state: ColumnsStateView {
            sorting_column: (-1i32, false),
            visual_order: Seq::<(i32, i32)>::empty(),
            hidden_columns: Seq::<i32>::empty(),
        },
    }
}

impl TableState {
    /// A single untouched table state.
    pub fn new_empty() -> (state: Self)
        ensures
            state.deep_view() == empty_table_state(),
    {
        Self {
            filter_state: FilterState::new(String::new(), 0, false),
            search_state: SearchState::new(String::new(), String::new(), 0, false),
            columns_state: ColumnsState::new((-1, false), Vec::new(), Vec::new()),
        }
    }
}

impl Clone for TableState {
    fn clone(&self) -> (copy: Self)
        ensures
            copy.deep_view() == self.deep_view(),
    {
        Self {
            filter_state: self.filter_state.clone(),
            search_state: self.search_state.clone(),
            columns_state: self.columns_state.clone(),
        }
    }
}

} // verus!
