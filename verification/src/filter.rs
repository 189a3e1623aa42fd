//! What a filter filters by: the values that came with the request, or
//! those of the widgets where none came.

use crate::table_state::{FilterState, FilterStateView};
use vstd::prelude::*;
use vstd::string::*;

verus! {

/// The filter for the results of a global search: the pattern, the column
/// and the case sensitivity that came with the request, each replaced by
/// what its widget shows where none came.
pub fn filter_matches_result(
    pattern: Option<String>,
    column: Option<i32>,
    case_sensitive: Option<bool>,
    filter_line_edit: &str,
    column_selector: i32,
    case_sensitive_button: bool,
) -> (filter: FilterState)
    ensures
        filter.deep_view() == (FilterStateView {
            text: match pattern {
                Some(pattern) => pattern@,
                None => filter_line_edit@,
            },
            column: match column {
                Some(column) => column,
                None => column_selector,
            },
            is_case_sensitive: match case_sensitive {
                Some(case_sensitive) => case_sensitive,
                None => case_sensitive_button,
            },
        }),
{
    let text = match pattern {
        Some(pattern) => pattern,
        None => filter_line_edit.to_owned(),
    };
    let column = match column {
        Some(column) => column,
        None => column_selector,
    };
    let is_case_sensitive = match case_sensitive {
        Some(case_sensitive) => case_sensitive,
        None => case_sensitive_button,
    };
    FilterState::new(text, column, is_case_sensitive)
}

/// The filter of the tree of the document, and whether the tree is to be
/// expanded once it is applied.
#[derive(Debug, PartialEq, Eq)]
pub struct TreeFilter {
    pub pattern: String,
    pub is_case_sensitive: bool,
    pub filter_by_folder: bool,
    pub expand_all: bool,
}

/// The filter of the tree of the document, from what its widgets show. The
/// tree is expanded where matches are to be expanded by themselves.
pub fn filter_files(
    filter_line_edit: &str,
    filter_by_folder_button: bool,
    case_sensitive_button: bool,
    autoexpand_matches_button: bool,
) -> (filter: TreeFilter)
    ensures
        filter.pattern@ == filter_line_edit@,
        filter.is_case_sensitive == case_sensitive_button,
        filter.filter_by_folder == filter_by_folder_button,
        filter.expand_all == autoexpand_matches_button,
{
    TreeFilter {
        pattern: filter_line_edit.to_owned(),
        is_case_sensitive: case_sensitive_button,
        filter_by_folder: filter_by_folder_button,
        expand_all: autoexpand_matches_button,
    }
}

} // verus!
