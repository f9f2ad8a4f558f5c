use crate::parse::all_digits;
use crate::parse::digits_value;
use crate::parse::parse_index;
use crate::store::CellStore;
use vstd::prelude::*;

verus! {

broadcast use vstd::string::to_string_from_display_ensures_for_str;

/// Everything a full-page render needs: the fixed title and message and
/// an owned snapshot of every cell.
pub struct IndexView {
    pub title: String,
    pub message: String,
    pub checkboxes: Vec<bool>,
}

/// The outcome of a toggle request: either one cell was flipped, or the
/// request named no cell and nothing changed.
#[derive(Clone, Copy, Debug, PartialEq, Eq, Structural)]
pub enum ToggleResponse {
    Toggled { index: usize, checked: bool },
    InvalidId,
}

/// The literal body of the response to a toggle request that named no
/// cell.
pub fn invalid_id_text() -> (r: String)
    ensures
        r@ == "Invalid ID"@,
{
    "Invalid ID".to_string()
}

/// The full-state view: a snapshot of the whole store together with the
/// page's fixed title and message. Cannot fail.
pub fn view_all(store: &CellStore) -> (r: IndexView)
    ensures
        r.title@ == "One Million Checkboxes"@,
        r.message@ == "Toggle the checkboxes!"@,
        r.checkboxes@.len() == store.n(),
{
    IndexView {
        title: "One Million Checkboxes".to_string(),
        message: "Toggle the checkboxes!".to_string(),
        checkboxes: store.snapshot(),
    }
}

/// One toggle request, from the raw path segment to the response: the
/// segment is parsed as a decimal index and the named cell is flipped.
/// A segment that is not a number, or that names no cell, yields
/// `InvalidId` and mutates nothing; a parse failure and an out-of-range
/// index are deliberately indistinguishable to the caller.
pub fn toggle_one(store: &CellStore, raw: &[u8]) -> (r: ToggleResponse)
    ensures
        (r is Toggled) <==> (raw@.len() > 0 && all_digits(raw@) && digits_value(raw@)
            < store.n()),
        (r matches ToggleResponse::Toggled { index, checked: _ } ==> index == digits_value(raw@)),
{
    proof {
        store.lemma_n_in_range();
    }
    match parse_index(raw) {
        Err(_) => ToggleResponse::InvalidId,
        Ok(index) => match store.toggle(index) {
            Ok(checked) => ToggleResponse::Toggled { index, checked },
            Err(_) => ToggleResponse::InvalidId,
        },
    }
}

} // verus!
