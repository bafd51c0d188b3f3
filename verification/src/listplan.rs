//! Bringing a list view up to date with the rows of a page: which shown items are
//! replaced, redrawn or kept, which are deleted, which rows are inserted, and where the
//! remembered selection is.
use vstd::prelude::*;

verus! {

/// What happens to a list item that has a row at its position.
#[derive(Clone, Copy, PartialEq, Eq, Structural, Debug)]
pub enum RowAction {
    /// The item shows another row: rewrite it.
    Replace,
    /// The item shows this row, whose texts changed: redraw it.
    Redraw,
    /// Nothing to do.
    Keep,
}

/// What a list item at a position does, given the row it showed and the row now there.
pub open spec fn spec_row_action(current: Option<u64>, id: u64, dirty: bool) -> RowAction {
    if current != Some(id) {
        RowAction::Replace
    } else if dirty {
        RowAction::Redraw
    } else {
        RowAction::Keep
    }
}

/// The items a list shows once `actions` are carried out on the items `current` and the
/// list is cut or filled up to the rows `ids`: a replaced item, and an inserted one, shows
/// its row; any other keeps what it showed.
pub open spec fn spec_items_after(current: Seq<Option<u64>>, actions: Seq<RowAction>, ids: Seq<u64>) -> Seq<Option<u64>> {
    Seq::new(ids.len(), |i: int| if i < actions.len() && actions[i] != RowAction::Replace { current[i] } else { Some(ids[i]) })
}

/// The work of one list update.
pub struct ListPlan {
    /// One action for each position shown before and still filled.
    pub actions: Vec<RowAction>,
    /// Items deleted from the end: positions `rows..existing`, last first.
    pub delete_count: usize,
    /// Rows inserted at the end: positions `existing..rows`.
    pub insert_from: usize,
    /// The last position whose row has the remembered selection's id.
    pub selected_index: Option<usize>,
}

/// Plans a list update. `current` holds, for each item shown, the id it stands for
/// (`None` when it could not be read); `ids` and `dirty` describe the rows in order.
/// Carried out, the plan leaves the list showing exactly the rows, in order, while
/// only items whose row changed are rewritten and only dirty ones redrawn.
pub fn list_update_plan(current: &Vec<Option<u64>>, ids: &Vec<u64>, dirty: &Vec<bool>, selected: Option<u64>) -> (r: ListPlan)
    requires
        ids@.len() == dirty@.len(),
    ensures
        ({
            let existing = current@.len();
            let rows = ids@.len();
            let common = if existing < rows { existing } else { rows };
            &&& r.actions@.len() == common
            &&& forall|i: int| 0 <= i < common ==> #[trigger] r.actions@[i] == spec_row_action(current@[i], ids@[i], dirty@[i])
            &&& r.delete_count == (if existing > rows { existing - rows } else { 0 })
            &&& r.insert_from == common
            &&& spec_items_after(current@, r.actions@, ids@) == ids@.map_values(|id: u64| Some(id))
            &&& match r.selected_index {
                Some(k) => k < rows && selected == Some(ids@[k as int])
                    && forall|j: int| k < j < rows ==> Some(#[trigger] ids@[j]) != selected,
                None => forall|j: int| 0 <= j < rows ==> Some(#[trigger] ids@[j]) != selected,
            }
        }),
{
    let existing = current.len();
    let rows = ids.len();
    let common = if existing < rows { existing } else { rows };
    let mut actions: Vec<RowAction> = Vec::new();
    let mut i: usize = 0;
    while i < common
        invariant
            common <= current@.len(),
            common <= ids@.len(),
            ids@.len() == dirty@.len(),
            i <= common,
            actions@.len() == i,
            forall|k: int| 0 <= k < i ==> #[trigger] actions@[k] == spec_row_action(current@[k], ids@[k], dirty@[k]),
        decreases common - i,
    {
        let action = if current[i] != Some(ids[i]) {
            RowAction::Replace
        } else if dirty[i] {
            RowAction::Redraw
        } else {
            RowAction::Keep
        };
        actions.push(action);
        i += 1;
    }
    let mut selected_index: Option<usize> = None;
    let mut j: usize = 0;
    while j < rows
        invariant
            rows == ids@.len(),
            j <= rows,
            match selected_index {
                Some(k) => k < j && selected == Some(ids@[k as int])
                    && forall|m: int| k < m < j ==> Some(#[trigger] ids@[m]) != selected,
                None => forall|m: int| 0 <= m < j ==> Some(#[trigger] ids@[m]) != selected,
            },
        decreases rows - j,
    {
        if selected == Some(ids[j]) {
            selected_index = Some(j);
        }
        j += 1;
    }
    proof {
        assert(spec_items_after(current@, actions@, ids@) =~= ids@.map_values(|id: u64| Some(id)));
    }
    ListPlan {
        actions,
        delete_count: if existing > rows { existing - rows } else { 0 },
        insert_from: common,
        selected_index,
    }
}

/// The selection remembered after an update: kept when some row still has it.
pub fn selection_after_update(selected: Option<u64>, selected_index: Option<usize>) -> (r: Option<u64>)
    ensures
        r == (if selected_index is Some { selected } else { None }),
{
    if selected_index.is_some() { selected } else { None }
}

/// The UTF-16 text handed back for a list cell: at most `capacity - 1` code units of the
/// text, then a NUL; nothing for a zero capacity.
pub fn callback_text(units: &Vec<u16>, capacity: usize) -> (r: Vec<u16>)
    ensures
        capacity == 0 ==> r@.len() == 0,
        capacity > 0 ==> r@ == units@.take(if units@.len() < capacity - 1 { units@.len() as int } else { capacity - 1 }).push(0u16),
{
    let mut out: Vec<u16> = Vec::new();
    if capacity == 0 {
        return out;
    }
    let limit = if units.len() < capacity - 1 { units.len() } else { capacity - 1 };
    let mut i: usize = 0;
    while i < limit
        invariant
            limit <= units@.len(),
            i <= limit,
            out@ == units@.take(i as int),
        decreases limit - i,
    {
        out.push(units[i]);
        i += 1;
        assert(out@ =~= units@.take(i as int));
    }
    out.push(0u16);
    out
}

} // verus!
