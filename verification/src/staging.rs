//! The staging list: the drafts that wait for the next commit, in the order
//! in which they were added.
//!
//! The list is the selection view that shows it. The functions here are the
//! only ones through which the library reads or changes it.

use vstd::prelude::*;
use cursive::views::SelectView;
use crate::item::{display_text, Item, ItemView};

verus! {

/// `cursive::views::SelectView`, the list view of the screen. Nothing is
/// known of what it holds but through [`rows`].
#[verifier::external_type_specification]
#[verifier::external_body]
#[verifier::reject_recursive_types(T)]
pub struct ExSelectView<T>(SelectView<T>);

/// The rows of a list, first row first: for each row the label it shows and
/// the record it holds.
pub uninterp spec fn rows(list: SelectView<Item>) -> Seq<(Seq<char>, ItemView)>;

/// The records of a list, in order, without their labels.
pub open spec fn staged(list: SelectView<Item>) -> Seq<ItemView> {
    rows(list).map_values(|row: (Seq<char>, ItemView)| row.1)
}

/// The row that shows a record under its display text.
pub open spec fn row_of(record: ItemView) -> (Seq<char>, ItemView) {
    (display_text(record), record)
}

/// The records of a sequence of drafts.
pub open spec fn views_of(drafts: Seq<Item>) -> Seq<ItemView> {
    drafts.map_values(|draft: Item| draft@)
}

/// Calls `SelectView::new`.
///
/// Trusted: the new view holds no row.
#[verifier::external_body]
fn view_new() -> (list: SelectView<Item>)
    ensures
        rows(list) == Seq::<(Seq<char>, ItemView)>::empty(),
{
    SelectView::new()
}

/// Calls `SelectView::len`.
///
/// Trusted: it returns the number of rows.
#[verifier::external_body]
fn view_len(list: &SelectView<Item>) -> (count: usize)
    ensures
        count == rows(*list).len(),
{
    list.len()
}

/// Calls `SelectView::add_item`.
///
/// Trusted: it puts one row after the last, with the given label and record,
/// and leaves the other rows as they were.
#[verifier::external_body]
fn view_add_item(list: &mut SelectView<Item>, label: String, record: Item)
    ensures
        rows(*final(list)) == rows(*old(list)).push((label@, record@)),
{
    list.add_item(label, record);
}

/// Calls `SelectView::get_item` and keeps the record of the row it returns.
///
/// Trusted: it returns the record of the row at `index`, counted from zero,
/// and nothing where the list has no such row.
#[verifier::external_body]
fn view_get_item(list: &SelectView<Item>, index: usize) -> (record: Option<&Item>)
    ensures
        index < rows(*list).len() ==> record is Some && record->0@ == rows(*list)[index as int].1,
        index >= rows(*list).len() ==> record is None,
{
    list.get_item(index).map(|row| row.1)
}

/// Calls `SelectView::remove_item` and drops the callback it returns.
///
/// Trusted: it takes out the row at `index` and keeps the others in their
/// order. It panics where the list has no such row, which `requires` rules out.
#[verifier::external_body]
fn view_remove_item(list: &mut SelectView<Item>, index: usize)
    requires
        index < rows(*old(list)).len(),
    ensures
        rows(*final(list)) == rows(*old(list)).remove(index as int),
{
    let _ = list.remove_item(index);
}

/// Calls `SelectView::clear`.
///
/// Trusted: it takes out every row.
#[verifier::external_body]
fn view_clear(list: &mut SelectView<Item>)
    ensures
        rows(*final(list)) == Seq::<(Seq<char>, ItemView)>::empty(),
{
    list.clear();
}

/// Calls `SelectView::selected_id`.
///
/// Trusted: it returns nothing exactly when the list is empty. Which row is
/// selected otherwise depends on what the user did, so nothing is said of it.
#[verifier::external_body]
fn view_selected_id(list: &SelectView<Item>) -> (selected: Option<usize>)
    ensures
        selected is None <==> rows(*list).len() == 0,
{
    list.selected_id()
}

/// An empty staging list.
pub fn new_list() -> (list: SelectView<Item>)
    ensures
        rows(list).len() == 0,
        staged(list) == Seq::<ItemView>::empty(),
{
    let list = view_new();
    assert(staged(list) =~= Seq::<ItemView>::empty());
    list
}

/// Adds a draft at the end of the list, under its display text.
pub fn append(list: &mut SelectView<Item>, record: Item)
    ensures
        rows(*final(list)) == rows(*old(list)).push(row_of(record@)),
        staged(*final(list)) == staged(*old(list)).push(record@),
{
    let label = record.to_string();
    view_add_item(list, label, record);
    proof {
        assert(staged(*list) =~= staged(*old(list)).push(record@));
    }
}

/// Takes the draft at `index` out of the list. Where the list has no row at
/// `index`, it is left as it is.
pub fn remove_at(list: &mut SelectView<Item>, index: usize)
    ensures
        rows(*final(list)) == if index < rows(*old(list)).len() {
            rows(*old(list)).remove(index as int)
        } else {
            rows(*old(list))
        },
        staged(*final(list)) == if index < staged(*old(list)).len() {
            staged(*old(list)).remove(index as int)
        } else {
            staged(*old(list))
        },
{
    if index < view_len(list) {
        view_remove_item(list, index);
        proof {
            assert(staged(*list) =~= staged(*old(list)).remove(index as int));
        }
    }
}

/// The number of drafts in the list.
pub fn len(list: &SelectView<Item>) -> (count: usize)
    ensures
        count == rows(*list).len(),
        count == staged(*list).len(),
{
    view_len(list)
}

/// Which row is selected, if the list has any row.
pub fn selected_id(list: &SelectView<Item>) -> (selected: Option<usize>)
    ensures
        selected is None <==> staged(*list).len() == 0,
{
    view_selected_id(list)
}

/// A copy of the drafts in the list, in their order. Later changes of the
/// list do not reach the copy.
pub fn snapshot(list: &SelectView<Item>) -> (drafts: Vec<Item>)
    ensures
        views_of(drafts@) == staged(*list),
{
    let count = view_len(list);
    let mut drafts: Vec<Item> = Vec::new();
    let mut index: usize = 0;
    while index < count
        invariant
            index <= count,
            count == rows(*list).len(),
            drafts@.len() == index,
            forall|k: int| 0 <= k < index ==> (#[trigger] drafts@[k])@ == rows(*list)[k].1,
        decreases count - index,
    {
        match view_get_item(list, index) {
            Some(record) => {
                drafts.push(record.clone());
            },
            None => {
                assert(false);
            },
        }
        index = index + 1;
    }
    proof {
        assert(views_of(drafts@) =~= staged(*list));
    }
    drafts
}

/// Empties the list.
pub fn clear(list: &mut SelectView<Item>)
    ensures
        rows(*final(list)).len() == 0,
        staged(*final(list)) == Seq::<ItemView>::empty(),
{
    view_clear(list);
    proof {
        assert(staged(*list) =~= Seq::<ItemView>::empty());
    }
}

/// Adding drafts one after another to a list that was empty leaves exactly
/// those drafts in it: as many as were added, in the order in which they were
/// added. `lists[k]` is the list after `k` additions, and each addition does
/// what [`append`] does: it puts `drafts[k]` behind the drafts that are there.
pub proof fn lemma_appended_in_order(lists: Seq<SelectView<Item>>, drafts: Seq<ItemView>)
    requires
        lists.len() == drafts.len() + 1,
        staged(lists[0]).len() == 0,
        forall|k: int|
            0 <= k < drafts.len() ==> staged(#[trigger] lists[k + 1]) == staged(lists[k]).push(
                drafts[k],
            ),
    ensures
        staged(lists.last()) == drafts,
        staged(lists.last()).len() == drafts.len(),
{
    lemma_appended_upto(lists, drafts, drafts.len() as int);
    assert(drafts.take(drafts.len() as int) =~= drafts);
}

/// After `n` additions the list holds the first `n` drafts.
proof fn lemma_appended_upto(lists: Seq<SelectView<Item>>, drafts: Seq<ItemView>, n: int)
    requires
        lists.len() == drafts.len() + 1,
        staged(lists[0]).len() == 0,
        forall|k: int|
            0 <= k < drafts.len() ==> staged(#[trigger] lists[k + 1]) == staged(lists[k]).push(
                drafts[k],
            ),
        0 <= n <= drafts.len(),
    ensures
        staged(lists[n]) == drafts.take(n),
    decreases n,
{
    if n == 0 {
        assert(staged(lists[0]) =~= drafts.take(0));
    } else {
        lemma_appended_upto(lists, drafts, n - 1);
        assert(staged(lists[n - 1 + 1]) == staged(lists[n - 1]).push(drafts[n - 1]));
        assert(drafts.take(n - 1).push(drafts[n - 1]) =~= drafts.take(n));
    }
}

/// Taking out the draft at `index`, as [`remove_at`] does, leaves one draft
/// fewer and the others in the order they had: those before `index` keep
/// their place, those behind it move up by one.
pub proof fn lemma_removal_keeps_order(
    before: SelectView<Item>,
    after: SelectView<Item>,
    index: int,
)
    requires
        0 <= index < staged(before).len(),
        staged(after) == staged(before).remove(index),
    ensures
        staged(after).len() == staged(before).len() - 1,
        forall|k: int| 0 <= k < index ==> #[trigger] staged(after)[k] == staged(before)[k],
        forall|k: int|
            index <= k < staged(after).len() ==> #[trigger] staged(after)[k] == staged(before)[k
                + 1],
{
}

} // verus!
