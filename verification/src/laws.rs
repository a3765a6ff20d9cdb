//! What holds of every list, whatever is done with it.

use crate::api::{listing_of, texts, Instruction, ListView, ListingView, ToDoList};
use crate::snapshot::{read_text, snapshot_text, FormatError};
use vstd::prelude::*;

verus! {

/// The tasks after a row of instructions, each carried out on what the one
/// before it left.
pub open spec fn apply_all<T>(insts: Seq<Instruction<T>>, tasks: Seq<T>) -> Seq<T>
    decreases insts.len(),
{
    if insts.len() == 0 {
        tasks
    } else {
        insts.last().apply(apply_all(insts.drop_last(), tasks))
    }
}

/// What `Print` shows once the task at `index` is taken out of a list.
pub open spec fn shown_after_remove(list: ToDoList<String>, index: usize) -> ListingView {
    listing_of(
        ListView {
            tasks: texts(Instruction::<String>::Remove(index).apply(list.tasks@)),
            name: list.name@,
        },
    )
}

/// After any row of `Add` instructions the list holds what it held before,
/// and behind that the added tasks in the order in which they were added. On
/// an empty list there are then as many tasks as instructions, and task `i`
/// is the one that instruction `i` added.
pub proof fn law_adds_keep_order<T>(insts: Seq<Instruction<T>>, tasks: Seq<T>)
    requires
        forall|i: int| 0 <= i < insts.len() ==> (#[trigger] insts[i]) is Add,
    ensures
        apply_all(insts, tasks).len() == tasks.len() + insts.len(),
        forall|i: int| 0 <= i < tasks.len() ==> apply_all(insts, tasks)[i] == tasks[i],
        forall|i: int|
            0 <= i < insts.len() ==> apply_all(insts, tasks)[tasks.len() + i]
                == (#[trigger] insts[i])->Add_0,
    decreases insts.len(),
{
    if insts.len() > 0 {
        let before = insts.drop_last();
        law_adds_keep_order(before, tasks);
        assert(insts.last() is Add);
        assert forall|i: int| 0 <= i < insts.len() implies apply_all(insts, tasks)[tasks.len()
            + i] == (#[trigger] insts[i])->Add_0 by {
            if i < before.len() {
                assert(before[i] == insts[i]);
            }
        }
    }
}

/// Taking a task out leaves one row less to show: the rows before it stay as
/// they were, and each row behind it moves up by one position.
pub proof fn law_remove_shows_the_others(list: ToDoList<String>, index: usize)
    requires
        1 <= index <= list.tasks@.len(),
    ensures
        shown_after_remove(list, index).rows.len() == list.tasks@.len() - 1,
        forall|k: int|
            0 <= k < index - 1 ==> (#[trigger] shown_after_remove(list, index).rows[k]) == (
                (k + 1) as nat,
                list.tasks@[k]@,
            ),
        forall|k: int|
            index - 1 <= k < list.tasks@.len() - 1 ==> (#[trigger] shown_after_remove(
                list,
                index,
            ).rows[k]) == ((k + 1) as nat, list.tasks@[k + 1]@),
{
}

/// Once a task is taken out, no row shows its text any more, as long as the
/// text stood at no other position of the list.
pub proof fn law_removed_text_is_gone(list: ToDoList<String>, index: usize)
    requires
        1 <= index <= list.tasks@.len(),
        forall|j: int|
            0 <= j < list.tasks@.len() && j != index - 1 ==> (#[trigger] list.tasks@[j])@
                != list.tasks@[index - 1]@,
    ensures
        forall|k: int|
            0 <= k < shown_after_remove(list, index).rows.len() ==> (
            #[trigger] shown_after_remove(list, index).rows[k]).1 != list.tasks@[index - 1]@,
{
    law_remove_shows_the_others(list, index);
    assert forall|k: int| 0 <= k < shown_after_remove(list, index).rows.len() implies (
    #[trigger] shown_after_remove(list, index).rows[k]).1 != list.tasks@[index - 1]@ by {
        if k < index - 1 {
            assert(list.tasks@[k]@ != list.tasks@[index - 1]@);
        } else {
            assert(list.tasks@[k + 1]@ != list.tasks@[index - 1]@);
        }
    }
}

/// A snapshot reads back as the list it was written for: the same tasks in
/// the same order, and the same name.
pub proof fn law_snapshot_reads_back(list: ListView, text: Seq<char>)
    requires
        snapshot_text(list) == Some(text),
    ensures
        read_text(text) == Ok::<ListView, FormatError>(list),
{
}

} // verus!
