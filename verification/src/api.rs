//! The list of tasks and the instructions that change it.

use vstd::prelude::*;

verus! {

/// One request against a list. Positions count from 1.
#[derive(Debug, PartialEq, Eq)]
pub enum Instruction<T> {
    /// Put a task at the end.
    Add(T),
    /// Take out the task at a position.
    Remove(usize),
    /// Put a task in the place of the one at a position.
    Modify(usize, T),
    /// Show the tasks.
    Print,
}

impl<T> Instruction<T> {
    /// Whether a list of `len` tasks has the position that the instruction
    /// names. An instruction that names none fits every list.
    pub open spec fn fits(self, len: nat) -> bool {
        match self {
            Instruction::Remove(index) => 1 <= index <= len,
            Instruction::Modify(index, _) => 1 <= index <= len,
            _ => true,
        }
    }

    /// The position that the instruction names, 0 where it names none.
    pub open spec fn position(self) -> usize {
        match self {
            Instruction::Remove(index) => index,
            Instruction::Modify(index, _) => index,
            _ => 0,
        }
    }

    /// The tasks after the instruction. One that does not fit leaves them as
    /// they are.
    pub open spec fn apply(self, tasks: Seq<T>) -> Seq<T> {
        if !self.fits(tasks.len()) {
            tasks
        } else {
            match self {
                Instruction::Add(task) => tasks.push(task),
                Instruction::Remove(index) => tasks.remove(index - 1),
                Instruction::Modify(index, task) => tasks.update(index - 1, task),
                Instruction::Print => tasks,
            }
        }
    }
}

impl View for Instruction<String> {
    type V = Instruction<Seq<char>>;

    /// The same instruction over the characters of its text.
    open spec fn view(&self) -> Instruction<Seq<char>> {
        match *self {
            Instruction::Add(task) => Instruction::Add(task@),
            Instruction::Remove(index) => Instruction::Remove(index),
            Instruction::Modify(index, task) => Instruction::Modify(index, task@),
            Instruction::Print => Instruction::Print,
        }
    }
}

/// The one way an instruction fails: it names a position that the list does
/// not have.
#[derive(Debug, Clone, Copy, PartialEq, Eq, Structural)]
pub struct IndexOutOfRange {
    /// The position that was asked for.
    pub index: usize,
    /// How many tasks the list held.
    pub len: usize,
}

/// An ordered list of tasks and the name of its owner. A task may occur more
/// than once, and may be empty.
#[derive(Debug, PartialEq, Eq)]
pub struct ToDoList<T> {
    /// The tasks, in the order in which they were added.
    pub tasks: Vec<T>,
    /// The owner's name.
    pub name: String,
}

/// A list of texts, over their characters.
pub struct ListView {
    pub tasks: Seq<Seq<char>>,
    pub name: Seq<char>,
}

/// The characters of each task.
pub open spec fn texts(tasks: Seq<String>) -> Seq<Seq<char>> {
    tasks.map_values(|task: String| task@)
}

impl View for ToDoList<String> {
    type V = ListView;

    open spec fn view(&self) -> ListView {
        ListView { tasks: texts(self.tasks@), name: self.name@ }
    }
}

/// What `Print` shows: a heading, and under it one row for each task, with
/// the task's position and its text. For a list without tasks the heading
/// says so, and there is no row.
#[derive(Debug, PartialEq, Eq)]
pub struct Listing {
    /// The line above the rows, or the line that stands in their place.
    pub heading: String,
    /// For each task its position, counted from 1, and its text.
    pub rows: Vec<(usize, String)>,
}

/// A listing, over the characters of its texts.
pub struct ListingView {
    pub heading: Seq<char>,
    pub rows: Seq<(nat, Seq<char>)>,
}

impl View for Listing {
    type V = ListingView;

    open spec fn view(&self) -> ListingView {
        ListingView {
            heading: self.heading@,
            rows: self.rows@.map_values(|row: (usize, String)| (row.0 as nat, row.1@)),
        }
    }
}

/// The heading of the listing for `name`'s list of `len` tasks.
pub open spec fn heading_of(name: Seq<char>, len: nat) -> Seq<char> {
    if len == 0 {
        "No tasks to print for "@ + name
    } else {
        "\n\n"@ + name + "'s To-Do List:\n"@
    }
}

/// The listing for a list: row `i` holds the position `i + 1` and the text of
/// the task there.
pub open spec fn listing_of(list: ListView) -> ListingView {
    ListingView {
        heading: heading_of(list.name, list.tasks.len()),
        rows: Seq::new(list.tasks.len(), |i: int| ((i + 1) as nat, list.tasks[i])),
    }
}

impl<T> ToDoList<T> {
    /// An empty list for `name`.
    pub fn new(name: String) -> (list: ToDoList<T>)
        ensures
            list.tasks@ == Seq::<T>::empty(),
            list.name == name,
    {
        ToDoList { tasks: Vec::new(), name }
    }
}

impl ToDoList<String> {
    /// What `Print` shows of the list as it is.
    pub fn listing(&self) -> (shown: Listing)
        ensures
            shown@ == listing_of(self@),
    {
        let len = self.tasks.len();
        let mut heading;
        if len == 0 {
            heading = "No tasks to print for ".to_owned();
            heading.append(self.name.as_str());
        } else {
            heading = "\n\n".to_owned();
            heading.append(self.name.as_str());
            heading.append("'s To-Do List:\n");
        }
        let mut rows: Vec<(usize, String)> = Vec::new();
        let mut i: usize = 0;
        while i < len
            invariant
                i <= len,
                len == self.tasks@.len(),
                rows@.len() == i,
                forall|j: int|
                    0 <= j < i ==> (#[trigger] rows@[j]).0 == j + 1 && rows@[j].1@
                        == self.tasks@[j]@,
            decreases len - i,
        {
            rows.push((i + 1, self.tasks[i].clone()));
            i += 1;
        }
        let shown = Listing { heading, rows };
        assert(shown@.rows =~= listing_of(self@).rows);
        shown
    }

    /// Carries out one instruction. `Add` always succeeds. `Remove` and
    /// `Modify` fail on a position below 1 or above the number of tasks, and
    /// then leave the list as it was. `Print` changes nothing and hands back
    /// what is to be shown; the others hand back nothing.
    pub fn run(&mut self, inst: Instruction<String>) -> (result: Result<
        Option<Listing>,
        IndexOutOfRange,
    >)
        ensures
            final(self).name == old(self).name,
            final(self).tasks@ == inst.apply(old(self).tasks@),
            match result {
                Ok(Some(shown)) => inst is Print && *final(self) == *old(self) && shown@
                    == listing_of(old(self)@),
                Ok(None) => !(inst is Print) && inst.fits(old(self).tasks@.len()),
                Err(e) => !inst.fits(old(self).tasks@.len()) && *final(self) == *old(self) && e
                    == (IndexOutOfRange { index: inst.position(), len: old(self).tasks.len() }),
            },
    {
        let len = self.tasks.len();
        match inst {
            Instruction::Add(task) => {
                self.tasks.push(task);
                Ok(None)
            },
            Instruction::Modify(index, task) => {
                if index < 1 || index > len {
                    return Err(IndexOutOfRange { index, len });
                }
                self.tasks[index - 1] = task;
                Ok(None)
            },
            Instruction::Remove(index) => {
                if index < 1 || index > len {
                    return Err(IndexOutOfRange { index, len });
                }
                self.tasks.remove(index - 1);
                Ok(None)
            },
            Instruction::Print => Ok(Some(self.listing())),
        }
    }
}

} // verus!
