//! The diff compositor: which rows of a newly rendered frame have to be
//! written to the terminal, given the rows that it shows.

use vstd::prelude::*;

verus! {

/// The text of each row.
pub open spec fn texts(rows: Seq<String>) -> Seq<Seq<char>> {
    Seq::new(rows.len(), |i: int| rows[i]@)
}

/// What an optional list of rows holds as text.
pub open spec fn shown_texts(rows: Option<Vec<String>>) -> Option<Seq<Seq<char>>> {
    match rows {
        Some(r) => Some(texts(r@)),
        None => None,
    }
}

/// Whether row `i` has to be written: no row is shown there, or the row
/// shown there has another text.
pub open spec fn row_differs(shown: Seq<Seq<char>>, rows: Seq<Seq<char>>, i: int) -> bool {
    i >= shown.len() || shown[i] != rows[i]
}

/// The indices below `n` of the rows that have to be written, ascending.
pub open spec fn changed_rows(shown: Seq<Seq<char>>, rows: Seq<Seq<char>>, n: nat) -> Seq<int>
    decreases n,
{
    if n == 0 {
        Seq::empty()
    } else if row_differs(shown, rows, n - 1) {
        changed_rows(shown, rows, (n - 1) as nat).push(n - 1)
    } else {
        changed_rows(shown, rows, (n - 1) as nat)
    }
}

/// How many rows below `n` differ from the row shown.
pub open spec fn differing_count(shown: Seq<Seq<char>>, rows: Seq<Seq<char>>, n: nat) -> nat
    decreases n,
{
    if n == 0 {
        0
    } else if row_differs(shown, rows, n - 1) {
        differing_count(shown, rows, (n - 1) as nat) + 1
    } else {
        differing_count(shown, rows, (n - 1) as nat)
    }
}

/// Every index below `n`, ascending.
pub open spec fn all_rows(n: nat) -> Seq<int> {
    Seq::new(n, |i: int| i)
}

/// Whether the whole screen is written: nothing is shown yet, or the number
/// of rows has changed.
pub open spec fn repaints_all(shown: Option<Seq<Seq<char>>>, rows: Seq<Seq<char>>) -> bool {
    match shown {
        None => true,
        Some(s) => s.len() != rows.len(),
    }
}

/// The indices of the rows that are written, in the order of writing.
pub open spec fn rows_to_write(shown: Option<Seq<Seq<char>>>, rows: Seq<Seq<char>>) -> Seq<int> {
    if repaints_all(shown, rows) {
        all_rows(rows.len())
    } else {
        changed_rows(shown->Some_0, rows, rows.len())
    }
}

/// One step of a repaint on the terminal.
#[derive(Clone, Copy, Debug, PartialEq, Eq, Structural)]
pub enum TermCommand {
    /// Move the cursor to column 0 of the given row.
    MoveToRow { row: usize },
    /// Write the text of the row with the given index at the cursor.
    WriteRow { index: usize },
    /// Write a carriage return and a line feed.
    LineBreak,
}

/// What one repaint writes: whether it is the whole screen, the indices of
/// the rows written, in the order of writing, and how many rows there are.
pub struct RepaintPlan {
    pub full: bool,
    pub rows: Vec<usize>,
    pub row_count: usize,
}

/// The commands for one row. When the whole screen is written the row
/// follows the one before it and ends with a line break unless it is the
/// last row of the screen; otherwise the cursor goes to the row first.
pub open spec fn row_commands(full: bool, index: usize, row_count: usize) -> Seq<TermCommand> {
    if full {
        if index + 1 < row_count {
            seq![TermCommand::WriteRow { index }, TermCommand::LineBreak]
        } else {
            seq![TermCommand::WriteRow { index }]
        }
    } else {
        seq![TermCommand::MoveToRow { row: index }, TermCommand::WriteRow { index }]
    }
}

/// The commands for the first `k` rows of a list.
pub open spec fn body_commands(full: bool, list: Seq<usize>, row_count: usize, k: nat) -> Seq<
    TermCommand,
>
    decreases k,
{
    if k == 0 {
        Seq::empty()
    } else {
        body_commands(full, list, row_count, (k - 1) as nat) + row_commands(
            full,
            list[k - 1],
            row_count,
        )
    }
}

/// The commands of a repaint: when the whole screen is written, first the
/// move to the origin; then the commands of each row of the list.
pub open spec fn commands_of(full: bool, list: Seq<usize>, row_count: usize) -> Seq<TermCommand> {
    if full {
        seq![TermCommand::MoveToRow { row: 0 }] + body_commands(full, list, row_count, list.len())
    } else {
        body_commands(full, list, row_count, list.len())
    }
}

/// How many of the commands write a row.
pub open spec fn write_count(commands: Seq<TermCommand>) -> nat
    decreases commands.len(),
{
    if commands.len() == 0 {
        0
    } else if commands.last() is WriteRow {
        write_count(commands.drop_last()) + 1
    } else {
        write_count(commands.drop_last())
    }
}

impl RepaintPlan {
    /// The indices of the rows to write, in the order of writing.
    pub open spec fn row_indices(&self) -> Seq<int> {
        indices(self.rows@)
    }

    /// The commands that carry the plan out, in order. As many of them write
    /// a row as the plan lists rows.
    pub fn commands(&self) -> (commands: Vec<TermCommand>)
        ensures
            commands@ == commands_of(self.full, self.rows@, self.row_count),
            write_count(commands@) == self.rows@.len(),
    {
        let mut commands: Vec<TermCommand> = Vec::new();
        if self.full {
            commands.push(TermCommand::MoveToRow { row: 0 });
        }
        let ghost head = commands@;
        let n: usize = self.rows.len();
        let mut k: usize = 0;
        while k < n
            invariant
                k <= n,
                n == self.rows@.len(),
                commands@ == head + body_commands(self.full, self.rows@, self.row_count, k as nat),
            decreases n - k,
        {
            let index: usize = self.rows[k];
            let ghost before = commands@;
            if self.full {
                commands.push(TermCommand::WriteRow { index });
                if index < usize::MAX && index + 1 < self.row_count {
                    commands.push(TermCommand::LineBreak);
                }
            } else {
                commands.push(TermCommand::MoveToRow { row: index });
                commands.push(TermCommand::WriteRow { index });
            }
            assert(commands@ =~= before + row_commands(self.full, index, self.row_count));
            assert(commands@ =~= head + body_commands(
                self.full,
                self.rows@,
                self.row_count,
                (k + 1) as nat,
            ));
            k += 1;
        }
        proof {
            assert(commands@ =~= commands_of(self.full, self.rows@, self.row_count));
            lemma_commands_write_each_row(self.full, self.rows@, self.row_count);
        }
        commands
    }
}

/// One more command adds one to the number of row writes where it writes a
/// row, and nothing otherwise.
pub proof fn lemma_write_count_push(commands: Seq<TermCommand>, next: TermCommand)
    ensures
        write_count(commands.push(next)) == write_count(commands) + if next is WriteRow {
            1nat
        } else {
            0nat
        },
{
    assert(commands.push(next).drop_last() =~= commands);
    assert(commands.push(next).last() == next);
}

proof fn lemma_body_write_count(
    head: Seq<TermCommand>,
    full: bool,
    list: Seq<usize>,
    row_count: usize,
    k: nat,
)
    requires
        k <= list.len(),
    ensures
        write_count(head + body_commands(full, list, row_count, k)) == write_count(head) + k,
    decreases k,
{
    if k == 0 {
        assert(head + body_commands(full, list, row_count, k) =~= head);
    } else {
        lemma_body_write_count(head, full, list, row_count, (k - 1) as nat);
        let before = head + body_commands(full, list, row_count, (k - 1) as nat);
        let index = list[k - 1];
        let write = TermCommand::WriteRow { index };
        let after = head + body_commands(full, list, row_count, k);
        if full {
            lemma_write_count_push(before, write);
            if index + 1 < row_count {
                lemma_write_count_push(before.push(write), TermCommand::LineBreak);
                assert(after =~= before.push(write).push(TermCommand::LineBreak));
            } else {
                assert(after =~= before.push(write));
            }
        } else {
            let go = TermCommand::MoveToRow { row: index };
            lemma_write_count_push(before, go);
            lemma_write_count_push(before.push(go), write);
            assert(after =~= before.push(go).push(write));
        }
    }
}

/// The commands of a repaint write each listed row once: as many of them
/// write a row as the list is long.
pub proof fn lemma_commands_write_each_row(full: bool, list: Seq<usize>, row_count: usize)
    ensures
        write_count(commands_of(full, list, row_count)) == list.len(),
{
    let origin = TermCommand::MoveToRow { row: 0 };
    let none = Seq::<TermCommand>::empty();
    if full {
        lemma_write_count_push(none, origin);
        assert(seq![origin] =~= none.push(origin));
        lemma_body_write_count(seq![origin], full, list, row_count, list.len());
    } else {
        lemma_body_write_count(none, full, list, row_count, list.len());
        assert(none + body_commands(full, list, row_count, list.len()) =~= body_commands(
            full,
            list,
            row_count,
            list.len(),
        ));
    }
}

/// The indices that a list holds.
pub open spec fn indices(list: Seq<usize>) -> Seq<int> {
    Seq::new(list.len(), |k: int| list[k] as int)
}

/// Plans the repaint that turns the rows shown into `rows`.
pub fn plan_repaint(shown: &Option<Vec<String>>, rows: &Vec<String>) -> (plan: RepaintPlan)
    ensures
        plan.full == repaints_all(shown_texts(*shown), texts(rows@)),
        plan.row_indices() == rows_to_write(shown_texts(*shown), texts(rows@)),
        plan.row_count == rows@.len(),
        plan.full ==> plan.rows@.len() == rows@.len(),
        !plan.full ==> plan.rows@.len() == differing_count(
            shown_texts(*shown)->Some_0,
            texts(rows@),
            rows@.len(),
        ),
{
    let n: usize = rows.len();
    let full: bool = match shown {
        None => true,
        Some(s) => s.len() != n,
    };
    let mut out: Vec<usize> = Vec::new();
    let mut i: usize = 0;
    if full {
        while i < n
            invariant
                i <= n,
                out@.len() == i,
                forall|k: int| 0 <= k < i ==> out@[k] == k,
            decreases n - i,
        {
            out.push(i);
            i += 1;
        }
        assert(indices(out@) =~= all_rows(n as nat));
    } else {
        let s: &Vec<String> = shown.as_ref().unwrap();
        let ghost st = texts(s@);
        let ghost rt = texts(rows@);
        while i < n
            invariant
                i <= n,
                n == rows@.len(),
                s@.len() == n,
                st == texts(s@),
                rt == texts(rows@),
                indices(out@) =~= changed_rows(st, rt, i as nat),
                out@.len() == differing_count(st, rt, i as nat),
            decreases n - i,
        {
            let ghost before = out@;
            if !(rows[i] == s[i]) {
                out.push(i);
                assert(indices(out@) =~= indices(before).push(i as int));
            }
            i += 1;
        }
    }
    RepaintPlan { full, rows: out, row_count: n }
}

/// The compositor's memory: the rows that the terminal shows, if any.
pub struct DiffCompositor {
    pub prev_rows: Option<Vec<String>>,
}

impl DiffCompositor {
    /// The texts that the terminal shows, if any.
    pub open spec fn shown(&self) -> Option<Seq<Seq<char>>> {
        shown_texts(self.prev_rows)
    }

    /// A compositor for a terminal that shows nothing yet.
    pub fn new() -> (c: DiffCompositor)
        ensures
            c.prev_rows is None,
            c.shown() is None,
    {
        DiffCompositor { prev_rows: None }
    }

    /// Plans the repaint for `rows` and remembers them as shown, whatever the
    /// plan holds.
    pub fn display(&mut self, rows: Vec<String>) -> (plan: RepaintPlan)
        ensures
            plan.full == repaints_all(old(self).shown(), texts(rows@)),
            plan.row_indices() == rows_to_write(old(self).shown(), texts(rows@)),
            plan.row_count == rows@.len(),
            plan.full ==> plan.rows@.len() == rows@.len(),
            !plan.full ==> plan.rows@.len() == differing_count(
                old(self).shown()->Some_0,
                texts(rows@),
                rows@.len(),
            ),
            final(self).prev_rows == Some(rows),
    {
        let plan = plan_repaint(&self.prev_rows, &rows);
        self.prev_rows = Some(rows);
        plan
    }
}

/// The rows to write are as many as the rows that differ, and where the whole
/// screen is written, as many as there are rows.
pub proof fn lemma_rows_written_count(shown: Option<Seq<Seq<char>>>, rows: Seq<Seq<char>>)
    ensures
        repaints_all(shown, rows) ==> rows_to_write(shown, rows).len() == rows.len(),
        !repaints_all(shown, rows) ==> rows_to_write(shown, rows).len() == differing_count(
            shown->Some_0,
            rows,
            rows.len(),
        ),
{
    if !repaints_all(shown, rows) {
        lemma_changed_rows(shown->Some_0, rows, rows.len());
    }
}

/// The list of changed rows holds exactly the indices below `n` that differ,
/// each once and in ascending order.
pub proof fn lemma_changed_rows(shown: Seq<Seq<char>>, rows: Seq<Seq<char>>, n: nat)
    ensures
        changed_rows(shown, rows, n).len() == differing_count(shown, rows, n),
        changed_rows(shown, rows, n).len() <= n,
        forall|k: int| 0 <= k < changed_rows(shown, rows, n).len() ==> {
            &&& 0 <= (#[trigger] changed_rows(shown, rows, n)[k]) < n
            &&& row_differs(shown, rows, changed_rows(shown, rows, n)[k])
        },
        forall|j: int, k: int| 0 <= j < k < changed_rows(shown, rows, n).len() ==>
            changed_rows(shown, rows, n)[j] < changed_rows(shown, rows, n)[k],
        forall|i: int| 0 <= i < n && row_differs(shown, rows, i) ==>
            changed_rows(shown, rows, n).contains(i),
    decreases n,
{
    if n > 0 {
        let rest = changed_rows(shown, rows, (n - 1) as nat);
        let all = changed_rows(shown, rows, n);
        lemma_changed_rows(shown, rows, (n - 1) as nat);
        assert forall|i: int| 0 <= i < n && row_differs(shown, rows, i)
            implies all.contains(i) by {
            if i < n - 1 {
                assert(rest.contains(i));
                let k = choose|k: int| 0 <= k < rest.len() && rest[k] == i;
                assert(all[k] == i);
            } else {
                assert(all[all.len() - 1] == i);
            }
        }
    }
}

/// Where every row has the text of the row shown at its place, and there are
/// as many rows as are shown, nothing is written.
pub proof fn lemma_unchanged_rows_write_nothing(shown: Seq<Seq<char>>, rows: Seq<Seq<char>>)
    requires
        shown.len() == rows.len(),
        forall|i: int| 0 <= i < rows.len() ==> shown[i] == rows[i],
    ensures
        !repaints_all(Some(shown), rows),
        rows_to_write(Some(shown), rows).len() == 0,
{
    lemma_none_changed(shown, rows, rows.len());
}

/// A plan that lists no row, and is not for the whole screen, has no command.
pub proof fn lemma_nothing_listed_nothing_written(list: Seq<usize>, row_count: usize)
    requires
        list.len() == 0,
    ensures
        commands_of(false, list, row_count).len() == 0,
{
}

proof fn lemma_none_changed(shown: Seq<Seq<char>>, rows: Seq<Seq<char>>, n: nat)
    requires
        n <= rows.len(),
        shown.len() == rows.len(),
        forall|i: int| 0 <= i < rows.len() ==> shown[i] == rows[i],
    ensures
        changed_rows(shown, rows, n).len() == 0,
    decreases n,
{
    if n > 0 {
        lemma_none_changed(shown, rows, (n - 1) as nat);
    }
}

} // verus!
