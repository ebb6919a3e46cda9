//! The scrollback: one row index space over both logs, responses on even
//! rows and commands on odd rows, read only where it is visible.
use vstd::prelude::*;
use crate::session::{Game, SessionView, replay, lemma_replay_logs, logged_response};

verus! {

/// The number of rows of the scrollback.
pub open spec fn total_rows_of(v: SessionView) -> int {
    v.commands.len() + v.responses.len() as int
}

/// The text on row `i`: response `i / 2` on an even row, command `i / 2` on
/// an odd one.
pub open spec fn row_of(v: SessionView, i: int) -> Seq<char> {
    if i % 2 == 0 {
        v.responses[i / 2]
    } else {
        v.commands[i / 2]
    }
}

/// The number of rows that a slice of `count` rows from row `first` holds
/// when there are `total` rows: `count`, or fewer at the end.
pub open spec fn slice_len(total: int, first: int, count: int) -> int {
    if first >= total {
        0
    } else if count <= total - first {
        count
    } else {
        total - first
    }
}

/// The first visible row of a view of `count` rows: the requested one, or,
/// under auto-scroll, the one that puts the last row at the bottom.
pub open spec fn anchored_first_of(total: int, requested: int, count: int, auto_scroll: bool) -> int {
    if !auto_scroll {
        requested
    } else if count >= total {
        0
    } else {
        total - count
    }
}

/// A row index at or past the end of the scrollback.
#[derive(Debug, Clone, Copy, PartialEq, Eq)]
pub struct RowOutOfRange {
    pub index: usize,
}

/// After `n` submissions the scrollback has `2n` rows: row `2i` is the i-th
/// response and row `2i + 1` the i-th command.
pub proof fn lemma_replay_rows(commands: Seq<Seq<char>>, outcomes: Seq<Option<Seq<char>>>)
    requires
        commands.len() == outcomes.len(),
    ensures
        total_rows_of(replay(commands, outcomes)) == 2 * commands.len(),
        forall|i: int|
            0 <= i < commands.len() ==> #[trigger] row_of(replay(commands, outcomes), 2 * i)
                == logged_response(outcomes[i]),
        forall|i: int|
            0 <= i < commands.len() ==> #[trigger] row_of(replay(commands, outcomes), 2 * i + 1)
                == commands[i],
{
    lemma_replay_logs(commands, outcomes);
    assert forall|i: int| 0 <= i < commands.len() implies #[trigger] row_of(
        replay(commands, outcomes),
        2 * i,
    ) == logged_response(outcomes[i]) by {
        assert((2 * i) % 2 == 0 && (2 * i) / 2 == i) by (nonlinear_arith);
    }
    assert forall|i: int| 0 <= i < commands.len() implies #[trigger] row_of(
        replay(commands, outcomes),
        2 * i + 1,
    ) == commands[i] by {
        assert((2 * i + 1) % 2 == 1 && (2 * i + 1) / 2 == i) by (nonlinear_arith);
    }
}

impl Game {
    /// The number of rows of the scrollback, counted anew from the logs.
    pub fn total_rows(&self) -> (r: usize)
        requires
            total_rows_of(self@) <= usize::MAX,
        ensures
            r == total_rows_of(self@),
    {
        self.get_history().len() + self.get_user_inputs().len()
    }

    /// The text on row `index`.
    pub fn row_at(&self, index: usize) -> (r: Result<String, RowOutOfRange>)
        requires
            self.wf(),
        ensures
            index < total_rows_of(self@) ==> (r matches Ok(s) && s@ == row_of(self@, index as int)),
            index >= total_rows_of(self@) ==> r == Err::<String, RowOutOfRange>(
                RowOutOfRange { index },
            ),
    {
        let half = index / 2;
        let log = if index % 2 == 0 {
            self.get_history()
        } else {
            self.get_user_inputs()
        };
        if half < log.len() {
            Ok(log[half].clone())
        } else {
            Err(RowOutOfRange { index })
        }
    }

    /// The rows from `first` on, `count` of them or as many as there are;
    /// only those rows are read.
    pub fn visible_slice(&self, first: usize, count: usize) -> (r: Vec<String>)
        requires
            self.wf(),
            total_rows_of(self@) <= usize::MAX,
        ensures
            r@.len() == slice_len(total_rows_of(self@), first as int, count as int),
            forall|j: int| 0 <= j < r@.len() ==> #[trigger] r@[j]@ == row_of(self@, first + j),
    {
        let total = self.total_rows();
        let end: usize = if first >= total {
            first
        } else if count <= total - first {
            first + count
        } else {
            total
        };
        let mut r: Vec<String> = Vec::new();
        let mut i: usize = first;
        while i < end
            invariant
                self.wf(),
                total == total_rows_of(self@),
                first <= i <= end,
                end <= total || end == first,
                end - first == slice_len(total as int, first as int, count as int),
                r@.len() == i - first,
                forall|j: int| 0 <= j < r@.len() ==> #[trigger] r@[j]@ == row_of(self@, first + j),
            decreases end - i,
        {
            let row = self.row_at(i);
            match row {
                Ok(s) => {
                    r.push(s);
                },
                Err(_) => {
                    // i < end <= total, so every row read is in range
                    assert(false);
                },
            }
            i = i + 1;
        }
        r
    }

    /// The first row to show in a view of `count` rows: under auto-scroll the
    /// one that puts the last row at the bottom, else `requested`.
    pub fn anchored_first(&self, requested: usize, count: usize, auto_scroll: bool) -> (r: usize)
        requires
            total_rows_of(self@) <= usize::MAX,
        ensures
            r == anchored_first_of(total_rows_of(self@), requested as int, count as int, auto_scroll),
    {
        if !auto_scroll {
            return requested;
        }
        let total = self.total_rows();
        if count >= total {
            0
        } else {
            total - count
        }
    }
}

} // verus!
