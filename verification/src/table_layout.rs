//! Column widths of a table.

use vstd::prelude::*;
use crate::named_table::NamedTable;

verus! {

/// Widths of a table's columns, by column id.
pub struct TableLayout {
    widths: NamedTable<u64>,
}

impl View for TableLayout {
    type V = Map<Seq<char>, u64>;

    closed spec fn view(&self) -> Map<Seq<char>, u64> {
        self.widths@
    }
}

/// The width of column `id` in `m`: its recorded width, or zero for an
/// unknown column.
pub open spec fn width_in(m: Map<Seq<char>, u64>, id: Seq<char>) -> u64 {
    if m.contains_key(id) {
        m[id]
    } else {
        0
    }
}

/// The width a column starts with: its configured width, raised to its
/// minimum (`min`, or `default_width` when it has none).
pub open spec fn initial_width(width: u64, min: Option<u64>, default_width: u64) -> u64 {
    let m = match min {
        Some(v) => v,
        None => default_width,
    };
    if width >= m {
        width
    } else {
        m
    }
}

impl TableLayout {
    /// A layout without columns.
    pub fn new() -> (r: Self)
        ensures
            r@ == Map::<Seq<char>, u64>::empty(),
    {
        TableLayout { widths: NamedTable::new() }
    }

    /// Every column with its width, each column once.
    pub fn snapshot(&self) -> (r: Vec<(String, u64)>)
        ensures
            r@.len() == self@.dom().len(),
            forall|i: int| 0 <= i < r@.len() ==> #[trigger] self@.contains_key(r@[i].0@) && self@[r@[i].0@] == r@[i].1,
            forall|i: int, j: int| 0 <= i < j < r@.len() ==> #[trigger] r@[i].0@ != #[trigger] r@[j].0@,
    {
        self.widths.pairs()
    }

    /// Adds the column `id` with `width` (replacing the width of an existing one).
    pub fn add_column(&mut self, id: String, width: u64)
        ensures
            final(self)@ == old(self)@.insert(id@, width),
    {
        self.widths.insert(id, width);
    }

    /// Width of the column `id`; zero when there is no such column.
    pub fn get_width(&self, id: &str) -> (r: u64)
        ensures
            r == width_in(self@, id@),
    {
        match self.widths.get(id) {
            Some(w) => *w,
            None => 0,
        }
    }

    /// Sets the width of the column `id`; unknown columns are left alone.
    pub fn set_width(&mut self, id: &str, new_width: u64)
        ensures
            old(self)@.contains_key(id@) ==> final(self)@ == old(self)@.insert(id@, new_width),
            !old(self)@.contains_key(id@) ==> final(self)@ == old(self)@,
    {
        if self.widths.contains(id) {
            self.widths.insert(String::from_str(id), new_width);
        }
    }

    /// Adds the configured columns `initial` (id and width), each raised to
    /// its minimum width from `min_widths`, or to `default_width` when it
    /// has none there.
    pub fn apply_initial_widths(
        &mut self,
        default_width: u64,
        initial: &Vec<(String, u64)>,
        min_widths: &NamedTable<u64>,
    )
        ensures
            forall|k: Seq<char>| #[trigger] final(self)@.contains_key(k) <==> (old(self)@.contains_key(k)
                || exists|i: int| 0 <= i < initial@.len() && initial@[i].0@ == k),
            forall|i: int|
                0 <= i < initial@.len() && (forall|j: int| i < j < initial@.len() ==> initial@[j].0@
                    != initial@[i].0@) ==> #[trigger] final(self)@[initial@[i].0@] == initial_width(
                    initial@[i].1,
                    if min_widths@.contains_key(initial@[i].0@) {
                        Some(min_widths@[initial@[i].0@])
                    } else {
                        None
                    },
                    default_width,
                ),
            forall|k: Seq<char>|
                old(self)@.contains_key(k) && (forall|i: int| 0 <= i < initial@.len() ==> initial@[i].0@
                    != k) ==> #[trigger] final(self)@[k] == old(self)@[k],
    {
        let ghost start = self@;
        let mut i: usize = 0;
        while i < initial.len()
            invariant
                i <= initial.len(),
                forall|k: Seq<char>| #[trigger] self@.contains_key(k) <==> (start.contains_key(k)
                    || exists|j: int| 0 <= j < i && initial@[j].0@ == k),
                forall|a: int|
                    0 <= a < i && (forall|j: int| a < j < i ==> initial@[j].0@ != initial@[a].0@)
                        ==> #[trigger] self@[initial@[a].0@] == initial_width(
                        initial@[a].1,
                        if min_widths@.contains_key(initial@[a].0@) {
                            Some(min_widths@[initial@[a].0@])
                        } else {
                            None
                        },
                        default_width,
                    ),
                forall|k: Seq<char>|
                    start.contains_key(k) && (forall|j: int| 0 <= j < i ==> initial@[j].0@ != k)
                        ==> #[trigger] self@[k] == start[k],
            decreases initial.len() - i,
        {
            let (id, w) = (&initial[i].0, initial[i].1);
            let min = match min_widths.get(id.as_str()) {
                Some(m) => *m,
                None => default_width,
            };
            let width = if w >= min {
                w
            } else {
                min
            };
            let ghost before = self@;
            self.widths.insert(id.clone(), width);
            proof {
                assert forall|k: Seq<char>| #[trigger] self@.contains_key(k) <==> (start.contains_key(k)
                    || exists|j: int| 0 <= j < i + 1 && initial@[j].0@ == k) by {
                    if k == id@ {
                        assert(initial@[i as int].0@ == k);
                    }
                    if exists|j: int| 0 <= j < i + 1 && initial@[j].0@ == k {
                        let j = choose|j: int| 0 <= j < i + 1 && initial@[j].0@ == k;
                        if j < i {
                            assert(before.contains_key(k));
                        }
                    }
                }
            }
            i = i + 1;
        }
    }
}


/// A column starts no narrower than its minimum (or the default width when
/// it has none), and no narrower than its configured width.
pub proof fn law_initial_width_respects_minimum(width: u64, min: Option<u64>, default_width: u64)
    ensures
        initial_width(width, min, default_width) >= width,
        initial_width(width, min, default_width) >= (match min {
            Some(m) => m,
            None => default_width,
        }),
{
}

/// Reading a column's width gives what was last set for it; an unknown
/// column reads zero, and setting its width does not create it.
pub proof fn law_width_read_after_set(m: Map<Seq<char>, u64>, id: Seq<char>, w: u64)
    ensures
        m.contains_key(id) ==> width_in(m.insert(id, w), id) == w,
        !m.contains_key(id) ==> width_in(m, id) == 0,
{
}

} // verus!
