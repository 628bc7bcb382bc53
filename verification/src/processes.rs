//! What the processes table adapter shows: column widths and metadata in
//! the order of the column definitions, the window of rows it refreshes,
//! and when its models are patched row by row instead of replaced.

use vstd::prelude::*;
use vstd::string::*;
use crate::text::{str_eq, views};

verus! {

/// Width of a column as the table model holds it.
pub struct TableColWidth {
    pub id: String,
    pub width_px: i32,
}

impl View for TableColWidth {
    type V = (Seq<char>, i32);

    open spec fn view(&self) -> (Seq<char>, i32) {
        (self.id@, self.width_px)
    }
}

/// Width in pixels of a column without a width of its own.
pub const DEFAULT_COLUMN_WIDTH: u64 = 100;

/// The value of the last pair in `pairs` keyed `id`, as a map built from
/// them in order keeps it.
pub open spec fn last_value<V>(pairs: Seq<(String, V)>, id: Seq<char>) -> Option<V>
    decreases pairs.len(),
{
    if pairs.len() == 0 {
        None
    } else if pairs.last().0@ == id {
        Some(pairs.last().1)
    } else {
        last_value(pairs.drop_last(), id)
    }
}

fn find_last<V: Copy>(pairs: &Vec<(String, V)>, id: &str) -> (r: Option<V>)
    ensures
        r == last_value(pairs@, id@),
{
    let mut i: usize = pairs.len();
    assert(pairs@.take(i as int) =~= pairs@);
    while i > 0
        invariant
            i <= pairs.len(),
            last_value(pairs@, id@) == last_value(pairs@.take(i as int), id@),
        decreases i,
    {
        let ghost t = pairs@.take(i as int);
        assert(t.drop_last() =~= pairs@.take(i - 1));
        if str_eq(pairs[i - 1].0.as_str(), id) {
            return Some(pairs[i - 1].1);
        }
        i = i - 1;
    }
    assert(pairs@.take(0) =~= Seq::<(String, V)>::empty());
    None
}

/// The width the model shows for the column `id`, given the widths sent:
/// the last width sent for it, else the default, cast to the model's pixel
/// type.
pub open spec fn shown_width(widths: Seq<(String, u64)>, id: Seq<char>) -> i32 {
    (match last_value(widths, id) {
        Some(w) => w,
        None => DEFAULT_COLUMN_WIDTH,
    }) as i32
}

/// The widths shown for the columns `defs` (by id, in definition order)
/// when the widths `widths` are sent.
pub fn column_widths(defs: &Vec<String>, widths: &Vec<(String, u64)>) -> (r: Vec<TableColWidth>)
    ensures
        r@.len() == defs@.len(),
        forall|i: int| 0 <= i < defs@.len() ==> #[trigger] r@[i]@ == (defs@[i]@, shown_width(widths@, defs@[i]@)),
{
    let mut r: Vec<TableColWidth> = Vec::new();
    let mut i: usize = 0;
    while i < defs.len()
        invariant
            i <= defs.len(),
            r@.len() == i,
            forall|k: int| 0 <= k < i ==> #[trigger] r@[k]@ == (defs@[k]@, shown_width(widths@, defs@[k]@)),
        decreases defs.len() - i,
    {
        let w = match find_last(widths, defs[i].as_str()) {
            Some(w) => w,
            None => DEFAULT_COLUMN_WIDTH,
        };
        r.push(TableColWidth { id: defs[i].clone(), width_px: w as i32 });
        i = i + 1;
    }
    r
}

/// What a column shows besides its width.
pub struct TableColMetadata {
    pub id: String,
    pub is_text: bool,
    pub is_metric: bool,
}

impl View for TableColMetadata {
    type V = (Seq<char>, bool, bool);

    open spec fn view(&self) -> (Seq<char>, bool, bool) {
        (self.id@, self.is_text, self.is_metric)
    }
}

/// The metadata shown for the column `id`, given the metadata sent (keyed
/// by column id): the last sent for it, else neither text nor metric.
pub open spec fn shown_metadata(data: Seq<(String, (bool, bool))>, id: Seq<char>) -> (Seq<char>, bool, bool) {
    match last_value(data, id) {
        Some((t, m)) => (id, t, m),
        None => (id, false, false),
    }
}

/// The metadata shown for the columns `defs` (by id, in definition order)
/// when `data` (column id, is-text and is-metric flags) is sent.
pub fn column_metadata(defs: &Vec<String>, data: &Vec<(String, (bool, bool))>) -> (r: Vec<TableColMetadata>)
    ensures
        r@.len() == defs@.len(),
        forall|i: int| 0 <= i < defs@.len() ==> #[trigger] r@[i]@ == shown_metadata(data@, defs@[i]@),
{
    let mut r: Vec<TableColMetadata> = Vec::new();
    let mut i: usize = 0;
    while i < defs.len()
        invariant
            i <= defs.len(),
            r@.len() == i,
            forall|k: int| 0 <= k < i ==> #[trigger] r@[k]@ == shown_metadata(data@, defs@[k]@),
        decreases defs.len() - i,
    {
        let m = match find_last(data, defs[i].as_str()) {
            Some((t, m)) => TableColMetadata { id: defs[i].clone(), is_text: t, is_metric: m },
            None => TableColMetadata { id: defs[i].clone(), is_text: false, is_metric: false },
        };
        r.push(m);
        i = i + 1;
    }
    r
}

/// The two width lists show the same thing.
pub fn same_widths(a: &Vec<TableColWidth>, b: &Vec<TableColWidth>) -> (r: bool)
    ensures
        r == (a@.map_values(|w: TableColWidth| w@) == b@.map_values(|w: TableColWidth| w@)),
{
    if a.len() != b.len() {
        assert(a@.map_values(|w: TableColWidth| w@).len() != b@.map_values(|w: TableColWidth| w@).len());
        return false;
    }
    let mut i: usize = 0;
    while i < a.len()
        invariant
            a.len() == b.len(),
            i <= a.len(),
            forall|k: int| 0 <= k < i ==> #[trigger] a@[k]@ == b@[k]@,
        decreases a.len() - i,
    {
        if a[i].width_px != b[i].width_px || !str_eq(a[i].id.as_str(), b[i].id.as_str()) {
            assert(a@.map_values(|w: TableColWidth| w@)[i as int] != b@.map_values(|w: TableColWidth| w@)[i as int]);
            return false;
        }
        i = i + 1;
    }
    assert(a@.map_values(|w: TableColWidth| w@) =~= b@.map_values(|w: TableColWidth| w@));
    true
}

/// The two metadata lists show the same thing.
pub fn same_metadata(a: &Vec<TableColMetadata>, b: &Vec<TableColMetadata>) -> (r: bool)
    ensures
        r == (a@.map_values(|m: TableColMetadata| m@) == b@.map_values(|m: TableColMetadata| m@)),
{
    if a.len() != b.len() {
        assert(a@.map_values(|m: TableColMetadata| m@).len() != b@.map_values(|m: TableColMetadata| m@).len());
        return false;
    }
    let mut i: usize = 0;
    while i < a.len()
        invariant
            a.len() == b.len(),
            i <= a.len(),
            forall|k: int| 0 <= k < i ==> #[trigger] a@[k]@ == b@[k]@,
        decreases a.len() - i,
    {
        if a[i].is_text != b[i].is_text || a[i].is_metric != b[i].is_metric || !str_eq(
            a[i].id.as_str(),
            b[i].id.as_str(),
        ) {
            assert(a@.map_values(|m: TableColMetadata| m@)[i as int] != b@.map_values(|m: TableColMetadata| m@)[i as int]);
            return false;
        }
        i = i + 1;
    }
    assert(a@.map_values(|m: TableColMetadata| m@) =~= b@.map_values(|m: TableColMetadata| m@));
    true
}

/// How a list model takes a new list of rows.
#[derive(Clone, Copy, Debug, PartialEq, Eq, Structural)]
pub enum ModelPatch {
    /// The row count changed: replace the whole list.
    Replace,
    /// Same row count: set each row in place.
    UpdateRows,
}

/// How a model with `current_len` rows takes a list of `next_len` rows.
pub fn patch_model_plan(current_len: usize, next_len: usize) -> (r: ModelPatch)
    ensures
        current_len != next_len ==> r == ModelPatch::Replace,
        current_len == next_len ==> r == ModelPatch::UpdateRows,
{
    if current_len != next_len {
        ModelPatch::Replace
    } else {
        ModelPatch::UpdateRows
    }
}

/// How a window of process rows is applied to the rows model.
pub struct RowsWindowPlan {
    /// The model is first reset to `total_rows` empty rows (and the row
    /// cache cleared).
    pub reset: bool,
    /// Rows to write: model index and position in the window.
    pub writes: Vec<(usize, usize)>,
}

/// Applies the window of `window_len` rows starting at `start`, of a list of
/// `total_rows`, to a model holding `current_rows` rows: the model is reset
/// when its size differs, and every row of the window that falls inside the
/// list is written.
pub fn rows_window_plan(current_rows: usize, total_rows: usize, start: usize, window_len: usize) -> (r:
    RowsWindowPlan)
    requires
        start + window_len <= usize::MAX + 1,
    ensures
        r.reset == (current_rows != total_rows),
        r.writes@.len() == (if start >= total_rows {
            0
        } else if start + window_len <= total_rows {
            window_len as int
        } else {
            total_rows - start
        }),
        forall|k: int| 0 <= k < r.writes@.len() ==> #[trigger] r.writes@[k] == ((start + k) as usize, k as usize),
{
    let mut writes: Vec<(usize, usize)> = Vec::new();
    let mut offset: usize = 0;
    while offset < window_len
        invariant
            start + window_len <= usize::MAX + 1,
            offset <= window_len,
            writes@.len() == (if start >= total_rows {
                0
            } else if start + offset <= total_rows {
                offset as int
            } else {
                total_rows - start
            }),
            forall|k: int| 0 <= k < writes@.len() ==> #[trigger] writes@[k] == ((start + k) as usize, k as usize),
        decreases window_len - offset,
    {
        let idx = start + offset;
        if idx < total_rows {
            writes.push((idx, offset));
        }
        offset = offset + 1;
    }
    RowsWindowPlan { reset: current_rows != total_rows, writes }
}

/// A cell of the field `field_id` in a row at tree depth `depth` shows a
/// metric bar: memory cells of top-level rows do.
pub fn cell_has_metric(field_id: &str, depth: i32) -> (r: bool)
    ensures
        r == (field_id@ == "memory"@ && depth == 0),
{
    str_eq(field_id, "memory") && depth == 0
}


/// The decimal digit `d` (0 to 9) as a character.
pub open spec fn digit_char(d: int) -> char {
    (48 + d) as char
}

/// The decimal digits of `n`, most significant first, with no leading zero
/// (`0` is the single digit `0`).
pub open spec fn digits_of(n: nat) -> Seq<char>
    decreases n,
{
    if n < 10 {
        seq![digit_char(n as int)]
    } else {
        digits_of(n / 10).push(digit_char((n % 10) as int))
    }
}

/// The decimal text of `v`: a `-` for a negative number, then the digits of
/// its magnitude.
pub open spec fn decimal_text(v: i32) -> Seq<char> {
    if v < 0 {
        seq!['-'] + digits_of((-v) as nat)
    } else {
        digits_of(v as nat)
    }
}

/// Calls `<i32 as ToString>::to_string`. Claimed, as its documentation
/// gives it: the number in decimal, `-` first when it is negative, no
/// leading zeros and no `+`.
#[verifier::external_body]
fn i32_to_string(v: i32) -> (r: String)
    ensures
        r@ == decimal_text(v),
{
    v.to_string()
}

/// Identity of a process row in the row cache: `<pid>-<name>`.
pub fn process_row_id(pid: i32, name: &str) -> (r: String)
    ensures
        r@ == decimal_text(pid) + "-"@ + name@,
{
    let mut r = i32_to_string(pid);
    r.append("-");
    r.append(name);
    r
}

/// The value kept for `id` is the one of the last pair keyed `id`: that pair
/// exists, holds it, and no later pair has the key; when no pair has the
/// key, nothing is kept.
pub proof fn law_last_pair_wins<V>(pairs: Seq<(String, V)>, id: Seq<char>)
    ensures
        last_value(pairs, id) matches Some(v) ==> exists|i: int|
            0 <= i < pairs.len() && #[trigger] pairs[i].0@ == id && pairs[i].1 == v && forall|j: int|
                i < j < pairs.len() ==> #[trigger] pairs[j].0@ != id,
        last_value(pairs, id) is None ==> forall|i: int| 0 <= i < pairs.len() ==> #[trigger] pairs[i].0@ != id,
    decreases pairs.len(),
{
    if pairs.len() > 0 {
        let rest = pairs.drop_last();
        law_last_pair_wins(rest, id);
        let n = pairs.len() - 1;
        if pairs.last().0@ == id {
            assert(pairs[n].0@ == id);
        } else {
            if let Some(v) = last_value(rest, id) {
                let i = choose|i: int|
                    0 <= i < rest.len() && #[trigger] rest[i].0@ == id && rest[i].1 == v && forall|j: int|
                        i < j < rest.len() ==> #[trigger] rest[j].0@ != id;
                assert(pairs[i].0@ == id);
                assert forall|j: int| i < j < pairs.len() implies #[trigger] pairs[j].0@ != id by {
                    if j < n {
                        assert(rest[j] == pairs[j]);
                    }
                }
            } else {
                assert forall|i: int| 0 <= i < pairs.len() implies #[trigger] pairs[i].0@ != id by {
                    if i < n {
                        assert(rest[i] == pairs[i]);
                    }
                }
            }
        }
    }
}

/// The number a string of decimal digits stands for, most significant
/// digit first.
pub open spec fn digits_value(s: Seq<char>) -> int
    decreases s.len(),
{
    if s.len() == 0 {
        0
    } else {
        digits_value(s.drop_last()) * 10 + (s.last() as int - 48)
    }
}

/// A number's decimal digits are digits `0` to `9`, at least one, with no
/// leading zero, and read back as the number itself.
pub proof fn law_digits_read_back(n: nat)
    ensures
        digits_of(n).len() >= 1,
        forall|k: int| 0 <= k < digits_of(n).len() ==> 48 <= (#[trigger] digits_of(n)[k]) as int <= 57,
        n > 0 ==> digits_of(n)[0] != '0',
        digits_value(digits_of(n)) == n,
    decreases n,
{
    if n >= 10 {
        law_digits_read_back(n / 10);
        let d = digits_of(n / 10);
        assert(digits_of(n) == d.push(digit_char((n % 10) as int)));
        assert(digits_of(n).drop_last() =~= d);
        assert(n == (n / 10) * 10 + n % 10) by (nonlinear_arith);
        assert forall|k: int| 0 <= k < digits_of(n).len() implies 48 <= (#[trigger] digits_of(n)[k]) as int <= 57 by {
            if k < d.len() {
                assert(digits_of(n)[k] == d[k]);
            }
        }
        assert(digits_of(n)[0] == d[0]);
    } else {
        assert(digits_value(digits_of(n).drop_last()) == 0);
    }
}

/// The decimal text of a negative number is `-` followed by the digits of
/// its magnitude; that of any other number is its digits alone.
pub proof fn law_decimal_text_sign(v: i32)
    ensures
        v < 0 ==> decimal_text(v)[0] == '-' && decimal_text(v).drop_first() == digits_of((-v) as nat),
        v >= 0 ==> decimal_text(v) == digits_of(v as nat) && decimal_text(v)[0] != '-',
{
    law_digits_read_back((if v < 0 { -v } else { v as int }) as nat);
    if v < 0 {
        assert((seq!['-'] + digits_of((-v) as nat)).drop_first() =~= digits_of((-v) as nat));
    }
}

} // verus!
