//! Selection movement on list screens. Moving wraps around the ends of the
//! list and skips rows that cannot hold the selection.
use vstd::prelude::*;

use crate::rows::ListRow;
use vstd::arithmetic::div_mod::{
    lemma_add_mod_noop_right, lemma_mod_add_multiples_vanish, lemma_mod_sub_multiples_vanish,
    lemma_small_mod,
};

verus! {

/// One step of wrapping movement through `len` positions.
pub open spec fn spec_navigate_simple(len: int, current: int, delta: int) -> int {
    if len == 0 {
        0
    } else if delta < 0 {
        if current == 0 {
            len - 1
        } else {
            current - 1
        }
    } else if current == len - 1 {
        0
    } else {
        current + 1
    }
}

/// The position reached after `k` wrapping steps.
pub open spec fn step_n(len: int, current: int, delta: int, k: nat) -> int
    decreases k,
{
    if k == 0 {
        current
    } else {
        spec_navigate_simple(len, step_n(len, current, delta, (k - 1) as nat), delta)
    }
}

/// Whether the row at position `i` exists and can hold the selection.
pub open spec fn interactive_at<T: ListRow>(rows: Seq<T>, i: int) -> bool {
    0 <= i < rows.len() && rows[i].spec_interactive()
}

/// The smallest `j` in `1..=k` whose `j`-step position is an interactive row.
pub open spec fn first_hit<T: ListRow>(rows: Seq<T>, current: int, delta: int, k: nat) -> Option<
    nat,
>
    decreases k,
{
    if k == 0 {
        None
    } else {
        match first_hit(rows, current, delta, (k - 1) as nat) {
            Some(j) => Some(j),
            None => if interactive_at(rows, step_n(rows.len() as int, current, delta, k)) {
                Some(k)
            } else {
                None
            },
        }
    }
}

/// Where a move by `delta` from `current` lands on a list of rows.
pub open spec fn spec_navigate_rows<T: ListRow>(rows: Seq<T>, current: int, delta: int) -> int {
    if rows.len() == 0 {
        current
    } else {
        match first_hit(rows, current, delta, rows.len()) {
            Some(j) => step_n(rows.len() as int, current, delta, j),
            None => current,
        }
    }
}

/// Index of the first interactive row, or 0 when there is none.
pub open spec fn spec_first_interactive<T: ListRow>(rows: Seq<T>) -> int {
    if exists|i: int| interactive_at(rows, i) {
        choose|i: int|
            interactive_at(rows, i) && forall|j: int| 0 <= j < i ==> !interactive_at(rows, j)
    } else {
        0
    }
}

/// Index of the last interactive row, or 0 when there is none.
pub open spec fn spec_last_interactive<T: ListRow>(rows: Seq<T>) -> int {
    if exists|i: int| interactive_at(rows, i) {
        choose|i: int|
            interactive_at(rows, i) && forall|j: int| i < j < rows.len() ==> !interactive_at(rows, j)
    } else {
        0
    }
}

/// With an interactive row present, the first interactive row is inside the list.
pub proof fn lemma_first_interactive_in_range<T: ListRow>(rows: Seq<T>, k: int)
    requires
        interactive_at(rows, k),
    ensures
        0 <= spec_first_interactive(rows) < rows.len(),
        interactive_at(rows, spec_first_interactive(rows)),
{
    lemma_least_interactive_exists(rows, k);
}

proof fn lemma_least_interactive_exists<T: ListRow>(rows: Seq<T>, k: int)
    requires
        interactive_at(rows, k),
    ensures
        exists|i: int|
            interactive_at(rows, i) && forall|j: int| 0 <= j < i ==> !interactive_at(rows, j),
    decreases k,
{
    if exists|j: int| 0 <= j < k && interactive_at(rows, j) {
        let j = choose|j: int| 0 <= j < k && interactive_at(rows, j);
        lemma_least_interactive_exists(rows, j);
    } else {
        assert(interactive_at(rows, k) && forall|j: int| 0 <= j < k ==> !interactive_at(rows, j));
    }
}

pub fn first_interactive<T: ListRow>(rows: &Vec<T>) -> (r: usize)
    ensures
        r == spec_first_interactive(rows@),
        (exists|i: int| interactive_at(rows@, i)) ==> interactive_at(rows@, r as int),
        forall|j: int| 0 <= j < r ==> !interactive_at(rows@, j),
{
    let mut i: usize = 0;
    while i < rows.len()
        invariant
            i <= rows.len(),
            forall|j: int| 0 <= j < i ==> !interactive_at(rows@, j),
        decreases rows.len() - i,
    {
        if rows[i].row_is_interactive() {
            assert(interactive_at(rows@, i as int));
            let ghost c = choose|k: int|
                interactive_at(rows@, k) && forall|j: int| 0 <= j < k ==> !interactive_at(rows@, j);
            assert(c == i) by {
                if c < i {
                } else if c > i {
                }
            }
            return i;
        }
        i = i + 1;
    }
    assert(!exists|k: int| interactive_at(rows@, k));
    0
}

pub fn navigate_simple(len: usize, current: usize, delta: i32) -> (r: usize)
    requires
        len == 0 || delta < 0 || current < usize::MAX,
    ensures
        r == spec_navigate_simple(len as int, current as int, delta as int),
{
    if len == 0 {
        return 0;
    }
    let last = len - 1;
    if delta < 0 {
        if current == 0 {
            last
        } else {
            current - 1
        }
    } else if current == last {
        0
    } else {
        current + 1
    }
}

/// From inside the list, `k` steps stay inside the list.
pub proof fn lemma_step_n_in_range(len: int, current: int, delta: int, k: nat)
    requires
        0 <= current < len,
    ensures
        0 <= step_n(len, current, delta, k) < len,
    decreases k,
{
    if k > 0 {
        lemma_step_n_in_range(len, current, delta, (k - 1) as nat);
    }
}

pub fn navigate_rows<T: ListRow>(rows: &Vec<T>, current: usize, delta: i32) -> (r: usize)
    requires
        rows.len() < usize::MAX,
        rows.len() == 0 || current < rows.len() || (delta < 0 && current == rows.len()),
    ensures
        r == spec_navigate_rows(rows@, current as int, delta as int),
{
    let len = rows.len();
    if len == 0 {
        return current;
    }
    let mut next = current;
    let mut k: usize = 0;
    while k < len
        invariant
            len == rows.len(),
            len > 0,
            k <= len,
            next == step_n(len as int, current as int, delta as int, k as nat),
            k == 0 ==> next == current,
            k > 0 ==> next < len,
            first_hit(rows@, current as int, delta as int, k as nat) is None,
            current < len || (delta < 0 && current == len),
            len < usize::MAX,
        decreases len - k,
    {
        next = navigate_simple(len, next, delta);
        k = k + 1;
        assert(next == step_n(len as int, current as int, delta as int, k as nat));
        if rows[next].row_is_interactive() {
            assert(first_hit(rows@, current as int, delta as int, k as nat) == Some(k as nat));
            proof {
                lemma_first_hit_extends(rows@, current as int, delta as int, k as nat, len as nat);
            }
            return next;
        }
        assert(first_hit(rows@, current as int, delta as int, k as nat) is None);
    }
    current
}

/// Once a hit is found within `k` steps, allowing more steps keeps it.
pub proof fn lemma_first_hit_extends<T: ListRow>(
    rows: Seq<T>,
    current: int,
    delta: int,
    k: nat,
    m: nat,
)
    requires
        k <= m,
        first_hit(rows, current, delta, k) is Some,
    ensures
        first_hit(rows, current, delta, m) == first_hit(rows, current, delta, k),
    decreases m - k,
{
    if k < m {
        lemma_first_hit_extends(rows, current, delta, k, (m - 1) as nat);
    }
}

/// `current`, or the last interactive row when `current` lies past it.
pub open spec fn spec_clamp_to_last<T: ListRow>(rows: Seq<T>, current: int) -> int {
    if current < spec_last_interactive(rows) {
        current
    } else {
        spec_last_interactive(rows)
    }
}

pub fn clamp_to_last_interactive<T: ListRow>(rows: &Vec<T>, current: usize) -> (r: usize)
    ensures
        r == spec_clamp_to_last(rows@, current as int),
{
    let mut i = rows.len();
    while i > 0
        invariant
            i <= rows.len(),
            forall|j: int| i <= j < rows.len() ==> !interactive_at(rows@, j),
        decreases i,
    {
        i = i - 1;
        if rows[i].row_is_interactive() {
            proof {
                let c = choose|k: int|
                    interactive_at(rows@, k) && forall|j: int|
                        k < j < rows.len() ==> !interactive_at(rows@, j);
                assert(interactive_at(rows@, i as int));
                assert(c == i) by {
                    if c < i {
                    } else if c > i {
                    }
                }
            }
            return if current < i {
                current
            } else {
                i
            };
        }
    }
    assert(!exists|k: int| interactive_at(rows@, k));
    assert(spec_last_interactive(rows@) == 0);
    0
}

/// Moving forward `k` steps from inside the list lands `k` places further,
/// wrapping at the end: position `(current + k) mod len`.
pub proof fn lemma_step_n_forward(len: int, current: int, delta: int, k: nat)
    requires
        0 <= current < len,
        delta >= 0,
    ensures
        step_n(len, current, delta, k) == (current + k) % len,
    decreases k,
{
    if k == 0 {
        lemma_small_mod(current as nat, len as nat);
    } else {
        lemma_step_n_forward(len, current, delta, (k - 1) as nat);
        let p = (current + k - 1) % len;
        lemma_add_mod_noop_right(1, current + k - 1, len);
        if p + 1 < len {
            lemma_small_mod((p + 1) as nat, len as nat);
        } else {
            lemma_mod_add_multiples_vanish(0, len);
            lemma_small_mod(0, len as nat);
        }
    }
}

/// Moving backward `k` steps from inside the list lands `k` places earlier,
/// wrapping at the start: position `(current - k) mod len`.
pub proof fn lemma_step_n_backward(len: int, current: int, delta: int, k: nat)
    requires
        0 <= current < len,
        delta < 0,
    ensures
        step_n(len, current, delta, k) == (current - k) % len,
    decreases k,
{
    if k == 0 {
        lemma_small_mod(current as nat, len as nat);
    } else {
        lemma_step_n_backward(len, current, delta, (k - 1) as nat);
        let p = (current - k + 1) % len;
        lemma_add_mod_noop_right(-1, current - k + 1, len);
        if p >= 1 {
            lemma_small_mod((p - 1) as nat, len as nat);
        } else {
            lemma_mod_add_multiples_vanish(-1, len);
            lemma_small_mod((len - 1) as nat, len as nat);
        }
    }
}

/// A hit reported within `k` steps is a step count in `1..=k` that lands on
/// an interactive row.
pub proof fn lemma_first_hit_sound<T: ListRow>(rows: Seq<T>, current: int, delta: int, k: nat)
    requires
        first_hit(rows, current, delta, k) is Some,
    ensures
        1 <= first_hit(rows, current, delta, k)->0 <= k,
        interactive_at(
            rows,
            step_n(rows.len() as int, current, delta, first_hit(rows, current, delta, k)->0),
        ),
    decreases k,
{
    if first_hit(rows, current, delta, (k - 1) as nat) is Some {
        lemma_first_hit_sound(rows, current, delta, (k - 1) as nat);
    }
}

/// If some step count in `1..=k` lands on an interactive row, a hit is found.
pub proof fn lemma_first_hit_complete<T: ListRow>(
    rows: Seq<T>,
    current: int,
    delta: int,
    k: nat,
    j: nat,
)
    requires
        1 <= j <= k,
        interactive_at(rows, step_n(rows.len() as int, current, delta, j)),
    ensures
        first_hit(rows, current, delta, k) is Some,
    decreases k,
{
    if j < k {
        lemma_first_hit_complete(rows, current, delta, (k - 1) as nat, j);
    }
}

/// Moving the selection always lands on an interactive row when the list
/// has one, whichever direction is taken and wherever the selection was.
pub proof fn law_navigate_lands_on_interactive<T: ListRow>(
    rows: Seq<T>,
    current: int,
    delta: int,
    target: int,
)
    requires
        0 <= current < rows.len(),
        interactive_at(rows, target),
    ensures
        interactive_at(rows, spec_navigate_rows(rows, current, delta)),
{
    let len = rows.len() as int;
    let d: int = if delta >= 0 {
        target - current
    } else {
        current - target
    };
    // the distance travelled, reduced into 1..=len
    let j: int = if d > 0 {
        d
    } else if d < 0 {
        d + len
    } else {
        len
    };
    assert(1 <= j <= len);
    if d < 0 {
        lemma_mod_add_multiples_vanish(d, len);
        lemma_small_mod((d + len) as nat, len as nat);
    }
    if delta >= 0 {
        lemma_step_n_forward(len, current, delta, j as nat);
        if d > 0 {
            lemma_small_mod(target as nat, len as nat);
        } else if d < 0 {
            assert(current + j == target + len);
            lemma_mod_add_multiples_vanish(target, len);
            lemma_small_mod(target as nat, len as nat);
        } else {
            assert(current + j == len + current);
            lemma_mod_add_multiples_vanish(current, len);
            lemma_small_mod(current as nat, len as nat);
        }
    } else {
        lemma_step_n_backward(len, current, delta, j as nat);
        if d > 0 {
            lemma_small_mod(target as nat, len as nat);
        } else if d < 0 {
            assert(current - j == -len + target);
            lemma_mod_sub_multiples_vanish(target, len);
            lemma_small_mod(target as nat, len as nat);
        } else {
            assert(current - j == -len + current);
            lemma_mod_sub_multiples_vanish(current, len);
            lemma_small_mod(current as nat, len as nat);
        }
    }
    assert(step_n(len, current, delta, j as nat) == target);
    lemma_first_hit_complete(rows, current, delta, rows.len(), j as nat);
    lemma_first_hit_sound(rows, current, delta, rows.len());
}

/// With no interactive row, moving leaves the selection where it was.
pub proof fn law_navigate_without_interactive_stays<T: ListRow>(
    rows: Seq<T>,
    current: int,
    delta: int,
)
    requires
        forall|i: int| !interactive_at(rows, i),
    ensures
        spec_navigate_rows(rows, current, delta) == current,
{
    if rows.len() > 0 && first_hit(rows, current, delta, rows.len()) is Some {
        lemma_first_hit_sound(rows, current, delta, rows.len());
    }
}

/// A plain step forward followed by a step back returns to the start.
pub proof fn law_navigate_simple_round_trip(len: int, current: int)
    requires
        0 <= current < len,
    ensures
        spec_navigate_simple(len, spec_navigate_simple(len, current, 1), -1) == current,
        spec_navigate_simple(len, spec_navigate_simple(len, current, -1), 1) == current,
{
}

} // verus!
