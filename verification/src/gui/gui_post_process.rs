use crate::gui::Effect;
use vstd::prelude::*;

verus! {

/// The pair of rows to swap when the row at `index` of `length` is moved
/// up (`up`) or down: moving the first row up or the last row down does
/// nothing.
pub open spec fn move_request_of(index: int, length: int, up: bool) -> Option<(usize, usize)> {
    if up {
        if index > 0 {
            Some((index as usize, (index - 1) as usize))
        } else {
            Option::None
        }
    } else {
        if index < length - 1 {
            Some((index as usize, (index + 1) as usize))
        } else {
            Option::None
        }
    }
}

/// Which rows of the effect list to swap when the row at `index` is moved
/// up or down.
pub fn move_request(index: usize, length: usize, up: bool) -> (r: Option<(usize, usize)>)
    requires
        index < length,
    ensures
        r == move_request_of(index as int, length as int, up),
{
    if up {
        if index > 0 {
            Some((index, index - 1))
        } else {
            Option::None
        }
    } else {
        if index < length - 1 {
            Some((index, index + 1))
        } else {
            Option::None
        }
    }
}

/// Swaps two rows of the effect list (each an effect and whether it is
/// active).
pub fn swap_rows(rows: &mut Vec<(Effect, bool)>, a: usize, b: usize)
    requires
        a < old(rows)@.len(),
        b < old(rows)@.len(),
    ensures
        final(rows)@ == old(rows)@.update(a as int, old(rows)@[b as int]).update(
            b as int,
            old(rows)@[a as int],
        ),
{
    let row_a: (Effect, bool) = rows[a];
    let row_b: (Effect, bool) = rows[b];
    rows.set(a, row_b);
    rows.set(b, row_a);
}

/// The palette shown after stepping back from `current`: one less, but no
/// further than the last of `count` palettes.
pub fn previous_palette(current: usize, count: usize) -> (p: usize)
    requires
        current >= 1,
        count >= 1,
    ensures
        p == if current - 1 <= count - 1 { current - 1 } else { count - 1 },
{
    let stepped: usize = current - 1;
    let last: usize = count - 1;
    if stepped > last {
        last
    } else {
        stepped
    }
}

/// The palette shown after stepping forward from `current`: one more, but
/// no further than the last of `count` palettes.
pub fn next_palette(current: usize, count: usize) -> (p: usize)
    requires
        current < usize::MAX,
        count >= 1,
    ensures
        p == if current + 1 <= count - 1 { current + 1 } else { count - 1 },
{
    let stepped: usize = current + 1;
    let last: usize = count - 1;
    if stepped > last {
        last
    } else {
        stepped
    }
}

/// Moving a row and then moving it back restores the list: a swap undoes
/// itself.
pub proof fn swap_twice_restores(rows: Seq<(Effect, bool)>, a: int, b: int)
    requires
        0 <= a < rows.len(),
        0 <= b < rows.len(),
    ensures
        ({
            let once = rows.update(a, rows[b]).update(b, rows[a]);
            once.update(a, once[b]).update(b, once[a])
        }) == rows,
{
    let once = rows.update(a, rows[b]).update(b, rows[a]);
    assert(once.update(a, once[b]).update(b, once[a]) =~= rows);
}

/// A swap keeps every row: it only reorders the list.
pub proof fn swap_keeps_rows(rows: Seq<(Effect, bool)>, a: int, b: int)
    requires
        0 <= a < rows.len(),
        0 <= b < rows.len(),
    ensures
        rows.update(a, rows[b]).update(b, rows[a]).to_multiset() == rows.to_multiset(),
{
    broadcast use vstd::multiset::group_multiset_axioms;

    let first = rows.update(a, rows[b]);
    let once = first.update(b, rows[a]);
    if a == b {
        assert(once =~= rows);
    } else {
        vstd::seq_lib::to_multiset_update(rows, a, rows[b]);
        vstd::seq_lib::to_multiset_update(first, b, rows[a]);
        assert(first[b] == rows[b]);
        let m = rows.to_multiset();
        assert(m.count(rows[a]) > 0) by {
            vstd::seq_lib::to_multiset_contains(rows, rows[a]);
        }
        assert(m.insert(rows[b]).remove(rows[a]).insert(rows[a]).remove(rows[b]) =~= m);
    }
}

/// A moved row always stays inside the list.
pub proof fn move_stays_inside(index: int, length: int, up: bool)
    requires
        0 <= index < length <= usize::MAX,
    ensures
        move_request_of(index, length, up) matches Some(pair) ==> pair.0 < length && pair.1 < length,
{
}

/// A row can be moved up unless it is the first, and down unless it is the
/// last; a move swaps the row with its neighbour in that direction.
pub proof fn move_blocked_only_at_the_ends(index: int, length: int, up: bool)
    requires
        0 <= index < length <= usize::MAX,
    ensures
        move_request_of(index, length, up) is None <==> (if up {
            index == 0
        } else {
            index + 1 == length
        }),
        move_request_of(index, length, up) matches Some(pair) ==> pair.0 == index && (if up {
            pair.1 + 1 == index
        } else {
            pair.1 == index + 1
        }),
{
}

/// Moving a row one way and then moving it back from where it went swaps
/// the same two rows again, so the list is as it was.
pub proof fn move_back_undoes_move(index: int, length: int, up: bool)
    requires
        0 <= index < length <= usize::MAX,
    ensures
        move_request_of(index, length, up) matches Some(pair) ==> move_request_of(
            pair.1 as int,
            length,
            !up,
        ) == Some((pair.1, pair.0)),
{
}

} // verus!
