//! Cursor arithmetic shared by the menus: wrapping lists, bounded lists,
//! and lookups of the current choice in a list of choices.
use vstd::prelude::*;

verus! {

/// Index one step up in a wrapping list of `n` entries.
pub open spec fn wrap_up(i: int, n: int) -> int {
    if i == 0 {
        n - 1
    } else {
        (i - 1) % n
    }
}

/// Index one step down in a wrapping list of `n` entries.
pub open spec fn wrap_down(i: int, n: int) -> int {
    (i + 1) % n
}

/// Index after a left/right press on a wrapping list of `n` choices; a right
/// press wins when both are held.
pub open spec fn cycle(i: int, n: int, left: bool, right: bool) -> int {
    if right {
        (i + 1) % n
    } else if left {
        (i + n - 1) % n
    } else {
        i
    }
}

/// The first index at which `item` stands in `list`, or 0 when it does not.
pub open spec fn index_or_zero<T>(list: Seq<T>, item: T) -> int {
    if exists|k: int| 0 <= k < list.len() && list[k] == item {
        choose|k: int|
            0 <= k < list.len() && list[k] == item && forall|j: int|
                0 <= j < k ==> list[j] != item
    } else {
        0
    }
}

/// The first index at which `item` stands in `list`, if any.
pub open spec fn first_index<T>(list: Seq<T>, item: T) -> Option<int> {
    if exists|k: int| 0 <= k < list.len() && list[k] == item {
        Some(
            choose|k: int|
                0 <= k < list.len() && list[k] == item && forall|j: int|
                    0 <= j < k ==> list[j] != item,
        )
    } else {
        None
    }
}

/// The views of a list of string slices.
pub open spec fn str_views(a: Seq<&str>) -> Seq<Seq<char>> {
    a.map_values(|s: &str| s@)
}

/// `index_or_zero` is the first index, or 0 when there is none.
pub proof fn lemma_index_or_zero_first<T>(list: Seq<T>, item: T)
    ensures
        index_or_zero(list, item) == match first_index(list, item) {
            Some(k) => k,
            None => 0,
        },
        first_index(list, item) matches Some(k) ==> 0 <= k < list.len() && list[k] == item,
{
    if exists|k: int| 0 <= k < list.len() && list[k] == item {
        let k0 = choose|k: int| 0 <= k < list.len() && list[k] == item;
        lemma_first_exists(list, item, k0);
    }
}

/// When `item` occurs in `list`, a first occurrence exists.
pub proof fn lemma_first_exists<T>(list: Seq<T>, item: T, k0: int)
    requires
        0 <= k0 < list.len(),
        list[k0] == item,
    ensures
        exists|k: int|
            0 <= k < list.len() && list[k] == item && forall|j: int| 0 <= j < k ==> list[j] != item,
    decreases k0,
{
    if exists|j: int| 0 <= j < k0 && list[j] == item {
        let j0 = choose|j: int| 0 <= j < k0 && list[j] == item;
        lemma_first_exists(list, item, j0);
    } else {
        assert(forall|j: int| 0 <= j < k0 ==> list[j] != item);
    }
}

/// Position of the first name equal to `item` in a fixed list of names.
pub fn position_in_names(names: &[&str], item: &str) -> (r: Option<usize>)
    ensures
        match first_index(str_views(names@), item@) {
            Some(k) => r == Some(k as usize),
            None => r is None,
        },
{
    let ghost v = str_views(names@);
    let mut i: usize = 0;
    while i < names.len()
        invariant
            0 <= i <= names.len(),
            v == str_views(names@),
            forall|j: int| 0 <= j < i ==> v[j] != item@,
        decreases names.len() - i,
    {
        if crate::text::str_eq(names[i], item) {
            proof {
                assert(v[i as int] == item@);
                lemma_first_exists(v, item@, i as int);
                let k = choose|k: int|
                    0 <= k < v.len() && v[k] == item@ && forall|j: int| 0 <= j < k ==> v[j] != item@;
                if k < i {
                } else if k > i {
                    assert(v[i as int] != item@);
                }
            }
            return Some(i);
        }
        i = i + 1;
    }
    None
}

/// Left/right cycling through a fixed list of names, from the position of
/// `current` (or the first entry when `current` is absent); returns the new
/// index.
pub fn cycle_name(names: &[&str], current: &str, left: bool, right: bool) -> (r: usize)
    requires
        names.len() > 0,
    ensures
        r == cycle(index_or_zero(str_views(names@), current@), names.len() as int, left, right),
        r < names.len(),
{
    proof {
        lemma_index_or_zero_first(str_views(names@), current@);
    }
    let i = match position_in_names(names, current) {
        Some(k) => k,
        None => 0,
    };
    cycle_index(i, names.len(), left, right)
}

/// One step up in a wrapping list (`if i == 0 { n - 1 } else { (i - 1) % n }`).
pub fn step_up_wrapping(i: usize, n: usize) -> (r: usize)
    requires
        n > 0,
    ensures
        r == wrap_up(i as int, n as int),
        r < n,
{
    if i == 0 {
        n - 1
    } else {
        (i - 1) % n
    }
}

/// One step down in a wrapping list (`(i + 1) % n`).
pub fn step_down_wrapping(i: usize, n: usize) -> (r: usize)
    requires
        n > 0,
        i < usize::MAX,
    ensures
        r == wrap_down(i as int, n as int),
        r < n,
{
    (i + 1) % n
}

/// Left/right cycling through `n` choices from index `i`.
pub fn cycle_index(i: usize, n: usize, left: bool, right: bool) -> (r: usize)
    requires
        n > 0,
        i < n,
    ensures
        r == cycle(i as int, n as int, left, right),
        r < n,
{
    proof {
        lemma_mod_below_twice(i + 1, n as int);
        lemma_mod_below_twice(i + n - 1, n as int);
    }
    if right {
        (i + 1) % n
    } else if left {
        if i == 0 {
            n - 1
        } else {
            i - 1
        }
    } else {
        i
    }
}

/// Position of the first string equal to `item`, or 0 when there is none.
pub fn position_or_zero(list: &Vec<String>, item: &str) -> (r: usize)
    ensures
        r == index_or_zero(list@.map_values(|s: String| s@), item@),
        list.len() > 0 ==> r < list.len(),
{
    let ghost views = list@.map_values(|s: String| s@);
    let mut i: usize = 0;
    while i < list.len()
        invariant
            0 <= i <= list.len(),
            views == list@.map_values(|s: String| s@),
            forall|j: int| 0 <= j < i ==> views[j] != item@,
        decreases list.len() - i,
    {
        if crate::text::str_eq(list[i].as_str(), item) {
            proof {
                assert(views[i as int] == item@);
                let k = choose|k: int|
                    0 <= k < views.len() && views[k] == item@ && forall|j: int|
                        0 <= j < k ==> views[j] != item@;
                if k < i {
                } else if k > i {
                    assert(views[i as int] != item@);
                }
            }
            return i;
        }
        i = i + 1;
    }
    0
}

/// Left/right cycling through a list of named choices, starting from the
/// position of `current` (or the first entry when `current` is absent).
pub fn cycle_choice(list: &Vec<String>, current: &str, left: bool, right: bool) -> (r: usize)
    requires
        list.len() > 0,
    ensures
        r == cycle(
            index_or_zero(list@.map_values(|s: String| s@), current@),
            list.len() as int,
            left,
            right,
        ),
        r < list.len(),
{
    let i = position_or_zero(list, current);
    cycle_index(i, list.len(), left, right)
}

/// For `0 <= x < 2n`, the remainder by `n` is `x` or `x - n`.
pub proof fn lemma_mod_below_twice(x: int, n: int)
    requires
        n > 0,
        0 <= x < 2 * n,
    ensures
        x % n == if x < n { x } else { x - n },
{
    if x < n {
        vstd::arithmetic::div_mod::lemma_small_mod(x as nat, n as nat);
    } else {
        vstd::arithmetic::div_mod::lemma_small_mod((x - n) as nat, n as nat);
        vstd::arithmetic::div_mod::lemma_mod_add_multiples_vanish(x - n, n);
    }
}

/// Moving right and then left returns to the same entry of a wrapping list.
pub proof fn law_cycle_right_then_left(i: int, n: int)
    requires
        0 <= i < n,
    ensures
        cycle(cycle(i, n, false, true), n, true, false) == i,
{
    lemma_mod_below_twice(i + 1, n);
    let j = (i + 1) % n;
    lemma_mod_below_twice(j + n - 1, n);
}

/// Moving left and then right returns to the same entry of a wrapping list.
pub proof fn law_cycle_left_then_right(i: int, n: int)
    requires
        0 <= i < n,
    ensures
        cycle(cycle(i, n, true, false), n, false, true) == i,
{
    lemma_mod_below_twice(i + n - 1, n);
    let j = (i + n - 1) % n;
    lemma_mod_below_twice(j + 1, n);
}

/// Stepping down and then up returns to the same entry of a wrapping list.
pub proof fn law_wrap_down_then_up(i: int, n: int)
    requires
        0 <= i < n,
    ensures
        wrap_up(wrap_down(i, n), n) == i,
{
    lemma_mod_below_twice(i + 1, n);
    if i + 1 < n {
        lemma_mod_below_twice(i, n);
    }
}

} // verus!
