//! Finding a key on an X11 keyboard: which keycode produces Tab.
use vstd::arithmetic::div_mod::*;
use vstd::arithmetic::mul::*;
use vstd::prelude::*;

verus! {

/// The keysym of the Tab key, `XK_Tab`.
pub const XK_TAB: u32 = 0xff09;

/// The `i`-th row of a keyboard mapping: the keysyms of the `i`-th keycode. The last row is
/// shorter where the mapping breaks off.
pub open spec fn row(keysyms: Seq<u32>, per_keycode: int, i: int) -> Seq<u32> {
    let end = (i + 1) * per_keycode;
    keysyms.subrange(
        i * per_keycode,
        if end <= keysyms.len() {
            end
        } else {
            keysyms.len() as int
        },
    )
}

/// Whether a mapping of `keysyms` reaches the `i`-th row.
pub open spec fn has_row(keysyms: Seq<u32>, per_keycode: int, i: int) -> bool {
    0 <= i && i * per_keycode < keysyms.len()
}

/// The row in which Tab first occurs.
pub open spec fn tab_row(keysyms: Seq<u32>, per_keycode: int) -> Option<int> {
    match keysyms.index_of_first(XK_TAB) {
        Some(position) => Some(position / per_keycode),
        None => None,
    }
}

/// The keycode of the row in which Tab first occurs. Rows are counted in a byte.
pub open spec fn tab_keycode(min_keycode: u8, per_keycode: u8, keysyms: Seq<u32>) -> Option<int> {
    match tab_row(keysyms, per_keycode as int) {
        Some(row) => Some(min_keycode + row % 256),
        None => None,
    }
}

/// Whether `keysyms` is a mapping in which Tab can be looked for: its rows are not empty, and
/// the keycode that Tab would have fits in a byte.
pub open spec fn is_searchable(min_keycode: u8, per_keycode: u8, keysyms: Seq<u32>) -> bool {
    &&& per_keycode > 0
    &&& tab_keycode(min_keycode, per_keycode, keysyms) matches Some(keycode) ==> keycode <= u8::MAX
}

/// Finds the first row that holds Tab.
fn find_tab_row(keysyms: &Vec<u32>, per_keycode: u8) -> (found: Option<usize>)
    requires
        per_keycode > 0,
    ensures
        match found {
            Some(row) => tab_row(keysyms@, per_keycode as int) == Some(row as int),
            None => tab_row(keysyms@, per_keycode as int) is None,
        },
{
    proof {
        keysyms@.index_of_first_ensures(XK_TAB);
    }
    let mut position: usize = 0;
    while position < keysyms.len()
        invariant
            position <= keysyms.len(),
            per_keycode > 0,
            forall|j: int| 0 <= j < position ==> keysyms@[j] != XK_TAB,
            match keysyms@.index_of_first(XK_TAB) {
                Some(index) => {
                    &&& 0 <= index < keysyms.len()
                    &&& keysyms@[index] == XK_TAB
                    &&& forall|j: int| 0 <= j < index ==> keysyms@[j] != XK_TAB
                },
                None => !keysyms@.contains(XK_TAB),
            },
        decreases keysyms.len() - position,
    {
        if keysyms[position] == XK_TAB {
            assert(keysyms@.contains(keysyms@[position as int]));
            return Some(position / per_keycode as usize);
        }
        position += 1;
    }
    None
}

/// Says whether [`find_tab_keycode`] takes this mapping.
pub fn check_searchable(min_keycode: u8, per_keycode: u8, keysyms: &Vec<u32>) -> (searchable: bool)
    ensures
        searchable == is_searchable(min_keycode, per_keycode, keysyms@),
{
    if per_keycode == 0 {
        return false;
    }
    match find_tab_row(keysyms, per_keycode) {
        Some(row) => min_keycode as u16 + (row % 256) as u16 <= 255,
        None => true,
    }
}

/// Finds the keycode that produces Tab. The mapping lists `per_keycode` keysyms for each
/// keycode, from `min_keycode` up.
pub fn find_tab_keycode(min_keycode: u8, per_keycode: u8, keysyms: &Vec<u32>) -> (found: Option<u8>)
    requires
        is_searchable(min_keycode, per_keycode, keysyms@),
    ensures
        match found {
            Some(keycode) => tab_keycode(min_keycode, per_keycode, keysyms@) == Some(
                keycode as int,
            ),
            None => tab_keycode(min_keycode, per_keycode, keysyms@) is None,
        },
        found is Some <==> exists|i: int| 0 <= i < keysyms@.len() && #[trigger] keysyms@[i] == 0xff09,
        found matches Some(keycode) ==> forall|first: int|
            0 <= first < keysyms@.len() && #[trigger] keysyms@[first] == 0xff09 && (forall|i: int|
                0 <= i < first ==> keysyms@[i] != 0xff09) ==> keycode == min_keycode + (first
                / per_keycode as int) % 256,
{
    proof {
        keysyms@.index_of_first_ensures(XK_TAB);
    }
    match find_tab_row(keysyms, per_keycode) {
        Some(row) => Some(min_keycode + (row % 256) as u8),
        None => None,
    }
}

/// Tab is found exactly where some keysym of the mapping is Tab, and the row that is found is
/// the first of all rows that hold it.
pub proof fn tab_row_is_the_first_with_tab(keysyms: Seq<u32>, per_keycode: int)
    requires
        per_keycode > 0,
    ensures
        tab_row(keysyms, per_keycode) is Some <==> keysyms.contains(XK_TAB),
        tab_row(keysyms, per_keycode) matches Some(i) ==> {
            &&& has_row(keysyms, per_keycode, i)
            &&& row(keysyms, per_keycode, i).contains(XK_TAB)
            &&& forall|j: int|
                0 <= j < i ==> !(#[trigger] row(keysyms, per_keycode, j)).contains(XK_TAB)
        },
{
    keysyms.index_of_first_ensures(XK_TAB);
    if let Some(position) = keysyms.index_of_first(XK_TAB) {
        let i = position / per_keycode;
        lemma_fundamental_div_mod(position, per_keycode);
        lemma_mul_is_commutative(per_keycode, i);
        lemma_mul_is_distributive_add_other_way(per_keycode, i, 1);
        lemma_mod_bound(position, per_keycode);
        lemma_div_pos_is_pos(position, per_keycode);
        assert(0 <= i * per_keycode <= position < (i + 1) * per_keycode);
        let here = row(keysyms, per_keycode, i);
        assert(here[position - i * per_keycode] == XK_TAB);
        assert forall|j: int| 0 <= j < i implies !(#[trigger] row(
            keysyms,
            per_keycode,
            j,
        )).contains(XK_TAB) by {
            lemma_mul_inequality(j + 1, i, per_keycode);
            lemma_mul_nonnegative(j, per_keycode);
            lemma_mul_is_distributive_add_other_way(per_keycode, j, 1);
            let there = row(keysyms, per_keycode, j);
            assert forall|k: int| 0 <= k < there.len() implies there[k] != XK_TAB by {
                assert(there[k] == keysyms[j * per_keycode + k]);
            }
        }
    }
}

/// A mapping that covers the keycodes from `min_keycode` to `max_keycode` can be searched, and
/// the keycode found is one of them: its own row holds Tab.
pub proof fn tab_keycode_is_on_the_keyboard(
    min_keycode: u8,
    max_keycode: u8,
    per_keycode: u8,
    keysyms: Seq<u32>,
)
    requires
        min_keycode <= max_keycode,
        per_keycode > 0,
        keysyms.len() == (max_keycode - min_keycode + 1) * per_keycode,
    ensures
        is_searchable(min_keycode, per_keycode, keysyms),
        tab_keycode(min_keycode, per_keycode, keysyms) matches Some(keycode) ==> {
            &&& min_keycode <= keycode <= max_keycode
            &&& row(keysyms, per_keycode as int, keycode - min_keycode).contains(XK_TAB)
        },
{
    tab_row_is_the_first_with_tab(keysyms, per_keycode as int);
    if let Some(i) = tab_row(keysyms, per_keycode as int) {
        let count = max_keycode - min_keycode + 1;
        assert(i < count) by (nonlinear_arith)
            requires
                i * per_keycode < count * per_keycode,
                per_keycode > 0,
        ;
        lemma_small_mod(i as nat, 256);
    }
}

/// Tab is found at the keycode of its first occurrence: as many keycodes above `min_keycode` as
/// there are whole rows before that keysym, counted in a byte. The mapping can be searched
/// exactly if that keycode fits in a byte.
pub proof fn first_tab_decides_the_keycode(
    min_keycode: u8,
    per_keycode: u8,
    keysyms: Seq<u32>,
    first: int,
)
    requires
        per_keycode > 0,
        0 <= first < keysyms.len(),
        keysyms[first] == 0xff09,
        forall|i: int| 0 <= i < first ==> keysyms[i] != 0xff09,
    ensures
        tab_keycode(min_keycode, per_keycode, keysyms) == Some(
            min_keycode + (first / per_keycode as int) % 256,
        ),
        is_searchable(min_keycode, per_keycode, keysyms) <==> min_keycode + (first
            / per_keycode as int) % 256 <= 255,
{
    keysyms.index_of_first_ensures(XK_TAB);
    assert(keysyms.contains(keysyms[first]));
}

/// Where no keysym is Tab none is found, and every such mapping with rows can be searched; one
/// without rows never can.
pub proof fn no_tab_no_keycode(min_keycode: u8, per_keycode: u8, keysyms: Seq<u32>)
    requires
        forall|i: int| 0 <= i < keysyms.len() ==> keysyms[i] != 0xff09,
    ensures
        tab_keycode(min_keycode, per_keycode, keysyms) is None,
        is_searchable(min_keycode, per_keycode, keysyms) <==> per_keycode != 0,
        forall|other: Seq<u32>| !(#[trigger] is_searchable(min_keycode, 0, other)),
{
    keysyms.index_of_first_ensures(XK_TAB);
}

/// On a mapping that covers the keyboard Tab is found exactly if some keysym is Tab: then one of
/// the `per_keycode` keysyms of the keycode that is found is Tab, and none of a lower keycode is.
pub proof fn tab_is_found_wherever_it_is(
    min_keycode: u8,
    max_keycode: u8,
    per_keycode: u8,
    keysyms: Seq<u32>,
)
    requires
        min_keycode <= max_keycode,
        per_keycode > 0,
        keysyms.len() == (max_keycode - min_keycode + 1) * per_keycode,
    ensures
        tab_keycode(min_keycode, per_keycode, keysyms) is Some <==> exists|i: int|
            0 <= i < keysyms.len() && #[trigger] keysyms[i] == 0xff09,
        tab_keycode(min_keycode, per_keycode, keysyms) matches Some(keycode) ==> {
            &&& min_keycode <= keycode <= max_keycode
            &&& exists|i: int|
                (keycode - min_keycode) * per_keycode <= i < (keycode - min_keycode + 1)
                    * per_keycode && i < keysyms.len() && #[trigger] keysyms[i] == 0xff09
            &&& forall|i: int|
                0 <= i < (keycode - min_keycode) * per_keycode ==> #[trigger] keysyms[i] != 0xff09
        },
{
    keysyms.index_of_first_ensures(XK_TAB);
    tab_keycode_is_on_the_keyboard(min_keycode, max_keycode, per_keycode, keysyms);
    if let Some(first) = keysyms.index_of_first(XK_TAB) {
        let per: int = per_keycode as int;
        let i = first / per;
        lemma_fundamental_div_mod(first, per);
        lemma_mul_is_commutative(per, i);
        lemma_mul_is_distributive_add_other_way(per, i, 1);
        lemma_mod_bound(first, per);
        lemma_div_pos_is_pos(first, per);
        let count = max_keycode - min_keycode + 1;
        assert(i < count) by (nonlinear_arith)
            requires
                i * per < count * per,
                per > 0,
        ;
        lemma_small_mod(i as nat, 256);
        assert(tab_keycode(min_keycode, per_keycode, keysyms) == Some(min_keycode + i));
        assert(i * per <= first < (i + 1) * per && keysyms[first] == 0xff09);
    }
}

} // verus!
