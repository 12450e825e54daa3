//! The reusable building blocks of the wizard: the focus and screen
//! enumerations, a generic selectable list with a wraparound cursor, and the
//! menu-entry and toggleable-option records it holds.

use vstd::arithmetic::div_mod::{
    lemma_fundamental_div_mod, lemma_fundamental_div_mod_converse_mod,
    lemma_mod_division_less_than_divisor, lemma_small_mod,
};
use vstd::prelude::*;

verus! {

/// Which logical input target currently receives keystrokes.
#[derive(PartialEq, Eq, Structural, Clone, Copy, Debug)]
pub enum EditModeType {
    /// The namespace text field of the main menu is being edited.
    Namespace,
    /// The main menu's option list is being navigated.
    MainMenuOptions,
    /// The item screen's option list is being navigated.
    ItemOptions,
    /// The item screen's identifier text field is being edited.
    ItemIdentifier,
    /// No input target owns keystrokes.
    Neutral,
}

/// Which top-level screen is displayed.
#[derive(PartialEq, Eq, Structural, Clone, Copy, Debug)]
pub enum MenuType {
    MainMenu,
    ItemMenu,
    BlockMenu,
}

impl MenuType {
    /// The screen reached by backing out of this one: every screen backs out
    /// to the main menu.
    pub open spec fn previous_menu(self) -> MenuType {
        MenuType::MainMenu
    }

    /// Whether a back navigation away from this screen is possible.
    pub fn can_navigate_back(&self) -> (r: bool)
        ensures
            r == (*self != MenuType::MainMenu),
    {
        match self {
            MenuType::MainMenu => false,
            _ => true,
        }
    }

    pub fn get_previous_menu(&self) -> (r: MenuType)
        ensures
            r == self.previous_menu(),
    {
        MenuType::MainMenu
    }
}

/// Mathematical model of a [`StatefulList`]: the views of its elements, and
/// the optional cursor.
#[verifier::ext_equal]
pub ghost struct ListV<V> {
    pub elems: Seq<V>,
    pub cursor: Option<usize>,
}

impl<V> ListV<V> {
    /// The cursor, when set, is a valid index into the elements.
    pub open spec fn wf(self) -> bool {
        self.cursor matches Some(i) ==> i < self.elems.len()
    }
}

/// The views of a sequence's elements, element by element.
pub open spec fn views_of<T: View>(s: Seq<T>) -> Seq<T::V> {
    s.map_values(|t: T| t@)
}

/// Updating one element and then taking views is updating the view sequence
/// with the element's view.
pub broadcast proof fn lemma_views_of_update<T: View>(s: Seq<T>, i: int, x: T)
    requires
        0 <= i < s.len(),
    ensures
        #[trigger] views_of(s.update(i, x)) == views_of(s).update(i, x@),
{
    assert(views_of(s.update(i, x)) =~= views_of(s).update(i, x@));
}

/// Where the cursor stands after moving the highlight one entry forward:
/// unset becomes the first index, the last index wraps to the first, and an
/// empty list is left untouched.
pub open spec fn wrap_next(cur: Option<usize>, len: nat) -> Option<usize> {
    if len == 0 {
        cur
    } else {
        match cur {
            Option::None => Some(0usize),
            Option::Some(i) => if i + 1 >= len {
                Some(0usize)
            } else {
                Some((i + 1) as usize)
            },
        }
    }
}

/// Where the cursor stands after moving the highlight one entry backward:
/// unset becomes the first index, the first index wraps to the last, and an
/// empty list is left untouched.
pub open spec fn wrap_previous(cur: Option<usize>, len: nat) -> Option<usize> {
    if len == 0 {
        cur
    } else {
        match cur {
            Option::None => Some(0usize),
            Option::Some(i) => if i == 0 {
                Some((len - 1) as usize)
            } else {
                Some((i - 1) as usize)
            },
        }
    }
}

/// An ordered collection of entries paired with an optional highlight cursor.
///
/// The cursor, when set, always indexes into the collection, as long as the
/// elements are only mutated in place and never removed.
pub struct StatefulList<T> {
    list: Vec<T>,
    cursor: Option<usize>,
}

impl<T: View> View for StatefulList<T> {
    type V = ListV<T::V>;

    open spec fn view(&self) -> ListV<T::V> {
        ListV { elems: views_of(self.elems()), cursor: self.cursor_index() }
    }
}

impl<T> StatefulList<T> {
    /// The elements, as a sequence.
    pub closed spec fn elems(&self) -> Seq<T> {
        self.list@
    }

    /// The cursor: the highlighted index, if any.
    pub closed spec fn cursor_index(&self) -> Option<usize> {
        self.cursor
    }

    /// The cursor, when set, is a valid index into the elements.
    pub open spec fn wf(&self) -> bool {
        self.cursor_index() matches Some(i) ==> i < self.elems().len()
    }

    /// A list of the given elements, with no cursor set.
    pub fn of(list: Vec<T>) -> (r: Self)
        ensures
            r.elems() == list@,
            r.cursor_index() is None,
            r.wf(),
    {
        Self { list, cursor: None }
    }

    /// The highlighted index, if any.
    pub fn selected(&self) -> (r: Option<usize>)
        ensures
            r == self.cursor_index(),
    {
        self.cursor
    }

    /// Force the cursor to the first entry; on an empty list this is a no-op.
    pub fn select_first(&mut self)
        ensures
            final(self).elems() == old(self).elems(),
            final(self).cursor_index() == (if old(self).elems().len() == 0 {
                old(self).cursor_index()
            } else {
                Some(0usize)
            }),
            old(self).wf() ==> final(self).wf(),
    {
        if self.list.len() > 0 {
            self.cursor = Some(0);
        }
    }

    /// Read access to the elements.
    pub fn elements(&self) -> (r: &Vec<T>)
        ensures
            r@ == self.elems(),
    {
        &self.list
    }

    /// Mutable access to the elements. Callers that write through it must
    /// re-validate any index obtained from [`Self::selected`] before using
    /// it, and must not remove elements while a cursor is set.
    pub fn elements_mut(&mut self) -> (r: &mut Vec<T>)
        ensures
            r@ == old(self).elems(),
            final(self).elems() == final(r)@,
            final(self).cursor_index() == old(self).cursor_index(),
    {
        &mut self.list
    }

    /// Advance the highlight by one entry, wrapping to the first entry past
    /// the last; an empty list is left untouched.
    pub fn next(&mut self)
        ensures
            final(self).elems() == old(self).elems(),
            final(self).cursor_index() == wrap_next(
                old(self).cursor_index(),
                old(self).elems().len(),
            ),
            old(self).wf() ==> final(self).wf(),
    {
        if self.list.len() == 0 {
            return;
        }
        let i: usize = match self.cursor {
            Some(i) => if i >= self.list.len() - 1 {
                0
            } else {
                i + 1
            },
            None => 0,
        };
        self.cursor = Some(i);
    }

    /// Move the highlight back by one entry, wrapping to the last entry past
    /// the first; an empty list is left untouched.
    pub fn previous(&mut self)
        ensures
            final(self).elems() == old(self).elems(),
            final(self).cursor_index() == wrap_previous(
                old(self).cursor_index(),
                old(self).elems().len(),
            ),
            old(self).wf() ==> final(self).wf(),
    {
        if self.list.len() == 0 {
            return;
        }
        let i: usize = match self.cursor {
            Some(i) => if i == 0 {
                self.list.len() - 1
            } else {
                i - 1
            },
            None => 0,
        };
        self.cursor = Some(i);
    }
}

/// A menu entry: a label and a description.
pub struct AvailableOption<'a> {
    option: &'a str,
    desc: &'a str,
}

/// Mathematical model of an [`AvailableOption`].
#[verifier::ext_equal]
pub ghost struct OptionV {
    pub label: Seq<char>,
    pub desc: Seq<char>,
}

impl<'a> View for AvailableOption<'a> {
    type V = OptionV;

    closed spec fn view(&self) -> OptionV {
        OptionV { label: self.option@, desc: self.desc@ }
    }
}

impl<'a> AvailableOption<'a> {
    pub fn new(option: &'a str, desc: &'a str) -> (r: AvailableOption<'a>)
        ensures
            r@ == (OptionV { label: option@, desc: desc@ }),
    {
        Self { option, desc }
    }

    pub fn get_option(&self) -> (r: &'a str)
        ensures
            r@ == self@.label,
    {
        self.option
    }

    pub fn get_desc(&self) -> (r: &'a str)
        ensures
            r@ == self@.desc,
    {
        self.desc
    }
}

/// A toggleable option: a label, a description, and an enabled flag.
pub struct ItemOption<'a> {
    option: &'a str,
    desc: &'a str,
    active: bool,
}

/// Mathematical model of an [`ItemOption`].
#[verifier::ext_equal]
pub ghost struct ItemOptionV {
    pub label: Seq<char>,
    pub desc: Seq<char>,
    pub active: bool,
}

/// An option with its enabled flag flipped.
pub open spec fn spec_toggle(o: ItemOptionV) -> ItemOptionV {
    ItemOptionV { active: !o.active, ..o }
}

impl<'a> View for ItemOption<'a> {
    type V = ItemOptionV;

    closed spec fn view(&self) -> ItemOptionV {
        ItemOptionV { label: self.option@, desc: self.desc@, active: self.active }
    }
}

impl<'a> ItemOption<'a> {
    /// An option that starts disabled.
    pub fn new(option: &'a str, desc: &'a str) -> (r: Self)
        ensures
            r@ == (ItemOptionV { label: option@, desc: desc@, active: false }),
    {
        Self { option, desc, active: false }
    }

    /// An option that starts enabled.
    pub fn active(option: &'a str, desc: &'a str) -> (r: Self)
        ensures
            r@ == (ItemOptionV { label: option@, desc: desc@, active: true }),
    {
        Self { option, desc, active: true }
    }

    pub fn get_option(&self) -> (r: &'a str)
        ensures
            r@ == self@.label,
    {
        self.option
    }

    pub fn get_desc(&self) -> (r: &'a str)
        ensures
            r@ == self@.desc,
    {
        self.desc
    }

    pub fn is_active(&self) -> (r: bool)
        ensures
            r == self@.active,
    {
        self.active
    }

    /// Flip the enabled flag unconditionally.
    pub fn toggle(&mut self)
        ensures
            final(self)@ == spec_toggle(old(self)@),
    {
        self.active = !self.active;
    }
}

/// Toggling an option twice restores its original value.
pub proof fn lemma_toggle_twice(o: ItemOptionV)
    ensures
        spec_toggle(spec_toggle(o)) == o,
{
}

/// On an empty list, neither cursor movement sets or moves a cursor.
pub proof fn lemma_wrap_empty_noop(cur: Option<usize>)
    ensures
        wrap_next(cur, 0) == cur,
        wrap_previous(cur, 0) == cur,
{
}

/// Moving backward from the first entry wraps the cursor to the last entry.
pub proof fn lemma_wrap_previous_wraps(len: usize)
    requires
        len > 0,
    ensures
        wrap_previous(Some(0usize), len as nat) == Some((len - 1) as usize),
{
}

/// The cursor after `k` forward moves from index `i`, on a list of length
/// `len`.
pub open spec fn iter_wrap_next(cur: Option<usize>, len: nat, k: nat) -> Option<usize>
    decreases k,
{
    if k == 0 {
        cur
    } else {
        wrap_next(iter_wrap_next(cur, len, (k - 1) as nat), len)
    }
}

/// After `k` forward moves from a valid index `i`, the cursor stands at
/// `(i + k) % len`.
pub proof fn lemma_iter_wrap_next_mod(i: usize, len: usize, k: nat)
    requires
        i < len,
    ensures
        iter_wrap_next(Some(i), len as nat, k) == Some((((i + k) % (len as int))) as usize),
    decreases k,
{
    if k == 0 {
        lemma_small_mod(i as nat, len as nat);
    } else {
        lemma_iter_wrap_next_mod(i, len, (k - 1) as nat);
        let x = i + k - 1;
        let j = x % (len as int);
        lemma_mod_division_less_than_divisor(x, len as int);
        lemma_fundamental_div_mod(x, len as int);
        let q = x / (len as int);
        assert(x + 1 == q * (len as int) + (j + 1)) by {
            assert((len as int) * q == q * (len as int)) by (nonlinear_arith);
        }
        if j + 1 == len {
            assert(x + 1 == (q + 1) * (len as int) + 0) by (nonlinear_arith)
                requires
                    x + 1 == q * (len as int) + (len as int),
            ;
            lemma_fundamental_div_mod_converse_mod(x + 1, len as int, q + 1, 0);
        } else {
            lemma_fundamental_div_mod_converse_mod(x + 1, len as int, q, j + 1);
        }
    }
}

/// For a list of length `len` with the cursor at `i`, `len` forward moves
/// return the cursor to `i`.
pub proof fn lemma_wrap_next_full_cycle(i: usize, len: usize)
    requires
        i < len,
    ensures
        iter_wrap_next(Some(i), len as nat, len as nat) == Some(i),
{
    lemma_iter_wrap_next_mod(i, len, len as nat);
    lemma_fundamental_div_mod_converse_mod(i + len, len as int, 1, i as int);
}

} // verus!
