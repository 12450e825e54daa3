//! The focus/mode state machine: one transition function from application
//! state and key event to the next application state.
//!
//! [`step`] is the mathematical transition relation; [`handle_key`] is the
//! executable dispatcher, proved to follow it exactly. Escape always returns
//! focus to neutral before any screen-specific dispatch; a back navigation is
//! possible from every screen but the main menu while focus is neutral; all
//! remaining reactions depend on the current screen and focus mode.

use crate::app::{App, AppV};
use crate::state::{FieldV, TerminalStateV};
use crate::util::{
    lemma_views_of_update, spec_toggle, wrap_next, wrap_previous, EditModeType, ListV, MenuType,
};
use vstd::prelude::*;
use vstd::string::StringExecFns;

verus! {

/// A keyboard event, as far as the wizard reacts to one.
#[derive(PartialEq, Eq, Structural, Clone, Copy, Debug)]
pub enum Key {
    Esc,
    Enter,
    Backspace,
    Up,
    Down,
    Char(char),
    /// Any key the wizard never reacts to.
    Other,
}

/// The lowercase expansion of a character.
pub uninterp spec fn lower_char(c: char) -> Seq<char>;

/// Relies on `char::to_lowercase`: the lowercase expansion of a character
/// depends on the character alone, and the call never panics.
#[verifier::external_body]
fn char_to_lowercase(c: char) -> (r: String)
    ensures
        r@ == lower_char(c),
{
    c.to_lowercase().collect()
}

/// Relies on `String::pop`: removes and returns the last character, or
/// returns `None` and leaves the string unchanged when it is empty.
#[verifier::external_body]
fn pop_char(s: &mut String) -> (r: Option<char>)
    ensures
        old(s)@.len() == 0 ==> final(s)@ == old(s)@ && r is None,
        old(s)@.len() > 0 ==> final(s)@ == old(s)@.drop_last() && r == Some(old(s)@.last()),
{
    s.pop()
}

/// A sequence with its last element removed; the empty sequence is left
/// untouched.
pub open spec fn drop_last_or_empty(s: Seq<char>) -> Seq<char> {
    if s.len() == 0 {
        s
    } else {
        s.drop_last()
    }
}

/// A list with its cursor forced to the first entry; an empty list is left
/// untouched.
pub open spec fn select_first_v<A>(l: ListV<A>) -> ListV<A> {
    if l.elems.len() == 0 {
        l
    } else {
        ListV { cursor: Some(0usize), ..l }
    }
}

/// Escape returns focus to neutral, whatever else holds.
pub open spec fn apply_escape(v: AppV, key: Key) -> AppV {
    if key is Esc {
        AppV { mode: EditModeType::Neutral, ..v }
    } else {
        v
    }
}

/// While focus is neutral, `q` backs out of any screen but the main menu.
pub open spec fn apply_back_navigation(v: AppV, key: Key) -> AppV {
    if v.mode == EditModeType::Neutral && v.menu != MenuType::MainMenu && key == Key::Char('q') {
        AppV { mode: EditModeType::Neutral, menu: v.menu.previous_menu(), ..v }
    } else {
        v
    }
}

/// Enter on the main menu navigates by the highlighted index: the first
/// entry opens the item screen, the second the block screen, and the new
/// screen's list gets its first entry pre-selected; any other index, or no
/// highlight, does nothing.
pub open spec fn main_menu_enter(v: AppV) -> AppV {
    match v.state.options.cursor {
        Some(i) => if i == 0 {
            AppV {
                mode: EditModeType::Neutral,
                menu: MenuType::ItemMenu,
                state: TerminalStateV {
                    item_options: select_first_v(v.state.item_options),
                    ..v.state
                },
                ..v
            }
        } else if i == 1 {
            AppV {
                mode: EditModeType::Neutral,
                menu: MenuType::BlockMenu,
                state: TerminalStateV {
                    block_options: select_first_v(v.state.block_options),
                    ..v.state
                },
                ..v
            }
        } else {
            v
        },
        None => v,
    }
}

/// The main menu's reaction to a key, by focus mode.
pub open spec fn main_menu_step(v: AppV, key: Key) -> AppV {
    match v.mode {
        EditModeType::Neutral => if key == Key::Char('e') {
            AppV { mode: EditModeType::Namespace, ..v }
        } else if key == Key::Char('m') {
            AppV {
                mode: EditModeType::MainMenuOptions,
                state: TerminalStateV { options: select_first_v(v.state.options), ..v.state },
                ..v
            }
        } else {
            v
        },
        EditModeType::MainMenuOptions => match key {
            Key::Down => AppV {
                state: TerminalStateV {
                    options: ListV {
                        cursor: wrap_next(v.state.options.cursor, v.state.options.elems.len()),
                        ..v.state.options
                    },
                    ..v.state
                },
                ..v
            },
            Key::Up => AppV {
                state: TerminalStateV {
                    options: ListV {
                        cursor: wrap_previous(v.state.options.cursor, v.state.options.elems.len()),
                        ..v.state.options
                    },
                    ..v.state
                },
                ..v
            },
            Key::Enter => main_menu_enter(v),
            _ => v,
        },
        EditModeType::Namespace => match key {
            Key::Char(c) => AppV { namespace: v.namespace + lower_char(c), ..v },
            Key::Backspace => AppV { namespace: drop_last_or_empty(v.namespace), ..v },
            _ => v,
        },
        _ => v,
    }
}

/// The highlighted item option with its flag flipped; out-of-range or unset
/// highlights do nothing.
pub open spec fn toggle_highlighted(v: AppV) -> AppV {
    match v.state.item_options.cursor {
        Some(i) => if i < v.state.item_options.elems.len() {
            AppV {
                state: TerminalStateV {
                    item_options: ListV {
                        elems: v.state.item_options.elems.update(
                            i as int,
                            spec_toggle(v.state.item_options.elems[i as int]),
                        ),
                        ..v.state.item_options
                    },
                    ..v.state
                },
                ..v
            }
        } else {
            v
        },
        None => v,
    }
}

/// The first item text field with its text replaced.
pub open spec fn with_first_field_data(v: AppV, data: Seq<char>) -> AppV {
    AppV {
        state: TerminalStateV {
            item_text_fields: ListV {
                elems: v.state.item_text_fields.elems.update(
                    0,
                    FieldV { data, ..v.state.item_text_fields.elems[0] },
                ),
                ..v.state.item_text_fields
            },
            ..v.state
        },
        ..v
    }
}

/// The item screen's reaction to a key, by focus mode.
pub open spec fn item_menu_step(v: AppV, key: Key) -> AppV {
    match v.mode {
        EditModeType::ItemOptions => match key {
            Key::Char(c) => if c == ' ' {
                toggle_highlighted(v)
            } else {
                v
            },
            Key::Down => AppV {
                state: TerminalStateV {
                    item_options: ListV {
                        cursor: wrap_next(
                            v.state.item_options.cursor,
                            v.state.item_options.elems.len(),
                        ),
                        ..v.state.item_options
                    },
                    ..v.state
                },
                ..v
            },
            Key::Up => AppV {
                state: TerminalStateV {
                    item_options: ListV {
                        cursor: wrap_previous(
                            v.state.item_options.cursor,
                            v.state.item_options.elems.len(),
                        ),
                        ..v.state.item_options
                    },
                    ..v.state
                },
                ..v
            },
            _ => v,
        },
        EditModeType::ItemIdentifier => match key {
            Key::Char(c) => if v.state.item_text_fields.elems.len() > 0 {
                with_first_field_data(
                    v,
                    v.state.item_text_fields.elems[0].data + lower_char(c),
                )
            } else {
                v
            },
            Key::Backspace => if v.state.item_text_fields.elems.len() > 0 {
                with_first_field_data(
                    v,
                    drop_last_or_empty(v.state.item_text_fields.elems[0].data),
                )
            } else {
                v
            },
            _ => v,
        },
        EditModeType::Neutral => if key == Key::Char('e') {
            AppV { mode: EditModeType::ItemIdentifier, ..v }
        } else if key == Key::Char('m') {
            AppV { mode: EditModeType::ItemOptions, ..v }
        } else {
            v
        },
        _ => v,
    }
}

/// The complete reaction to one key event: the escape override, then the
/// back navigation, then the screen-specific dispatch. Every state has a
/// defined reaction, possibly a no-op, to every key.
pub open spec fn step(v: AppV, key: Key) -> AppV {
    let v1 = apply_escape(v, key);
    let v2 = apply_back_navigation(v1, key);
    match v2.menu {
        MenuType::MainMenu => main_menu_step(v2, key),
        MenuType::ItemMenu => item_menu_step(v2, key),
        MenuType::BlockMenu => v2,
    }
}

/// Dispatch one key event: the executable counterpart of [`step`].
pub fn handle_key(app: &mut App, key: Key)
    ensures
        final(app)@ == step(old(app)@, key),
{
    broadcast use lemma_views_of_update;

    if key == Key::Esc {
        app.set_mode(EditModeType::Neutral);
    }
    if app.mode == EditModeType::Neutral && app.current_menu().can_navigate_back() {
        if key == Key::Char('q') {
            let prev = app.menu.get_previous_menu();
            app.navigate(prev);
        }
    }
    match *app.current_menu() {
        MenuType::MainMenu => {
            match app.mode {
                EditModeType::Neutral => {
                    match key {
                        Key::Char('e') => {
                            app.set_mode(EditModeType::Namespace);
                        },
                        Key::Char('m') => {
                            app.set_mode(EditModeType::MainMenuOptions);
                            app.state.options().select_first();
                        },
                        _ => {},
                    }
                },
                EditModeType::MainMenuOptions => {
                    match key {
                        Key::Down => app.state.options().next(),
                        Key::Up => app.state.options().previous(),
                        Key::Enter => {
                            let index = app.state.options().selected();
                            match index {
                                Some(val) => {
                                    if val == 0 {
                                        app.navigate(MenuType::ItemMenu);
                                        app.state.item_options().select_first();
                                    } else if val == 1 {
                                        app.navigate(MenuType::BlockMenu);
                                        app.state.block_options().select_first();
                                    }
                                },
                                None => {},
                            }
                        },
                        _ => {},
                    }
                },
                EditModeType::Namespace => {
                    match key {
                        Key::Char(c) => {
                            let low = char_to_lowercase(c);
                            app.namespace.append(low.as_str());
                        },
                        Key::Backspace => {
                            let _ = pop_char(&mut app.namespace);
                        },
                        _ => {},
                    }
                },
                _ => {},
            }
        },
        MenuType::ItemMenu => {
            match app.mode {
                EditModeType::ItemOptions => {
                    match key {
                        Key::Char(' ') => {
                            let options = app.state.item_options();
                            let index = options.selected();
                            match index {
                                Some(pos) => {
                                    let elems = options.elements_mut();
                                    if pos < elems.len() {
                                        let item = &mut elems[pos];
                                        item.toggle();
                                    }
                                },
                                None => {},
                            }
                        },
                        Key::Down => app.state.item_options().next(),
                        Key::Up => app.state.item_options().previous(),
                        _ => {},
                    }
                },
                EditModeType::ItemIdentifier => {
                    match key {
                        Key::Char(c) => {
                            let fields = app.state.item_text_fields();
                            let elems = fields.elements_mut();
                            if elems.len() > 0 {
                                let f = &mut elems[0];
                                let s = f.data();
                                let low = char_to_lowercase(c);
                                s.append(low.as_str());
                            }
                        },
                        Key::Backspace => {
                            let fields = app.state.item_text_fields();
                            let elems = fields.elements_mut();
                            if elems.len() > 0 {
                                let f = &mut elems[0];
                                let _ = pop_char(f.data());
                            }
                        },
                        _ => {},
                    }
                },
                EditModeType::Neutral => {
                    match key {
                        Key::Char('e') => app.set_mode(EditModeType::ItemIdentifier),
                        Key::Char('m') => app.set_mode(EditModeType::ItemOptions),
                        _ => {},
                    }
                },
                _ => {},
            }
        },
        MenuType::BlockMenu => {},
    }
}

/// Pressing Escape transitions focus to neutral exactly, from every state
/// and on every screen, and changes nothing else.
pub proof fn lemma_escape_resets_focus(v: AppV)
    ensures
        step(v, Key::Esc) == (AppV { mode: EditModeType::Neutral, ..v }),
{
}

/// From neutral focus, pressing Escape is a no-op.
pub proof fn lemma_escape_neutral_noop(v: AppV)
    requires
        v.mode == EditModeType::Neutral,
    ensures
        step(v, Key::Esc) == v,
{
    lemma_escape_resets_focus(v);
}

/// The cursor invariant is preserved by every transition: if every cursor is
/// a valid index before a key event, it still is afterwards.
pub proof fn lemma_step_preserves_wf(v: AppV, key: Key)
    requires
        v.wf(),
    ensures
        step(v, key).wf(),
{
}

} // verus!

