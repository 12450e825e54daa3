use mod_wizard::app::App;
use mod_wizard::input::{handle_key, Key};
use mod_wizard::state::{TerminalState, TextFieldState};
use mod_wizard::util::{AvailableOption, EditModeType, ItemOption, MenuType};

#[test]
fn initial_state() {
    let mut app = App::new();
    assert_eq!(app.namespace, "modid");
    assert_eq!(app.path, "Example");
    assert_eq!(app.mode, EditModeType::Neutral);
    assert_eq!(app.menu, MenuType::MainMenu);
    assert_eq!(app.state.options().selected(), None);
    assert_eq!(app.state.options().elements().len(), 2);
    assert_eq!(app.state.options().elements()[0].get_option(), "Create Item");
    assert_eq!(app.state.options().elements()[1].get_option(), "Create Block");
    assert_eq!(app.state.block_options().elements().len(), 0);
    assert_eq!(app.state.item_options().elements().len(), 2);
    assert!(!app.state.item_options().elements()[0].is_active());
    assert!(app.state.item_options().elements()[1].is_active());
    assert_eq!(app.state.item_text_fields().elements().len(), 2);
    assert_eq!(app.state.item_text_fields().elements()[0].title(), "Identifier");
    assert_eq!(app.state.item_text_fields().elements()[1].title(), "Display Name");
    app.tick();
}

#[test]
fn escape_from_neutral_is_a_noop() {
    let mut app = App::new();
    handle_key(&mut app, Key::Esc);
    assert_eq!(app.mode, EditModeType::Neutral);
    assert_eq!(app.menu, MenuType::MainMenu);
    assert_eq!(app.namespace, "modid");
    assert_eq!(app.state.options().selected(), None);
    handle_key(&mut app, Key::Esc);
    assert_eq!(app.mode, EditModeType::Neutral);
}

#[test]
fn escape_resets_every_mode_to_neutral() {
    // namespace editing on the main menu
    let mut app = App::new();
    handle_key(&mut app, Key::Char('e'));
    assert_eq!(app.mode, EditModeType::Namespace);
    handle_key(&mut app, Key::Esc);
    assert_eq!(app.mode, EditModeType::Neutral);

    // menu navigation on the main menu
    handle_key(&mut app, Key::Char('m'));
    assert_eq!(app.mode, EditModeType::MainMenuOptions);
    handle_key(&mut app, Key::Esc);
    assert_eq!(app.mode, EditModeType::Neutral);

    // item screen modes
    handle_key(&mut app, Key::Char('m'));
    handle_key(&mut app, Key::Enter);
    assert_eq!(app.menu, MenuType::ItemMenu);
    handle_key(&mut app, Key::Char('m'));
    assert_eq!(app.mode, EditModeType::ItemOptions);
    handle_key(&mut app, Key::Esc);
    assert_eq!(app.mode, EditModeType::Neutral);
    handle_key(&mut app, Key::Char('e'));
    assert_eq!(app.mode, EditModeType::ItemIdentifier);
    handle_key(&mut app, Key::Esc);
    assert_eq!(app.mode, EditModeType::Neutral);
    assert_eq!(app.menu, MenuType::ItemMenu);
}

#[test]
fn main_menu_navigation_wraps() {
    let mut app = App::new();
    handle_key(&mut app, Key::Char('m'));
    assert_eq!(app.mode, EditModeType::MainMenuOptions);
    assert_eq!(app.state.options().selected(), Some(0));
    handle_key(&mut app, Key::Down);
    assert_eq!(app.state.options().selected(), Some(1));
    handle_key(&mut app, Key::Down);
    assert_eq!(app.state.options().selected(), Some(0));
    handle_key(&mut app, Key::Up);
    assert_eq!(app.state.options().selected(), Some(1));
    handle_key(&mut app, Key::Up);
    assert_eq!(app.state.options().selected(), Some(0));
}

#[test]
fn enter_opens_item_screen() {
    let mut app = App::new();
    handle_key(&mut app, Key::Char('m'));
    handle_key(&mut app, Key::Enter);
    assert_eq!(app.menu, MenuType::ItemMenu);
    assert_eq!(app.mode, EditModeType::Neutral);
    assert_eq!(app.state.item_options().selected(), Some(0));
}

#[test]
fn enter_opens_block_screen() {
    let mut app = App::new();
    handle_key(&mut app, Key::Char('m'));
    handle_key(&mut app, Key::Down);
    handle_key(&mut app, Key::Enter);
    assert_eq!(app.menu, MenuType::BlockMenu);
    assert_eq!(app.mode, EditModeType::Neutral);
    // the block entry list is empty, so no cursor is set
    assert_eq!(app.state.block_options().selected(), None);
}

#[test]
fn enter_without_highlight_is_a_noop() {
    // menu-navigation mode forced while no entry is highlighted
    let mut app = App::new();
    app.set_mode(EditModeType::MainMenuOptions);
    assert_eq!(app.state.options().selected(), None);
    handle_key(&mut app, Key::Enter);
    assert_eq!(app.menu, MenuType::MainMenu);
    assert_eq!(app.mode, EditModeType::MainMenuOptions);
}

#[test]
fn namespace_editing_lowercases_and_backspaces() {
    let mut app = App::new();
    handle_key(&mut app, Key::Char('e'));
    assert_eq!(app.mode, EditModeType::Namespace);
    handle_key(&mut app, Key::Char('X'));
    assert_eq!(app.namespace, "modidx");
    handle_key(&mut app, Key::Char('7'));
    assert_eq!(app.namespace, "modidx7");
    handle_key(&mut app, Key::Backspace);
    handle_key(&mut app, Key::Backspace);
    assert_eq!(app.namespace, "modid");
    // backspace down to and past empty: no panic, stays empty
    for _ in 0..7 {
        handle_key(&mut app, Key::Backspace);
    }
    assert_eq!(app.namespace, "");
}

#[test]
fn item_option_toggling_via_keys() {
    let mut app = App::new();
    handle_key(&mut app, Key::Char('m'));
    handle_key(&mut app, Key::Enter);
    handle_key(&mut app, Key::Char('m'));
    assert_eq!(app.mode, EditModeType::ItemOptions);
    assert_eq!(app.state.item_options().selected(), Some(0));
    handle_key(&mut app, Key::Char(' '));
    assert!(app.state.item_options().elements()[0].is_active());
    handle_key(&mut app, Key::Char(' '));
    assert!(!app.state.item_options().elements()[0].is_active());
    // move to the second option and toggle it off
    handle_key(&mut app, Key::Down);
    assert_eq!(app.state.item_options().selected(), Some(1));
    handle_key(&mut app, Key::Char(' '));
    assert!(!app.state.item_options().elements()[1].is_active());
    // wrap around the two options
    handle_key(&mut app, Key::Down);
    assert_eq!(app.state.item_options().selected(), Some(0));
    handle_key(&mut app, Key::Up);
    assert_eq!(app.state.item_options().selected(), Some(1));
}

#[test]
fn item_identifier_editing() {
    let mut app = App::new();
    handle_key(&mut app, Key::Char('m'));
    handle_key(&mut app, Key::Enter);
    handle_key(&mut app, Key::Char('e'));
    assert_eq!(app.mode, EditModeType::ItemIdentifier);
    handle_key(&mut app, Key::Char('B'));
    {
        let fields = app.state.item_text_fields();
        assert_eq!(fields.elements_mut()[0].data().as_str(), "exampleb");
    }
    handle_key(&mut app, Key::Backspace);
    {
        let fields = app.state.item_text_fields();
        assert_eq!(fields.elements_mut()[0].data().as_str(), "example");
        // the second field is untouched
        assert_eq!(fields.elements_mut()[1].data().as_str(), "example");
    }
}

#[test]
fn back_navigation_with_q() {
    let mut app = App::new();
    handle_key(&mut app, Key::Char('m'));
    handle_key(&mut app, Key::Enter);
    assert_eq!(app.menu, MenuType::ItemMenu);
    handle_key(&mut app, Key::Char('q'));
    assert_eq!(app.menu, MenuType::MainMenu);
    assert_eq!(app.mode, EditModeType::Neutral);
}

#[test]
fn q_while_editing_is_text_not_navigation() {
    let mut app = App::new();
    handle_key(&mut app, Key::Char('m'));
    handle_key(&mut app, Key::Enter);
    handle_key(&mut app, Key::Char('e'));
    handle_key(&mut app, Key::Char('q'));
    assert_eq!(app.menu, MenuType::ItemMenu);
    {
        let fields = app.state.item_text_fields();
        assert_eq!(fields.elements_mut()[0].data().as_str(), "exampleq");
    }
}

#[test]
fn q_on_main_menu_is_a_noop() {
    let mut app = App::new();
    handle_key(&mut app, Key::Char('q'));
    assert_eq!(app.menu, MenuType::MainMenu);
    assert_eq!(app.mode, EditModeType::Neutral);
    assert_eq!(app.namespace, "modid");
}

#[test]
fn unmapped_keys_are_noops() {
    let mut app = App::new();
    handle_key(&mut app, Key::Other);
    handle_key(&mut app, Key::Up);
    handle_key(&mut app, Key::Down);
    handle_key(&mut app, Key::Enter);
    handle_key(&mut app, Key::Backspace);
    handle_key(&mut app, Key::Char('z'));
    assert_eq!(app.mode, EditModeType::Neutral);
    assert_eq!(app.menu, MenuType::MainMenu);
    assert_eq!(app.namespace, "modid");
    assert_eq!(app.state.options().selected(), None);
}

#[test]
fn navigate_resets_focus() {
    let mut app = App::new();
    app.set_mode(EditModeType::Namespace);
    assert_eq!(app.mode, EditModeType::Namespace);
    app.navigate(MenuType::BlockMenu);
    assert_eq!(*app.current_menu(), MenuType::BlockMenu);
    assert_eq!(app.mode, EditModeType::Neutral);
}

#[test]
fn terminal_state_construction() {
    let options = vec![AvailableOption::new("Create Item", "item"), AvailableOption::new(
        "Create Block",
        "block",
    )];
    let item_options = vec![ItemOption::new("Handheld", "handheld")];
    let mut state = TerminalState::new(options, item_options);
    assert_eq!(state.options().elements().len(), 2);
    assert_eq!(state.options().elements()[1].get_desc(), "block");
    assert_eq!(state.block_options().elements().len(), 0);
    assert_eq!(state.item_options().elements().len(), 1);
    assert_eq!(state.item_text_fields().elements().len(), 2);
}

#[test]
fn text_field_state() {
    let mut field = TextFieldState::new("Identifier");
    assert_eq!(field.title(), "Identifier");
    assert_eq!(field.data().as_str(), "example");
    field.data().push('s');
    assert_eq!(field.data().as_str(), "examples");
}
