//! The top-level application state: the namespace and path strings, the
//! focus mode, the current screen, and the per-screen collections.

use crate::state::{FieldV, TerminalState, TerminalStateV};
use crate::util::{
    AvailableOption, EditModeType, ItemOption, ItemOptionV, ListV, MenuType, OptionV,
};
use vstd::prelude::*;
use vstd::string::StringExecFns;

verus! {

/// The current state of the wizard.
pub struct App<'a> {
    pub namespace: String,
    pub path: String,
    pub mode: EditModeType,
    pub state: TerminalState<'a>,
    pub menu: MenuType,
}

/// Mathematical model of an [`App`].
#[verifier::ext_equal]
pub ghost struct AppV {
    pub namespace: Seq<char>,
    pub path: Seq<char>,
    pub mode: EditModeType,
    pub state: TerminalStateV,
    pub menu: MenuType,
}

impl AppV {
    /// Every cursor of every list is a valid index when set.
    pub open spec fn wf(self) -> bool {
        &&& self.state.options.wf()
        &&& self.state.block_options.wf()
        &&& self.state.item_options.wf()
        &&& self.state.item_text_fields.wf()
    }
}

impl<'a> View for App<'a> {
    type V = AppV;

    open spec fn view(&self) -> AppV {
        AppV {
            namespace: self.namespace@,
            path: self.path@,
            mode: self.mode,
            state: self.state@,
            menu: self.menu,
        }
    }
}

/// The state the wizard starts in: the placeholder namespace and path, no
/// focus, the main menu with its two entries, the two item options with only
/// the lang-file generation enabled, no block entries, the two item text
/// fields, and no cursor set anywhere.
pub open spec fn initial_app() -> AppV {
    AppV {
        namespace: "modid"@,
        path: "Example"@,
        mode: EditModeType::Neutral,
        state: TerminalStateV {
            options: ListV {
                elems: seq![
                    OptionV {
                        label: "Create Item"@,
                        desc: "Generates JSON files for an item."@,
                    },
                    OptionV {
                        label: "Create Block"@,
                        desc: "Generates JSON files for a block."@,
                    },
                ],
                cursor: None,
            },
            block_options: ListV { elems: Seq::empty(), cursor: None },
            item_options: ListV {
                elems: seq![
                    ItemOptionV {
                        label: "Handheld"@,
                        desc: "Whether your item inherits handheld properties ('generated' is default)."@,
                        active: false,
                    },
                    ItemOptionV {
                        label: "Generate lang file"@,
                        desc: "A lang json file will be generated with the translation for your item."@,
                        active: true,
                    },
                ],
                cursor: None,
            },
            item_text_fields: ListV {
                elems: seq![
                    FieldV { title: "Identifier"@, data: "example"@ },
                    FieldV { title: "Display Name"@, data: "example"@ },
                ],
                cursor: None,
            },
        },
        menu: MenuType::MainMenu,
    }
}

impl<'a> App<'a> {
    /// A freshly started wizard, in the state [`initial_app`] describes.
    pub fn new() -> (r: Self)
        ensures
            r@ == initial_app(),
            r@.wf(),
    {
        let mut options: Vec<AvailableOption<'a>> = Vec::new();
        options.push(AvailableOption::new("Create Item", "Generates JSON files for an item."));
        options.push(AvailableOption::new("Create Block", "Generates JSON files for a block."));
        let mut item_options: Vec<ItemOption<'a>> = Vec::new();
        item_options.push(
            ItemOption::new(
                "Handheld",
                "Whether your item inherits handheld properties ('generated' is default).",
            ),
        );
        item_options.push(
            ItemOption::active(
                "Generate lang file",
                "A lang json file will be generated with the translation for your item.",
            ),
        );
        let r = Self {
            namespace: String::from_str("modid"),
            path: String::from_str("Example"),
            mode: EditModeType::Neutral,
            state: TerminalState::new(options, item_options),
            menu: MenuType::MainMenu,
        };
        proof {
            assert(r@.state.options.elems =~= initial_app().state.options.elems);
            assert(r@.state.item_options.elems =~= initial_app().state.item_options.elems);
            assert(r@ =~~= initial_app());
        }
        r
    }

    /// Move to another screen; focus always returns to neutral.
    pub fn navigate(&mut self, menu: MenuType)
        ensures
            final(self)@ == (AppV { mode: EditModeType::Neutral, menu, ..old(self)@ }),
    {
        self.mode = EditModeType::Neutral;
        self.menu = menu;
    }

    /// The screen currently displayed.
    pub fn current_menu(&self) -> (r: &MenuType)
        ensures
            *r == self@.menu,
    {
        &self.menu
    }

    /// Change which input target owns keystrokes.
    pub fn set_mode(&mut self, mode: EditModeType)
        ensures
            final(self)@ == (AppV { mode, ..old(self)@ }),
    {
        self.mode = mode;
    }

    /// The idle hook: nothing happens on a tick.
    pub fn tick(&self) {
    }
}

} // verus!
