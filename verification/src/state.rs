//! The per-screen collections of the wizard: the main-menu entries, the
//! block-screen entries, the item screen's toggleable options and its text
//! fields.

use crate::util::{views_of, AvailableOption, ItemOption, ItemOptionV, ListV, OptionV, StatefulList};
use vstd::prelude::*;
use vstd::string::StringExecFns;

verus! {

/// The state of one editable text field: a fixed title and the edited text.
pub struct TextFieldState<'a> {
    title: &'a str,
    data: String,
}

/// Mathematical model of a [`TextFieldState`].
#[verifier::ext_equal]
pub ghost struct FieldV {
    pub title: Seq<char>,
    pub data: Seq<char>,
}

impl<'a> View for TextFieldState<'a> {
    type V = FieldV;

    closed spec fn view(&self) -> FieldV {
        FieldV { title: self.title@, data: self.data@ }
    }
}

impl<'a> TextFieldState<'a> {
    /// A field with the given title, pre-filled with placeholder text.
    pub fn new(title: &'a str) -> (r: Self)
        ensures
            r@ == (FieldV { title: title@, data: "example"@ }),
    {
        Self { title, data: String::from_str("example") }
    }

    pub fn title(&self) -> (r: &'a str)
        ensures
            r@ == self@.title,
    {
        self.title
    }

    /// Mutable access to the edited text.
    pub fn data(&mut self) -> (r: &mut String)
        ensures
            r@ == old(self)@.data,
            final(self)@.data == final(r)@,
            final(self)@.title == old(self)@.title,
    {
        &mut self.data
    }
}

/// The collections shown by the three screens.
pub struct TerminalState<'a> {
    options_state: StatefulList<AvailableOption<'a>>,
    block_options: StatefulList<&'a str>,
    item_options: StatefulList<ItemOption<'a>>,
    item_text_fields: StatefulList<TextFieldState<'a>>,
}

/// Mathematical model of a [`TerminalState`].
#[verifier::ext_equal]
pub ghost struct TerminalStateV {
    pub options: ListV<OptionV>,
    pub block_options: ListV<Seq<char>>,
    pub item_options: ListV<ItemOptionV>,
    pub item_text_fields: ListV<FieldV>,
}

impl<'a> View for TerminalState<'a> {
    type V = TerminalStateV;

    open spec fn view(&self) -> TerminalStateV {
        TerminalStateV {
            options: self.options_spec()@,
            block_options: self.block_options_spec()@,
            item_options: self.item_options_spec()@,
            item_text_fields: self.item_text_fields_spec()@,
        }
    }
}

impl<'a> TerminalState<'a> {
    /// The main-menu entry list, as a spec-level value.
    pub closed spec fn options_spec(&self) -> StatefulList<AvailableOption<'a>> {
        self.options_state
    }

    /// The block-screen entry list, as a spec-level value.
    pub closed spec fn block_options_spec(&self) -> StatefulList<&'a str> {
        self.block_options
    }

    /// The item screen's toggleable options, as a spec-level value.
    pub closed spec fn item_options_spec(&self) -> StatefulList<ItemOption<'a>> {
        self.item_options
    }

    /// The item screen's text fields, as a spec-level value.
    pub closed spec fn item_text_fields_spec(&self) -> StatefulList<TextFieldState<'a>> {
        self.item_text_fields
    }

    /// The given main-menu entries and item options, an empty block-entry
    /// list, and the two item text fields, all with no cursor set.
    pub fn new(options: Vec<AvailableOption<'a>>, item_options: Vec<ItemOption<'a>>) -> (r: Self)
        ensures
            r@.options.elems == views_of(options@),
            r@.options.cursor is None,
            r@.block_options.elems == Seq::<Seq<char>>::empty(),
            r@.block_options.cursor is None,
            r@.item_options.elems == views_of(item_options@),
            r@.item_options.cursor is None,
            r@.item_text_fields.elems == seq![
                FieldV { title: "Identifier"@, data: "example"@ },
                FieldV { title: "Display Name"@, data: "example"@ },
            ],
            r@.item_text_fields.cursor is None,
    {
        let mut fields: Vec<TextFieldState<'a>> = Vec::new();
        fields.push(TextFieldState::new("Identifier"));
        fields.push(TextFieldState::new("Display Name"));
        let r = Self {
            options_state: StatefulList::of(options),
            item_options: StatefulList::of(item_options),
            block_options: StatefulList::of(Vec::new()),
            item_text_fields: StatefulList::of(fields),
        };
        proof {
            assert(r@.block_options.elems =~= Seq::<Seq<char>>::empty());
            assert(r@.item_text_fields.elems =~= seq![
                FieldV { title: "Identifier"@, data: "example"@ },
                FieldV { title: "Display Name"@, data: "example"@ },
            ]);
        }
        r
    }

    /// The main-menu entry list.
    pub fn options(&mut self) -> (r: &mut StatefulList<AvailableOption<'a>>)
        ensures
            *r == old(self).options_spec(),
            final(self).options_spec() == *final(r),
            final(self).block_options_spec() == old(self).block_options_spec(),
            final(self).item_options_spec() == old(self).item_options_spec(),
            final(self).item_text_fields_spec() == old(self).item_text_fields_spec(),
    {
        &mut self.options_state
    }

    /// The block-screen entry list.
    pub fn block_options(&mut self) -> (r: &mut StatefulList<&'a str>)
        ensures
            *r == old(self).block_options_spec(),
            final(self).block_options_spec() == *final(r),
            final(self).options_spec() == old(self).options_spec(),
            final(self).item_options_spec() == old(self).item_options_spec(),
            final(self).item_text_fields_spec() == old(self).item_text_fields_spec(),
    {
        &mut self.block_options
    }

    /// The item screen's text fields.
    pub fn item_text_fields(&mut self) -> (r: &mut StatefulList<TextFieldState<'a>>)
        ensures
            *r == old(self).item_text_fields_spec(),
            final(self).item_text_fields_spec() == *final(r),
            final(self).options_spec() == old(self).options_spec(),
            final(self).block_options_spec() == old(self).block_options_spec(),
            final(self).item_options_spec() == old(self).item_options_spec(),
    {
        &mut self.item_text_fields
    }

    /// The item screen's toggleable options.
    pub fn item_options(&mut self) -> (r: &mut StatefulList<ItemOption<'a>>)
        ensures
            *r == old(self).item_options_spec(),
            final(self).item_options_spec() == *final(r),
            final(self).options_spec() == old(self).options_spec(),
            final(self).block_options_spec() == old(self).block_options_spec(),
            final(self).item_text_fields_spec() == old(self).item_text_fields_spec(),
    {
        &mut self.item_options
    }
}

} // verus!
