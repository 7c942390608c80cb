//! The context-menu model.
//!
//! A menu is an ordered sequence of items; item identity is positional. The
//! backends map a native selection index back to the same position in this
//! sequence, so the sequence must not be reordered between menu construction
//! and popup display.
//!
//! An item's activation behaviour is named by a plain [`ActionId`] token.
//! The caller keeps the callables themselves and invokes whichever token the
//! router hands back; the routing decisions proved in this crate are over
//! these tokens.

use vstd::prelude::*;

verus! {

/// A caller-chosen name for one zero-argument action.
///
/// The router returns the token of the action to invoke; the host that owns
/// the real callables looks it up. Two items may share a token.
#[derive(Clone, Copy, PartialEq, Eq, Structural, Debug)]
pub struct ActionId(pub u64);

/// One entry of a context menu.
pub enum MenuItem {
    /// An interactive entry: selecting it invokes `action`.
    Button { label: String, action: ActionId },
    /// A non-interactive entry, rendered disabled.
    Label { label: String },
    /// A horizontal rule between entries.
    Separator,
}

impl MenuItem {
    /// An item is well formed when its label, encoded for the native shell
    /// with a terminator, fits the 32-bit length fields of the platform's
    /// menu descriptors.
    pub open spec fn wf(&self) -> bool {
        2 * self.spec_label().len() + 1 <= u32::MAX
    }

    /// The item's label text; a separator has none.
    pub open spec fn spec_label(&self) -> Seq<char> {
        match *self {
            MenuItem::Button { label, .. } => label@,
            MenuItem::Label { label } => label@,
            MenuItem::Separator => Seq::empty(),
        }
    }

    /// The token of the item's action; only a button has one.
    pub open spec fn spec_action(&self) -> Option<ActionId> {
        match *self {
            MenuItem::Button { action, .. } => Some(action),
            _ => None,
        }
    }

    /// An interactive entry with a label and the token of its action.
    pub fn button(label: &str, action: ActionId) -> (r: Self)
        requires
            2 * label@.len() + 1 <= u32::MAX,
        ensures
            (r matches MenuItem::Button { label: l, action: a } && l@ == label@ && a == action),
            r.wf(),
    {
        MenuItem::Button { label: label.to_owned(), action }
    }

    /// A disabled, non-interactive entry.
    pub fn label(label: &str) -> (r: Self)
        requires
            2 * label@.len() + 1 <= u32::MAX,
        ensures
            (r matches MenuItem::Label { label: l } && l@ == label@),
            r.wf(),
    {
        MenuItem::Label { label: label.to_owned() }
    }

    /// A separator between entries.
    pub fn separator() -> (r: Self)
        ensures
            r == MenuItem::Separator,
            r.wf(),
    {
        MenuItem::Separator
    }
}

} // verus!
