//! Cores, the slots of a relay chain's execution capacity, and how one is
//! drawn.
use vstd::prelude::*;
use vstd::string::StringExecFns;
use std::collections::BTreeMap;
use crate::text::{decimal, decimal_string};

verus! {

/// Position of a core among the cores of its block.
pub type Index = usize;

/// Identifier of a parachain.
pub type ParaId = u32;

/// A colour: hue in degrees, saturation and lightness in percent.
pub type Color = (u32, u32, u32);

/// The identifiers of the parachains of a relay chain.
pub type ParachainIds = Vec<ParaId>;

/// The colour of each parachain.
pub type ParachainColors = BTreeMap<ParaId, Color>;

/// The cores of one block, in the order of their indices.
pub type Corespace = Vec<Core>;

/// One core at one block: empty, or occupied by a parachain.
#[derive(Debug, Clone, Copy, PartialEq, Eq, Structural)]
pub struct Core {
    pub index: Index,
    pub para_id: Option<ParaId>,
}

/// How cores are drawn.
#[derive(Debug, PartialEq, Eq)]
pub enum CoreView {
    /// No way to draw cores is at hand.
    NotApplicable,
    /// Empty or occupied.
    Binary,
    /// In the colour of the parachain that occupies the core.
    Multi(ParachainColors),
}

/// The style class of a core that `para_id` occupies, drawn in colours.
pub open spec fn para_class(para_id: ParaId) -> Seq<char> {
    "para__"@ + decimal(para_id as nat)
}

/// The inline style that paints a core in `color`.
pub open spec fn color_style(color: Color) -> Seq<char> {
    "background-color: hsl("@ + decimal(color.0 as nat) + " "@ + decimal(color.1 as nat) + "% "@
        + decimal(color.2 as nat) + "%);"@
}

/// What the drawing of a core is given: its style class and its inline
/// style.
#[derive(Debug, PartialEq, Eq)]
pub struct CoreComponentProps {
    pub class: Option<String>,
    pub style: Option<String>,
}

impl Core {
    pub fn new(index: usize, para_id: Option<ParaId>) -> (core: Self)
        ensures
            core == (Core { index, para_id }),
    {
        Self { index, para_id }
    }

    /// What the drawing of the core is given under `view`, which is a view
    /// that can draw.
    pub fn props(&self, view: &CoreView) -> (props: CoreComponentProps)
        requires
            !(*view is NotApplicable),
        ensures
            props.class matches Some(text) && text@ == view.spec_class(self.para_id),
            match view.spec_style(self.para_id) {
                Some(text) => props.style matches Some(s) && s@ == text,
                None => props.style is None,
            },
    {
        CoreComponentProps { class: view.class(self.para_id), style: view.style(self.para_id) }
    }
}

impl Clone for CoreView {
    fn clone(&self) -> (copy: Self)
        ensures
            match (*self, copy) {
                (CoreView::NotApplicable, CoreView::NotApplicable) => true,
                (CoreView::Binary, CoreView::Binary) => true,
                (CoreView::Multi(colors), CoreView::Multi(copied)) => copied@ == colors@,
                _ => false,
            },
    {
        match self {
            Self::NotApplicable => Self::NotApplicable,
            Self::Binary => Self::Binary,
            Self::Multi(colors) => Self::Multi(colors.clone()),
        }
    }
}

impl CoreView {
    /// The style class of a core with the given occupant.
    pub open spec fn spec_class(&self, para_id: Option<ParaId>) -> Seq<char>
        recommends
            !(*self is NotApplicable),
    {
        match (*self, para_id) {
            (CoreView::Binary, Some(_)) => "core__1"@,
            (CoreView::Multi(_), Some(id)) => para_class(id),
            _ => "core__0"@,
        }
    }

    /// The inline style of a core with the given occupant: the colour of the
    /// occupant where cores are drawn in colours and it has one.
    pub open spec fn spec_style(&self, para_id: Option<ParaId>) -> Option<Seq<char>>
        recommends
            !(*self is NotApplicable),
    {
        match (*self, para_id) {
            (CoreView::Multi(colors), Some(id)) => if colors@.contains_key(id) {
                Some(color_style(colors@[id]))
            } else {
                None
            },
            _ => None,
        }
    }

    /// The style class of a core. A view that cannot draw has none to give.
    pub fn class(&self, para_id: Option<ParaId>) -> (class: Option<String>)
        requires
            !(*self is NotApplicable),
        ensures
            class matches Some(text) && text@ == self.spec_class(para_id),
    {
        match self {
            Self::Multi(_) => {
                if let Some(id) = para_id {
                    let mut text = String::from_str("para__");
                    let number = decimal_string(id as u64);
                    text.append(number.as_str());
                    Some(text)
                } else {
                    Some(String::from_str("core__0"))
                }
            },
            _ => {
                if para_id.is_some() {
                    Some(String::from_str("core__1"))
                } else {
                    Some(String::from_str("core__0"))
                }
            },
        }
    }

    /// The inline style of a core. A view that cannot draw has none to give.
    pub fn style(&self, para_id: Option<ParaId>) -> (style: Option<String>)
        requires
            !(*self is NotApplicable),
        ensures
            match self.spec_style(para_id) {
                Some(text) => style matches Some(s) && s@ == text,
                None => style is None,
            },
    {
        match self {
            Self::Multi(parachain_colors) => {
                if let Some(id) = para_id {
                    if let Some(color) = parachain_colors.get(&id) {
                        let mut text = String::from_str("background-color: hsl(");
                        let hue = decimal_string(color.0 as u64);
                        text.append(hue.as_str());
                        text.append(" ");
                        let saturation = decimal_string(color.1 as u64);
                        text.append(saturation.as_str());
                        text.append("% ");
                        let lightness = decimal_string(color.2 as u64);
                        text.append(lightness.as_str());
                        text.append("%);");
                        return Some(text);
                    }
                }
                None
            },
            _ => None,
        }
    }
}

} // verus!
