//! A small model of the rendered output of the frontend components: just
//! enough structure to state, for every component, which text, loading
//! placeholders and buttons its render produces in each state.
use vstd::prelude::*;
use vstd::string::StringExecFns;

verus! {

/// The rendered tree a component produces.
#[derive(Debug, PartialEq)]
pub enum Html {
    /// An empty node, rendered as nothing.
    Empty,
    /// A spinning loading icon of a fixed diameter.
    LoadingIcon { diameter: u64 },
    /// A text node.
    Text(String),
    /// A container with a class attribute and its children, in order.
    Panel { class: String, children: Vec<Html> },
    /// A button showing a label.
    Button { label: String },
}

/// The loading placeholder a view asks for while a request is in flight.
#[derive(Clone, Copy, Debug, PartialEq, Eq, Structural)]
pub enum LoadingType {
    /// A spinning icon of the given diameter.
    Fidget { diameter: u64 },
    /// No visible placeholder.
    Empty,
}

/// What each loading placeholder renders as.
pub open spec fn loading_view(t: LoadingType) -> Html {
    match t {
        LoadingType::Fidget { diameter } => Html::LoadingIcon { diameter },
        LoadingType::Empty => Html::Empty,
    }
}

impl LoadingType {
    /// Renders the placeholder.
    pub fn view(&self) -> (r: Html)
        ensures
            r == loading_view(*self),
    {
        match self {
            LoadingType::Fidget { diameter } => Html::LoadingIcon { diameter: *diameter },
            LoadingType::Empty => Html::Empty,
        }
    }
}

/// An empty virtual node: what a component renders when there is nothing
/// to show.
pub fn empty() -> (r: Html)
    ensures
        r == Html::Empty,
{
    Html::Empty
}

/// Holds when `v` is a centered panel holding exactly one text node with
/// the characters `msg`.
pub open spec fn is_centered_text(v: Html, msg: Seq<char>) -> bool {
    &&& v matches Html::Panel { class, children }
    &&& class@ == "flexbox-center"@
    &&& children@.len() == 1
    &&& children@[0] matches Html::Text(m)
    &&& m@ == msg
}

/// A centered panel holding one text node.
pub fn centered_text(msg: String) -> (r: Html)
    ensures
        is_centered_text(r, msg@),
{
    let mut children: Vec<Html> = Vec::new();
    children.push(Html::Text(msg));
    Html::Panel { class: String::from_str("flexbox-center"), children }
}

} // verus!
