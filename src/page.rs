use vstd::prelude::*;

verus! {

/// The pages of the navigation bar.
#[derive(Clone, Copy, Debug, PartialEq, Eq, Structural)]
pub enum Page {
    Page1,
}

impl Page {
    /// The title shown for this page.
    pub open spec fn title(self) -> Seq<char> {
        match self {
            Page::Page1 => "Macros"@,
        }
    }

    pub fn as_str(self) -> (r: &'static str)
        ensures
            r@ == self.title(),
    {
        match self {
            Page::Page1 => "Macros",
        }
    }
}

} // verus!
