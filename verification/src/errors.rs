//! The classified failure of the render path: compilation of the template
//! set failed, or rendering against an already compiled set failed. Either
//! variant carries the underlying diagnostic as text.

use vstd::prelude::*;

verus! {

/// Why rendering the index page failed.
#[derive(Debug, Clone)]
pub enum RenderError {
    /// The template source could not be loaded or parsed.
    Compile(String),
    /// A compiled template could not be rendered against the context.
    Render(String),
}

impl RenderError {
    /// The diagnostic text carried by either variant.
    pub open spec fn detail_spec(self) -> Seq<char> {
        match self {
            RenderError::Compile(m) => m@,
            RenderError::Render(m) => m@,
        }
    }

    /// Returns the diagnostic text carried by either variant.
    pub fn detail(&self) -> (r: &String)
        ensures
            r@ == self.detail_spec(),
    {
        match self {
            RenderError::Compile(m) => m,
            RenderError::Render(m) => m,
        }
    }

    /// Returns whether this is a compilation failure.
    pub fn is_compile(&self) -> (r: bool)
        ensures
            r == (*self is Compile),
    {
        match self {
            RenderError::Compile(_) => true,
            RenderError::Render(_) => false,
        }
    }

    /// Returns whether this is a rendering failure.
    pub fn is_render(&self) -> (r: bool)
        ensures
            r == (*self is Render),
    {
        match self {
            RenderError::Compile(_) => false,
            RenderError::Render(_) => true,
        }
    }

    /// Returns a human-readable description: the word `Error`, a colon, and
    /// the diagnostic carried by the variant.
    pub fn describe(&self) -> (r: String)
        ensures
            r@ == "Error: "@ + self.detail_spec(),
    {
        let mut s = String::from_str("Error: ");
        s.append(self.detail().as_str());
        s
    }
}

} // verus!
