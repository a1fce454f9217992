use crate::text::clone_names;
use crate::text::join_names;
use crate::text::joined;
use vstd::prelude::*;

verus! {

/// The names of the bindings that enclose the one being declared, outermost
/// first.
#[derive(Debug)]
pub struct Namespace {
    pub parts: Vec<String>,
}

impl DeepView for Namespace {
    type V = Seq<Seq<char>>;

    open spec fn deep_view(&self) -> Seq<Seq<char>> {
        self.parts.deep_view()
    }
}

impl View for Namespace {
    type V = Seq<Seq<char>>;

    open spec fn view(&self) -> Seq<Seq<char>> {
        self.deep_view()
    }
}

impl Namespace {
    /// The empty scope.
    pub fn new() -> (made: Self)
        ensures
            made@ == Seq::<Seq<char>>::empty(),
    {
        let made = Namespace { parts: Vec::new() };
        made
    }

    /// Adds `part` as the innermost segment.
    pub fn add_part(&mut self, part: &str)
        ensures
            final(self)@ == old(self)@.push(part@),
    {
        self.parts.push(part.to_owned());
    }

    /// Whether the scope has no segment.
    pub fn is_empty(&self) -> (empty: bool)
        ensures
            empty == (self@.len() == 0),
    {
        self.parts.len() == 0
    }

    /// The segments written as one word, with an underscore between
    /// neighbours.
    pub fn to_string(&self) -> (text: String)
        ensures
            text@ == joined(self@, "_"@),
    {
        join_names(&self.parts, "_")
    }
}

impl Clone for Namespace {
    fn clone(&self) -> (copy: Self)
        ensures
            copy@ == self@,
    {
        let parts = clone_names(&self.parts);
        Namespace { parts }
    }
}

} // verus!
