use vstd::prelude::*;

verus! {

/// The name under which a movie is filed, such as `Star Wars - {tvdb-71}`.
#[derive(Debug, PartialEq, Eq, Hash, PartialOrd, Ord)]
pub struct MovieName(String);

impl View for MovieName {
    type V = Seq<char>;

    closed spec fn view(&self) -> Seq<char> {
        self.0@
    }
}

impl Clone for MovieName {
    fn clone(&self) -> (r: Self)
        ensures
            r == *self,
    {
        MovieName(self.0.clone())
    }
}

impl MovieName {
    /// A movie name that holds the characters of `value`.
    pub fn new(value: &str) -> (r: Self)
        ensures
            r@ == value@,
    {
        MovieName(value.to_owned())
    }

    /// The name as text.
    pub fn to_string(&self) -> (r: String)
        ensures
            r@ == self@,
    {
        self.0.clone()
    }

    /// A copy of the characters of the name.
    pub fn name(&self) -> (r: String)
        ensures
            r@ == self@,
    {
        self.0.clone()
    }
}

} // verus!
