use vstd::prelude::*;

verus! {

/// Someone known by name.
pub struct Person {
    name: String,
}

impl Person {
    /// The person's name.
    pub closed spec fn name_view(&self) -> Seq<char> {
        self.name@
    }

    pub fn new(name: String) -> (r: Self)
        ensures
            r.name_view() == name@,
    {
        Person { name }
    }

    pub fn name(&self) -> (r: &str)
        ensures
            r@ == self.name_view(),
    {
        self.name.as_str()
    }
}

} // verus!
