//! The list of tests that a run goes through.

use vstd::prelude::*;

verus! {

/// What a test is made of. There is one kind so far: a function that is
/// called once with the running event loop and either returns or panics.
pub enum TestFunction<F> {
    Oneoff(F),
}

/// A test and the name it is reported under. Names are not checked for
/// duplicates.
pub struct WinitBasedTest<F> {
    pub name: &'static str,
    pub function: TestFunction<F>,
}

/// The text of each of `names`, in order.
pub open spec fn texts(names: Seq<&'static str>) -> Seq<Seq<char>> {
    Seq::new(names.len(), |i: int| names[i]@)
}

/// The names of `tests`, in registration order.
pub open spec fn names_of<F>(tests: Seq<WinitBasedTest<F>>) -> Seq<Seq<char>> {
    Seq::new(tests.len(), |i: int| tests[i].name@)
}

/// Collects the names of `tests`, in registration order.
pub fn test_names<F>(tests: &[WinitBasedTest<F>]) -> (names: Vec<&'static str>)
    ensures
        texts(names@) == names_of(tests@),
{
    let mut names: Vec<&'static str> = Vec::new();
    let mut i: usize = 0;
    while i < tests.len()
        invariant
            i <= tests.len(),
            names.len() == i,
            forall|j: int| 0 <= j < i ==> names@[j]@ == tests@[j].name@,
        decreases tests.len() - i,
    {
        names.push(tests[i].name);
        i += 1;
    }
    names
}

} // verus!
