//! Parameters of a request that repeat one name for each item of a list.
use vstd::prelude::*;

verus! {

/// A list of items sent as parameters that all have the same name, such as
/// `tags[]=a&tags[]=b`.
pub struct ArrayParams<'a, T> {
    name: &'static str,
    items: &'a [T],
}

impl<'a, T> ArrayParams<'a, T> {
    /// The name every item is sent under.
    pub closed spec fn param_name(&self) -> Seq<char> {
        self.name@
    }

    /// The items, in order.
    pub closed spec fn param_items(&self) -> Seq<T> {
        self.items@
    }

    pub fn new(name: &'static str, items: &'a [T]) -> (r: Self)
        ensures
            r.param_name() == name@,
            r.param_items() == items@,
    {
        ArrayParams { name, items }
    }

    /// The name-item pairs the parameters are sent as: one for each item,
    /// in order, each under the same name.
    pub fn entries(&self) -> (r: Vec<(&'static str, &'a T)>)
        ensures
            r@.len() == self.param_items().len(),
            forall|i: int|
                0 <= i < r@.len() ==> (#[trigger] r@[i]).0@ == self.param_name() && *r@[i].1
                    == self.param_items()[i],
    {
        let mut out: Vec<(&'static str, &'a T)> = Vec::new();
        let mut i: usize = 0;
        while i < self.items.len()
            invariant
                i <= self.items@.len(),
                out@.len() == i,
                forall|j: int|
                    0 <= j < i ==> (#[trigger] out@[j]).0@ == self.name@ && *out@[j].1
                        == self.items@[j],
            decreases self.items@.len() - i,
        {
            out.push((self.name, &self.items[i]));
            i = i + 1;
        }
        out
    }
}

} // verus!
