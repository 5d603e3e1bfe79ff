//! Query parameters of a request, as text.

use vstd::prelude::*;
use vstd::string::*;

verus! {

/// The text-valued query parameters of one request, in the order received.
pub struct Query {
    pub params: Vec<(String, String)>,
}

/// The value of the first parameter named `name`, if there is one.
pub open spec fn first_value(
    params: Seq<(Seq<char>, Seq<char>)>,
    name: Seq<char>,
) -> Option<Seq<char>>
    decreases params.len(),
{
    if params.len() == 0 {
        None
    } else if params[0].0 == name {
        Some(params[0].1)
    } else {
        first_value(params.drop_first(), name)
    }
}

/// A parameter that is required: present and not empty.
pub open spec fn required_value(
    params: Seq<(Seq<char>, Seq<char>)>,
    name: Seq<char>,
) -> Option<Seq<char>> {
    match first_value(params, name) {
        Some(value) if value.len() > 0 => Some(value),
        _ => None,
    }
}

/// The view of an optional string.
pub open spec fn text_of(value: Option<String>) -> Option<Seq<char>> {
    match value {
        Some(text) => Some(text@),
        None => None,
    }
}

impl View for Query {
    type V = Seq<(Seq<char>, Seq<char>)>;

    open spec fn view(&self) -> Seq<(Seq<char>, Seq<char>)> {
        Seq::new(self.params@.len(), |i: int| (self.params@[i].0@, self.params@[i].1@))
    }
}

impl Query {
    /// A query made of the given name and value pairs.
    pub fn new(params: Vec<(String, String)>) -> (q: Query)
        ensures
            q.params == params,
    {
        Query { params }
    }

    /// The value of the first parameter named `name`.
    pub fn get(&self, name: &str) -> (r: Option<String>)
        ensures
            text_of(r) == first_value(self@, name@),
    {
        let wanted: String = name.to_owned();
        let mut i: usize = 0;
        assert(self@.skip(0) =~= self@);
        while i < self.params.len()
            invariant
                i <= self.params.len(),
                wanted@ == name@,
                first_value(self@, name@) == first_value(self@.skip(i as int), name@),
            decreases self.params.len() - i,
        {
            let ghost rest = self@.skip(i as int);
            assert(rest[0] == self@[i as int]);
            assert(rest.drop_first() =~= self@.skip(i + 1));
            if self.params[i].0 == wanted {
                return Some(self.params[i].1.clone());
            }
            i = i + 1;
        }
        assert(self@.skip(i as int).len() == 0);
        None
    }

    /// The value of the first parameter named `name`, unless it is missing or empty.
    pub fn required(&self, name: &str) -> (r: Option<String>)
        ensures
            text_of(r) == required_value(self@, name@),
    {
        match self.get(name) {
            Some(value) => {
                if value.as_str().is_empty() {
                    None
                } else {
                    Some(value)
                }
            },
            None => None,
        }
    }
}

} // verus!
