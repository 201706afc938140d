//! A snapshot of environment variables, handed in by the front end.
//!
//! The masquerading rule expands `%NAME%` placeholders in the expected
//! directories of the known-process database. Reading the process environment
//! is the front end's job; the library receives the variables as plain data.

use vstd::prelude::*;

use crate::process::opt_text;
use crate::text::{eq_ignore_ascii_case, equal_ignoring_ascii_case};

verus! {

/// The value of the first variable whose name equals `name` ignoring ASCII
/// case (Windows variable names are not case-sensitive), if any.
pub open spec fn variable_value(variables: Seq<(Seq<char>, Seq<char>)>, name: Seq<char>) -> Option<
    Seq<char>,
>
    decreases variables.len(),
{
    if variables.len() == 0 {
        None
    } else if equal_ignoring_ascii_case(variables[0].0, name) {
        Some(variables[0].1)
    } else {
        variable_value(variables.drop_first(), name)
    }
}

/// The characters of each (name, value) pair.
pub open spec fn pairs_view(pairs: Seq<(String, String)>) -> Seq<(Seq<char>, Seq<char>)> {
    pairs.map_values(|p: (String, String)| (p.0@, p.1@))
}

/// Environment variables as (name, value) pairs, in the order given.
pub struct Environment {
    variables: Vec<(String, String)>,
}

impl Environment {
    /// The variables, as character sequences.
    pub closed spec fn variables(&self) -> Seq<(Seq<char>, Seq<char>)> {
        pairs_view(self.variables@)
    }

    /// An environment holding exactly the given variables.
    pub fn new(variables: Vec<(String, String)>) -> (environment: Self)
        ensures
            environment.variables() == pairs_view(variables@),
    {
        Environment { variables }
    }

    /// An environment with no variables: every placeholder stays as written.
    pub fn empty() -> (environment: Self)
        ensures
            environment.variables() == Seq::<(Seq<char>, Seq<char>)>::empty(),
    {
        let environment = Environment { variables: Vec::new() };
        assert(environment.variables() =~= Seq::<(Seq<char>, Seq<char>)>::empty());
        environment
    }

    /// The value of the variable `name`; names are compared ignoring ASCII
    /// case, as Windows compares them.
    pub fn get(&self, name: &String) -> (value: Option<String>)
        ensures
            opt_text(value) == variable_value(self.variables(), name@),
    {
        let ghost all = self.variables();
        let mut i: usize = 0;
        assert(all.skip(0) == all);
        while i < self.variables.len()
            invariant
                i <= self.variables@.len(),
                all == self.variables(),
                all == pairs_view(self.variables@),
                variable_value(all, name@) == variable_value(all.skip(i as int), name@),
            decreases self.variables@.len() - i,
        {
            let pair = &self.variables[i];
            proof {
                let rest = all.skip(i as int);
                assert(rest[0] == (pair.0@, pair.1@));
                assert(rest.drop_first() == all.skip(i as int + 1));
            }
            if eq_ignore_ascii_case(pair.0.as_str(), name.as_str()) {
                return Some(pair.1.clone());
            }
            i = i + 1;
        }
        assert(all.skip(i as int).len() == 0);
        None
    }
}

} // verus!
