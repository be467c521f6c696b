//! Routes chat calls to the right platform when several run in one process. Matrix ids
//! are self-describing (`!room:server`, `room|$event`); anything else is treated as a
//! Discord snowflake.

use crate::text;
use vstd::prelude::*;
use vstd::string::*;

verus! {

/// The platforms that run, each if it does.
pub struct RoutedChat<C> {
    pub discord: Option<C>,
    pub matrix: Option<C>,
}

/// Whether an id belongs to Matrix.
pub open spec fn is_matrix_id(id: Seq<char>) -> bool {
    text::starts_with(id, seq!['!']) || id.contains('|')
}

impl<C> RoutedChat<C> {
    /// The platform of an id, if it runs.
    pub open spec fn target(self, id: Seq<char>) -> Option<C> {
        if is_matrix_id(id) {
            self.matrix
        } else {
            self.discord
        }
    }

    /// The connector that an id belongs to.
    pub fn pick(&self, id: &str) -> (r: Result<&C, String>)
        ensures
            match r {
                Ok(c) => self.target(id@) == Some(*c),
                Err(e) => self.target(id@) is None && e@ == "no connector running for id "@ + id@,
            },
    {
        let v = text::chars_of(id);
        let bang = v.len() > 0 && v[0] == '!';
        proof {
            if v@.len() > 0 {
                assert(id@.take(1) =~= seq![v@[0]]);
                assert(seq![v@[0]][0] == v@[0]);
                assert(seq!['!'][0] == '!');
            }
            assert(bang == text::starts_with(id@, seq!['!']));
        }
        let target = if bang || text::contains_char(id, '|') {
            &self.matrix
        } else {
            &self.discord
        };
        match target {
            Some(c) => Ok(c),
            None => Err("no connector running for id ".to_owned().concat(id)),
        }
    }
}

} // verus!
