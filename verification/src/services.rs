//! The two stores the relay rests on: the user directory and the message links.

pub mod message_link;
pub mod user;

use vstd::prelude::*;

verus! {

/// Where the column `name` stands among the columns of a row: the last column of that
/// name, as a table from names to places would have it.
pub fn column_index(columns: &Vec<String>, name: &str) -> (r: Option<usize>)
    ensures
        match r {
            Some(i) => i < columns@.len() && columns@[i as int]@ == name@ && forall|j: int|
                i < j < columns@.len() ==> (#[trigger] columns@[j])@ != name@,
            None => forall|j: int| 0 <= j < columns@.len() ==> (#[trigger] columns@[j])@ != name@,
        },
{
    let wanted = String::from_str(name);
    let mut i: usize = columns.len();
    while i > 0
        invariant
            i <= columns@.len(),
            wanted@ == name@,
            forall|j: int| i <= j < columns@.len() ==> (#[trigger] columns@[j])@ != name@,
        decreases i,
    {
        i -= 1;
        if columns[i] == wanted {
            return Some(i);
        }
    }
    None
}

} // verus!
