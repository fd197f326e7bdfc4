//! Field paths: the names from the document root down to a field, joined by
//! `.`.

use vstd::prelude::*;
use vstd::string::*;

verus! {

/// The path of the field `name` inside the record at `parent`.
pub open spec fn field_path(parent: Seq<char>, name: Seq<char>) -> Seq<char> {
    if parent.len() == 0 {
        name
    } else {
        parent + seq!['.'] + name
    }
}

/// Joins a record's path and a field name into the field's path.
pub fn path_of(parent: &str, name: &str) -> (path: String)
    ensures
        path@ == field_path(parent@, name@),
{
    if parent.is_empty() {
        String::from_str(name)
    } else {
        proof {
            reveal_strlit(".");
            assert("."@ =~= seq!['.']);
        }
        let mut path = String::from_str(parent);
        path.append(".");
        path.append(name);
        path
    }
}

} // verus!
