//! The overlay's script-side message handler: which calls it answers and
//! what data they carry.
use vstd::prelude::*;

use crate::text::str_eq;

verus! {

/// Whether a call was made to the handler named `value`.
pub fn is_handler(name: Option<&str>, value: &str) -> (r: bool)
    ensures
        r == (name matches Some(n) && n@ == value@),
{
    match name {
        Some(n) => str_eq(n, value),
        None => false,
    }
}

/// The string value of a call's first argument, if there is one.
pub fn handler_data(arguments: Option<&[Option<String>]>) -> (r: Option<String>)
    ensures
        match arguments {
            Some(a) => if a@.len() > 0 && a@[0] is Some {
                r matches Some(s) && s@ == a@[0]->Some_0@
            } else {
                r is None
            },
            None => r is None,
        },
{
    match arguments {
        Some(a) => {
            if a.len() > 0 {
                match &a[0] {
                    Some(s) => Some(s.clone()),
                    None => None,
                }
            } else {
                None
            }
        },
        None => None,
    }
}

} // verus!
