//! Aggregated validation failures.
//!
//! A `ValidationError` carries a human-readable message. Several independent
//! failure reasons can be merged into one error whose message is the
//! comma-separated, insertion-ordered concatenation of the individual
//! messages.

use vstd::prelude::*;
use vstd::string::StringExecFns;

verus! {

/// The message of an aggregate of `reasons`, in order, separated by ", ".
pub open spec fn joined_reasons(reasons: Seq<Seq<char>>) -> Seq<char>
    decreases reasons.len(),
{
    if reasons.len() == 0 {
        Seq::empty()
    } else if reasons.len() == 1 {
        reasons[0]
    } else {
        joined_reasons(reasons.drop_last()) + ", "@ + reasons.last()
    }
}

/// A human-readable report of one or more reasons a value failed validation.
///
/// The view of a `ValidationError` is its message, a sequence of characters.
#[derive(Debug, Clone)]
pub struct ValidationError {
    message: String,
}

impl View for ValidationError {
    type V = Seq<char>;

    closed spec fn view(&self) -> Seq<char> {
        self.message@
    }
}

impl ValidationError {
    /// A fresh error carrying exactly the given message.
    pub fn new(message: &str) -> (r: Self)
        ensures
            r@ == message@,
    {
        ValidationError { message: String::from_str(message) }
    }

    /// The error's message.
    pub fn message(&self) -> (r: &str)
        ensures
            r@ == self@,
    {
        self.message.as_str()
    }

    /// One error whose message joins the given reasons, in order, with ", ".
    pub fn joining(reasons: &Vec<ValidationError>) -> (r: Self)
        ensures
            r@ == joined_reasons(reasons@.map_values(|e: ValidationError| e@)),
    {
        let ghost msgs = reasons@.map_values(|e: ValidationError| e@);
        let mut combined = String::from_str("");
        proof {
            reveal_strlit("");
        }
        let mut i: usize = 0;
        while i < reasons.len()
            invariant
                i <= reasons.len(),
                msgs == reasons@.map_values(|e: ValidationError| e@),
                combined@ == joined_reasons(msgs.take(i as int)),
            decreases reasons.len() - i,
        {
            if i > 0 {
                combined.append(", ");
            }
            combined.append(reasons[i].message());
            proof {
                assert(msgs.take(i as int + 1).drop_last() =~= msgs.take(i as int));
            }
            i = i + 1;
        }
        proof {
            assert(msgs.take(msgs.len() as int) =~= msgs);
        }
        ValidationError { message: combined }
    }
}

} // verus!
