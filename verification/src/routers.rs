//! What the router reports of an error that a handler could not recover from.

use vstd::prelude::*;
use vstd::string::*;

verus! {

/// The lines that report one cause: `Caused by:`, then the cause on a line of
/// its own behind a tab.
pub open spec fn cause_lines(cause: Seq<char>) -> Seq<char> {
    "Caused by:\n\t"@ + cause + "\n"@
}

/// The lines that report `causes`, the nearest cause first.
pub open spec fn chain_lines(causes: Seq<String>) -> Seq<char>
    decreases causes.len(),
{
    if causes.len() == 0 {
        Seq::empty()
    } else {
        chain_lines(causes.drop_last()) + cause_lines(causes.last()@)
    }
}

/// The report of an error: the error itself, an empty line, then its causes.
pub open spec fn error_chain(error: Seq<char>, causes: Seq<String>) -> Seq<char> {
    error + "\n\n"@ + chain_lines(causes)
}

/// Writes out an error and the chain of what caused it: first `error`, the
/// error's own message, then an empty line, then each of `causes`, the
/// messages down the chain of its sources, under a `Caused by:` heading.
pub fn error_chain_fmt(error: &str, causes: &Vec<String>) -> (text: String)
    ensures
        text@ == error_chain(error@, causes@),
{
    let mut text = String::new();
    text.append(error);
    text.append("\n\n");
    let mut i: usize = 0;
    while i < causes.len()
        invariant
            i <= causes.len(),
            text@ == error_chain(error@, causes@.take(i as int)),
        decreases causes.len() - i,
    {
        proof {
            assert(causes@.take(i + 1).drop_last() == causes@.take(i as int));
        }
        text.append("Caused by:\n\t");
        text.append(causes[i].as_str());
        text.append("\n");
        i += 1;
    }
    proof {
        assert(causes@.take(causes.len() as int) == causes@);
    }
    text
}

} // verus!
