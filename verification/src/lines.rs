//! Captured output lines and in-place reversal of line sequences.

use vstd::prelude::*;

verus! {

/// The stream a captured line was read from.
#[derive(Clone, Copy, Debug, PartialEq, Eq, Structural)]
pub enum LineOrigin {
    Stdout,
    Stderr,
}

/// One unit of captured text from the child process: its content together
/// with the stream it came from. Opaque to the classifier beyond being the
/// unit the report builder consumes and the unit preserved on failure.
#[derive(Clone, Debug)]
pub struct CommandOutputLine {
    pub content: String,
    pub origin: LineOrigin,
}

/// Reverses the order of the elements of `v` in place.
pub fn reverse_vec<T>(v: &mut Vec<T>)
    ensures
        final(v)@ == old(v)@.reverse(),
{
    let ghost orig: Seq<T> = v@;
    let mut rev: Vec<T> = Vec::new();
    loop
        invariant
            v@.len() + rev@.len() == orig.len(),
            v@ =~= orig.subrange(0, v@.len() as int),
            rev@ =~= orig.subrange(v@.len() as int, orig.len() as int).reverse(),
        ensures
            rev@ == orig.reverse(),
        decreases v@.len(),
    {
        let ghost before: int = v@.len() as int;
        match v.pop() {
            Some(item) => {
                rev.push(item);
                proof {
                    assert(v@ =~= orig.subrange(0, before - 1));
                    assert(rev@ =~= orig.subrange(before - 1, orig.len() as int).reverse());
                }
            },
            None => {
                proof {
                    assert(orig.subrange(0, orig.len() as int) =~= orig);
                    assert(rev@ =~= orig.reverse());
                }
                break;
            },
        }
    }
    *v = rev;
}

} // verus!
