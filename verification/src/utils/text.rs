//! Joining strings.
use vstd::prelude::*;
use vstd::string::StringExecFns;

verus! {

/// The strings of `parts` in their order, with `separator` between each two
/// neighbours. No part gives the empty string, one part gives that part.
pub open spec fn joined(parts: Seq<Seq<char>>, separator: Seq<char>) -> Seq<char>
    decreases parts.len(),
{
    if parts.len() == 0 {
        Seq::empty()
    } else if parts.len() == 1 {
        parts[0]
    } else {
        joined(parts.drop_last(), separator) + separator + parts.last()
    }
}

/// Joins `parts` into one string, with `separator` between each two
/// neighbours.
pub fn join(parts: &Vec<String>, separator: &str) -> (text: String)
    ensures
        text@ == joined(parts.deep_view(), separator@),
{
    let mut text = String::new();
    let mut done: usize = 0;
    while done < parts.len()
        invariant
            done <= parts.len(),
            text@ == joined(parts.deep_view().take(done as int), separator@),
        decreases parts.len() - done,
    {
        let ghost before = parts.deep_view().take(done as int);
        let ghost after = parts.deep_view().take(done + 1);
        assert(after.drop_last() =~= before);
        assert(after.last() == parts[done as int]@);
        if done > 0 {
            text.append(separator);
        } else {
            assert(text@ + parts[0]@ =~= parts[0]@);
        }
        text.append(parts[done].as_str());
        done += 1;
    }
    assert(parts.deep_view().take(done as int) =~= parts.deep_view());
    text
}

} // verus!
