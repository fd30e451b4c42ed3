use vstd::prelude::*;
use vstd::string::StringExecFns;

verus! {

/// `needle` occurs contiguously somewhere inside `hay`.
pub open spec fn contains_seq(hay: Seq<char>, needle: Seq<char>) -> bool {
    exists|i: int|
        0 <= i && i + needle.len() <= hay.len()
            && (#[trigger] hay.subrange(i, i + needle.len())) == needle
}

/// Appends `detail` to the fixed message `prefix`; used to carry a native
/// error text verbatim inside a human-readable failure message.
pub fn message_with_detail(prefix: &str, detail: &str) -> (msg: String)
    ensures
        msg@ == prefix@ + detail@,
{
    let mut msg = prefix.to_owned();
    msg.append(detail);
    msg
}

/// A message built by appending a detail to a prefix still contains that
/// detail, character for character.
pub proof fn lemma_concat_contains_tail(prefix: Seq<char>, tail: Seq<char>)
    ensures
        contains_seq(prefix + tail, tail),
{
    let hay = prefix + tail;
    let i = prefix.len() as int;
    assert(hay.subrange(i, i + tail.len()) =~= tail);
}

} // verus!
