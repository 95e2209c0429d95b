//! Turning the toolkit's native strings into text.

use vstd::prelude::*;
use vstd::utf8::{decode_utf8, valid_utf8};

verus! {

/// The contents of each native string.
pub open spec fn byte_strings(raw: Seq<Vec<u8>>) -> Seq<Seq<u8>> {
    raw.map_values(|entry: Vec<u8>| entry@)
}

/// The characters of each text.
pub open spec fn texts(paths: Seq<String>) -> Seq<Seq<char>> {
    paths.map_values(|path: String| path@)
}

/// The texts that a list of native strings yields: every well-formed entry
/// decoded, in the order of the list, and every malformed entry left out.
pub open spec fn decoded_paths(raw: Seq<Seq<u8>>) -> Seq<Seq<char>>
    decreases raw.len(),
{
    if raw.len() == 0 {
        seq![]
    } else if valid_utf8(raw.last()) {
        decoded_paths(raw.drop_last()).push(decode_utf8(raw.last()))
    } else {
        decoded_paths(raw.drop_last())
    }
}

/// How many entries of the list are not valid UTF-8.
pub open spec fn malformed_count(raw: Seq<Seq<u8>>) -> nat
    decreases raw.len(),
{
    if raw.len() == 0 {
        0
    } else if valid_utf8(raw.last()) {
        malformed_count(raw.drop_last())
    } else {
        malformed_count(raw.drop_last()) + 1
    }
}

/// Trusted: calls `std::str::from_utf8` on the bytes and copies the text it
/// accepts. The standard library documents that the call succeeds exactly on
/// valid UTF-8 and that the text then has those bytes, so its characters are
/// the decoding of the bytes.
#[verifier::external_body]
fn text_from_utf8(bytes: &Vec<u8>) -> (text: Option<String>)
    ensures
        text is Some <==> valid_utf8(bytes@),
        text is Some ==> text->0@ == decode_utf8(bytes@),
{
    match std::str::from_utf8(bytes.as_slice()) {
        Ok(text) => Some(text.to_owned()),
        Err(_) => None,
    }
}

/// The path a single-selection dialog reported, or nothing when its bytes
/// are not valid UTF-8.
pub fn get_result(raw: &Vec<u8>) -> (path: Option<String>)
    ensures
        path is Some <==> valid_utf8(raw@),
        path is Some ==> path->0@ == decode_utf8(raw@),
{
    text_from_utf8(raw)
}

/// The paths a multiple-selection dialog reported, in the toolkit's order,
/// without the entries whose bytes are not valid UTF-8.
pub fn get_results(raw: &Vec<Vec<u8>>) -> (paths: Vec<String>)
    ensures
        texts(paths@) == decoded_paths(byte_strings(raw@)),
{
    let mut paths: Vec<String> = Vec::new();
    let mut i: usize = 0;
    proof {
        assert(byte_strings(raw@).take(0) =~= Seq::<Seq<u8>>::empty());
        assert(texts(paths@) =~= Seq::<Seq<char>>::empty());
    }
    while i < raw.len()
        invariant
            0 <= i <= raw@.len(),
            texts(paths@) == decoded_paths(byte_strings(raw@).take(i as int)),
        decreases raw@.len() - i,
    {
        let ghost before = paths@;
        let ghost prefix = byte_strings(raw@).take(i as int);
        let ghost longer = byte_strings(raw@).take(i + 1);
        proof {
            assert(longer.drop_last() =~= prefix);
            assert(longer.last() == raw@[i as int]@);
        }
        match text_from_utf8(&raw[i]) {
            Some(path) => {
                paths.push(path);
                proof {
                    assert(texts(paths@) =~= texts(before).push(path@));
                }
            },
            None => {},
        }
        i += 1;
    }
    proof {
        assert(byte_strings(raw@).take(raw@.len() as int) =~= byte_strings(raw@));
    }
    paths
}

/// Every entry of a list is either decoded or dropped as malformed: the
/// decoded list is shorter than the native one by the number of malformed
/// entries.
pub proof fn malformed_entries_are_dropped(raw: Seq<Seq<u8>>)
    ensures
        decoded_paths(raw).len() + malformed_count(raw) == raw.len(),
    decreases raw.len(),
{
    if raw.len() > 0 {
        malformed_entries_are_dropped(raw.drop_last());
    }
}

/// A list in which exactly the entry at `at` is malformed decodes to one
/// text fewer than it has entries.
pub proof fn one_malformed_entry_shortens_by_one(raw: Seq<Seq<u8>>, at: int)
    requires
        0 <= at < raw.len(),
        !valid_utf8(raw[at]),
        forall|i: int| 0 <= i < raw.len() && i != at ==> valid_utf8(#[trigger] raw[i]),
    ensures
        decoded_paths(raw).len() == raw.len() - 1,
        malformed_count(raw) == 1,
{
    malformed_entries_are_dropped(raw);
    count_of_one_malformed(raw, at);
}

proof fn count_of_none_malformed(raw: Seq<Seq<u8>>)
    requires
        forall|i: int| 0 <= i < raw.len() ==> valid_utf8(#[trigger] raw[i]),
    ensures
        malformed_count(raw) == 0,
    decreases raw.len(),
{
    if raw.len() > 0 {
        count_of_none_malformed(raw.drop_last());
    }
}

proof fn count_of_one_malformed(raw: Seq<Seq<u8>>, at: int)
    requires
        0 <= at < raw.len(),
        !valid_utf8(raw[at]),
        forall|i: int| 0 <= i < raw.len() && i != at ==> valid_utf8(#[trigger] raw[i]),
    ensures
        malformed_count(raw) == 1,
    decreases raw.len(),
{
    if at == raw.len() - 1 {
        count_of_none_malformed(raw.drop_last());
    } else {
        count_of_one_malformed(raw.drop_last(), at);
    }
}

} // verus!
