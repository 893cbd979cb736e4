//! Function selectors: derived from a canonical signature, read from call data.

use vstd::prelude::*;
use crate::abi::{keccak_selector, selector_of_text};
use crate::errors::CCIPReadMiddlewareError;

verus! {

/// Type names separated by commas.
pub open spec fn join_types(types: Seq<Seq<char>>) -> Seq<char>
    decreases types.len(),
{
    if types.len() == 0 {
        Seq::empty()
    } else if types.len() == 1 {
        types[0]
    } else {
        join_types(types.drop_last()) + seq![','] + types.last()
    }
}

/// `name(type,type,...)`: the name and the input types, without parameter
/// names or return types.
pub open spec fn canonical_signature(name: Seq<char>, types: Seq<Seq<char>>) -> Seq<char> {
    name + seq!['('] + join_types(types) + seq![')']
}

/// The views of a list of strings.
pub open spec fn views_of(types: Seq<String>) -> Seq<Seq<char>> {
    types.map_values(|t: String| t@)
}

/// The selector of the function with this name and these input types.
pub open spec fn selector_spec(name: Seq<char>, types: Seq<Seq<char>>) -> Seq<u8> {
    keccak_selector(canonical_signature(name, types))
}

/// Builds the canonical signature text `name(type,...)`.
pub fn signature_text(name: &str, types: &Vec<String>) -> (r: String)
    ensures
        r@ == canonical_signature(name@, views_of(types@)),
{
    let mut s = String::from_str(name);
    proof {
        reveal_strlit("(");
        reveal_strlit(",");
        reveal_strlit(")");
        assert("("@ =~= seq!['(']);
        assert(","@ =~= seq![',']);
        assert(")"@ =~= seq![')']);
    }
    s.append("(");
    let mut i: usize = 0;
    while i < types.len()
        invariant
            i <= types.len(),
            ","@ == seq![','],
            s@ == name@ + seq!['('] + join_types(views_of(types@.take(i as int))),
        decreases types.len() - i,
    {
        let ghost before = views_of(types@.take(i as int));
        let ghost s0 = s@;
        if i > 0 {
            s.append(",");
        }
        s.append(types[i].as_str());
        proof {
            let after = views_of(types@.take(i + 1));
            assert(after.drop_last() =~= before);
            assert(after.last() == types@[i as int]@);
            if i == 0 {
                assert(before.len() == 0);
                assert(after.len() == 1);
                assert(join_types(after) == after[0]);
                assert(s@ =~= name@ + seq!['('] + join_types(after));
            } else {
                assert(join_types(after) == join_types(before) + seq![','] + after.last());
                assert(s@ =~= s0 + seq![','] + types@[i as int]@);
                assert(s@ =~= name@ + seq!['('] + join_types(after));
            }
        }
        i = i + 1;
    }
    s.append(")");
    assert(types@.take(types.len() as int) =~= types@);
    s
}

/// The 4-byte selector of the function with this name and these input
/// types: the Keccak-256 selector of its canonical signature.
pub fn selector_of(name: &str, types: &Vec<String>) -> (r: [u8; 4])
    ensures
        r@ == selector_spec(name@, views_of(types@)),
{
    let text = signature_text(name, types);
    selector_of_text(text.as_str())
}

/// The first four bytes of call data, or `MalformedCall` when it is shorter.
pub fn selector_from(calldata: &[u8]) -> (r: Result<[u8; 4], CCIPReadMiddlewareError>)
    ensures
        calldata@.len() < 4 <==> r == Err::<[u8; 4], _>(CCIPReadMiddlewareError::MalformedCall),
        r is Ok <==> calldata@.len() >= 4,
        r matches Ok(s) ==> s@ == calldata@.take(4),
{
    if calldata.len() < 4 {
        return Err(CCIPReadMiddlewareError::MalformedCall);
    }
    let s: [u8; 4] = [calldata[0], calldata[1], calldata[2], calldata[3]];
    assert(s@ =~= calldata@.take(4));
    Ok(s)
}

} // verus!
