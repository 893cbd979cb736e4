//! The contract-interface descriptions and ABI codec that the gateway uses,
//! all provided by `ethers_core`.

use vstd::prelude::*;

verus! {

#[verifier::external_type_specification]
#[verifier::external_body]
pub struct ExAbi(ethers_core::abi::Abi);

#[verifier::external_type_specification]
#[verifier::external_body]
pub struct ExFunction(ethers_core::abi::Function);

#[verifier::external_type_specification]
#[verifier::external_body]
pub struct ExToken(ethers_core::abi::Token);

#[verifier::external_type_specification]
#[verifier::external_body]
pub struct ExAbiError(ethers_core::abi::Error);

/// Relies on the derived `Clone` of ethers_core::abi::Function; nothing is
/// claimed of the copy.
pub assume_specification[ <ethers_core::abi::Function as Clone>::clone ](
    f: &ethers_core::abi::Function,
) -> ethers_core::abi::Function;

/// The 4-byte selector of a canonical signature text: the first four bytes
/// of its Keccak-256 digest.
pub uninterp spec fn keccak_selector(signature: Seq<char>) -> Seq<u8>;

/// Relies on ethers_core::utils::id: the first four bytes of the Keccak-256
/// digest of the text, which depend on the text alone.
#[verifier::external_body]
pub(crate) fn selector_of_text(signature: &str) -> (r: [u8; 4])
    ensures
        r@ == keccak_selector(signature@),
{
    ethers_core::utils::id(signature)
}

/// The first function of this name in an interface description, if any.
pub uninterp spec fn abi_lookup(abi: ethers_core::abi::Abi, name: Seq<char>) -> Option<
    ethers_core::abi::Function,
>;

/// The `name` field of a function description.
pub uninterp spec fn function_name_of(f: ethers_core::abi::Function) -> Seq<char>;

/// The canonical type names of a function's input parameters, in order.
pub uninterp spec fn input_types_of(f: ethers_core::abi::Function) -> Seq<Seq<char>>;

/// The arguments that bytes decode to under a function's input types, or
/// `None` when they do not fit them.
pub uninterp spec fn abi_decoded(f: ethers_core::abi::Function, data: Seq<u8>) -> Option<
    Seq<ethers_core::abi::Token>,
>;

/// The ABI encoding of tokens as one tuple.
pub uninterp spec fn abi_encoding(tokens: Seq<ethers_core::abi::Token>) -> Seq<u8>;

/// Relies on ethers_core::abi::Abi::function: the first function of that
/// name in the description, or an error when there is none; the result
/// depends on the description and the name alone.
#[verifier::external_body]
pub(crate) fn find_function(abi: &ethers_core::abi::Abi, name: &str) -> (r: Result<
    ethers_core::abi::Function,
    ethers_core::abi::Error,
>)
    ensures
        r is Ok == abi_lookup(*abi, name@) is Some,
        r matches Ok(f) ==> abi_lookup(*abi, name@) == Some(f),
{
    abi.function(name).cloned()
}

/// Relies on ethers_core::abi::Function's `name` field.
#[verifier::external_body]
pub(crate) fn function_name(f: &ethers_core::abi::Function) -> (r: String)
    ensures
        r@ == function_name_of(*f),
{
    f.name.clone()
}

/// Relies on ethers_core::abi::ParamType's `Display`: the canonical type
/// name of each input parameter, in order.
#[verifier::external_body]
pub(crate) fn input_type_names(f: &ethers_core::abi::Function) -> (r: Vec<String>)
    ensures
        r@.map_values(|t: String| t@) == input_types_of(*f),
{
    f.inputs.iter().map(|p| p.kind.to_string()).collect()
}

/// Relies on ethers_core::abi::Function::decode_input: the call's arguments,
/// read from the bytes after the selector by the input types, or an error
/// when the bytes do not fit them; the result depends on the function and
/// the bytes alone.
#[verifier::external_body]
pub(crate) fn decode_input(f: &ethers_core::abi::Function, data: &[u8]) -> (r: Result<
    Vec<ethers_core::abi::Token>,
    ethers_core::abi::Error,
>)
    ensures
        r is Ok == abi_decoded(*f, data@) is Some,
        r matches Ok(v) ==> abi_decoded(*f, data@) == Some(v@),
{
    f.decode_input(data)
}

/// Relies on ethers_core::abi::encode: the tokens ABI-encoded as one tuple;
/// the result depends on the tokens alone.
#[verifier::external_body]
pub(crate) fn encode_tokens(tokens: &[ethers_core::abi::Token]) -> (r: Vec<u8>)
    ensures
        r@ == abi_encoding(tokens@),
{
    ethers_core::abi::encode(tokens)
}

} // verus!
