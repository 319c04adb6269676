use vstd::prelude::*;

verus! {

/// The number of space bytes that `secret_toolkit::utils::space_pad` appends to a message of
/// `len` bytes so that its length becomes a multiple of `block_size`.
pub open spec fn pad_len(len: nat, block_size: nat) -> nat {
    if len % block_size == 0 {
        0
    } else {
        (block_size - len % block_size) as nat
    }
}

/// `bytes` followed by as many spaces (`b' '`) as `space_pad` appends for `block_size`.
pub open spec fn space_padded(bytes: Seq<u8>, block_size: nat) -> Seq<u8> {
    bytes + Seq::new(pad_len(bytes.len(), block_size), |i: int| 0x20u8)
}

/// Calls `secret_toolkit::utils::space_pad`, which appends spaces to a message until its
/// length is a multiple of `block_size` (and appends nothing when it already is one).
/// A zero `block_size` makes it divide by zero, so it is left out; so is a message whose
/// padded length could overflow a vector's capacity.
#[verifier::external_body]
pub(crate) fn space_pad(message: Vec<u8>, block_size: usize) -> (padded: Vec<u8>)
    requires
        block_size > 0,
        message.len() + block_size <= isize::MAX,
    ensures
        padded@ == space_padded(message@, block_size as nat),
{
    let mut message = message;
    secret_toolkit::utils::space_pad(&mut message, block_size);
    message
}

/// Calls `String::from_utf8`, which accepts exactly the byte sequences that are valid UTF-8
/// and then yields the characters that they encode.
#[verifier::external_body]
pub(crate) fn text_from_utf8(bytes: Vec<u8>) -> (text: Option<String>)
    ensures
        text is Some <==> vstd::utf8::valid_utf8(bytes@),
        text matches Some(t) ==> t@ == vstd::utf8::decode_utf8(bytes@),
{
    match String::from_utf8(bytes) {
        Ok(t) => Some(t),
        Err(_) => None,
    }
}

/// What `{:?}` formatting writes for a sequence of bytes. std does not document this text
/// as stable, so it is only named here: the same bytes give the same text.
pub uninterp spec fn debug_text_of_bytes(bytes: Seq<u8>) -> Seq<char>;

/// Calls `format!("{:?}", ..)` on a 32-byte array. Its result is `debug_text_of_bytes` of
/// the array's bytes; what that text is, character by character, is not stated.
#[verifier::external_body]
pub(crate) fn debug_bytes(bytes: &[u8; 32]) -> (text: String)
    ensures
        text@ == debug_text_of_bytes(bytes@),
{
    format!("{:?}", bytes)
}

/// The characters of an optional `String`, as plain values.
pub open spec fn optional_text(text: Option<String>) -> Option<Seq<char>> {
    match text {
        Some(t) => Some(t@),
        None => None,
    }
}

/// What `{:?}` formatting writes for an optional string (such as `Some("a")` or `None`).
/// std does not document this text as stable, so it is only named here.
pub uninterp spec fn debug_text_of_optional_text(text: Option<Seq<char>>) -> Seq<char>;

/// Calls `format!("{:?}", ..)` on an `Option<String>`. Its result is
/// `debug_text_of_optional_text` of the option's characters; the text itself is not stated.
#[verifier::external_body]
pub(crate) fn debug_optional_text(text: &Option<String>) -> (debug: String)
    ensures
        debug@ == debug_text_of_optional_text(optional_text(*text)),
{
    format!("{:?}", text)
}

/// Declares cosmwasm's `StdError`, carried through unread.
#[verifier::external_type_specification]
#[verifier::external_body]
pub struct ExStdError(secret_cosmwasm_std::StdError);

} // verus!
