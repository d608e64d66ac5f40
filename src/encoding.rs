//! Base64 text of file contents handed to the user interface.
use base64::Engine;
use vstd::prelude::*;

verus! {

/// What the standard padded base64 engine produces for `bytes`.
pub uninterp spec fn base64_of(bytes: Seq<u8>) -> Seq<char>;

/// Length of the padded base64 text of `n` bytes.
pub open spec fn base64_len(n: nat) -> nat {
    4 * ((n + 2) / 3)
}

/// Relies on base64's general_purpose::STANDARD engine, Engine::encode: padded
/// standard-alphabet text of four characters for each started group of three bytes.
#[verifier::external_body]
fn standard_encode(bytes: &[u8]) -> (r: String)
    requires
        base64_len(bytes@.len()) <= usize::MAX,
    ensures
        r@ == base64_of(bytes@),
        r@.len() == base64_len(bytes@.len()),
{
    base64::engine::general_purpose::STANDARD.encode(bytes)
}

/// The base64 text of a file's contents, or `None` when the text would not fit in memory.
pub fn encode_file_contents(bytes: &[u8]) -> (r: Option<String>)
    ensures
        base64_len(bytes@.len()) <= usize::MAX ==> (r matches Some(s) && s@ == base64_of(bytes@)
            && s@.len() == base64_len(bytes@.len())),
        base64_len(bytes@.len()) > usize::MAX ==> r is None,
{
    let n = bytes.len();
    let groups: usize = n / 3 + if n % 3 > 0 {
        1
    } else {
        0
    };
    assert(groups == (n + 2) / 3);
    if groups > usize::MAX / 4 {
        return None;
    }
    Some(standard_encode(bytes))
}

} // verus!
