//! Base64 text of an image, as it is inlined into a request.

use vstd::prelude::*;

verus! {

/// The 64 symbols of the standard base64 alphabet, by value.
pub open spec fn base64_alphabet() -> Seq<char> {
    "ABCDEFGHIJKLMNOPQRSTUVWXYZabcdefghijklmnopqrstuvwxyz0123456789+/"@
}

/// Standard base64 with padding: every three bytes give four symbols, and a
/// last group of one or two bytes is filled up with `=`.
pub open spec fn base64_text(data: Seq<u8>) -> Seq<char>
    decreases data.len(),
{
    let a = base64_alphabet();
    if data.len() == 0 {
        Seq::<char>::empty()
    } else if data.len() == 1 {
        seq![a[data[0] as int / 4], a[(data[0] as int % 4) * 16], '=', '=']
    } else if data.len() == 2 {
        seq![
            a[data[0] as int / 4],
            a[(data[0] as int % 4) * 16 + data[1] as int / 16],
            a[(data[1] as int % 16) * 4],
            '=',
        ]
    } else {
        seq![
            a[data[0] as int / 4],
            a[(data[0] as int % 4) * 16 + data[1] as int / 16],
            a[(data[1] as int % 16) * 4 + data[2] as int / 64],
            a[data[2] as int % 64],
        ] + base64_text(data.skip(3))
    }
}

/// Number of symbols that `n` bytes encode to.
pub open spec fn base64_len(n: nat) -> nat {
    4 * ((n + 2) / 3)
}

/// Whether the encoded length of `n` bytes still fits the machine word.
pub open spec fn encodable_len(n: nat) -> bool {
    base64_len(n) <= usize::MAX
}

/// The encoding has exactly `base64_len` symbols.
pub proof fn lemma_base64_text_len(data: Seq<u8>)
    ensures
        base64_text(data).len() == base64_len(data.len()),
    decreases data.len(),
{
    if data.len() >= 3 {
        lemma_base64_text_len(data.skip(3));
    }
}

/// Calls `base64::encode`, which encodes with the crate's `STANDARD` engine:
/// the alphabet above, with padding. The crate panics when the encoded length
/// overflows `usize`, so such inputs are excluded.
#[verifier::external_body]
pub(crate) fn encode_standard(data: &[u8]) -> (text: String)
    requires
        encodable_len(data@.len()),
    ensures
        text@ == base64_text(data@),
{
    #[allow(deprecated)]
    base64::encode(data)
}

} // verus!
