//! Signatures on the answers of the user server.
use vstd::prelude::*;

verus! {

/// The kinds of content that the worker signs with its identity key.
#[derive(Clone, Copy, Debug, PartialEq, Eq, Structural)]
pub enum ContentType {
    RpcResponse,
}

/// The digit that writes a number below sixteen.
pub open spec fn hex_digit(n: nat) -> char {
    if n < 10 {
        ('0' as nat + n) as char
    } else {
        ('a' as nat + n - 10) as char
    }
}

/// Bytes in lower case hexadecimal, two digits for each, the high one first.
pub open spec fn hex_text(bytes: Seq<u8>) -> Seq<char> {
    Seq::new(
        2 * bytes.len(),
        |i: int|
            if i % 2 == 0 {
                hex_digit((bytes[i / 2] / 16) as nat)
            } else {
                hex_digit((bytes[i / 2] % 16) as nat)
            },
    )
}

/// Calls `hex::encode` on the bytes.
///
/// Trusted: the result writes each byte as two lower case hexadecimal digits.
#[verifier::external_body]
fn hex_encode(bytes: &[u8]) -> (text: String)
    requires
        2 * bytes@.len() <= isize::MAX,
    ensures
        text@ == hex_text(bytes@),
{
    hex::encode(bytes)
}

/// What the identity key has to sign for an answer: its body as it is, as the answer to
/// a call.
pub fn signing_request<'a>(body: &'a [u8]) -> (request: (ContentType, &'a [u8]))
    ensures
        request.0 == ContentType::RpcResponse,
        request.1@ == body@,
{
    (ContentType::RpcResponse, body)
}

/// The signature header of an answer, out of the signature of its body: there always
/// is one.
pub fn sign_http_response(signature: &[u8]) -> (header: Option<String>)
    requires
        2 * signature@.len() <= isize::MAX,
    ensures
        header is Some,
        header->0@ == hex_text(signature@),
        header->0@.len() == 2 * signature@.len(),
        forall|i: int|
            #![trigger signature@[i]]
            0 <= i < signature@.len() ==> {
                &&& header->0@[2 * i] == "0123456789abcdef"@[(signature@[i] / 16) as int]
                &&& header->0@[2 * i + 1] == "0123456789abcdef"@[(signature@[i] % 16) as int]
            },
{
    proof {
        law_header_digits(signature@);
    }
    Some(hex_encode(signature))
}

/// The header tells signatures apart: two signatures with the same header are the same.
pub proof fn law_header_tells_signatures_apart(a: Seq<u8>, b: Seq<u8>)
    requires
        hex_text(a) == hex_text(b),
    ensures
        a == b,
{
    assert(hex_text(a).len() == 2 * a.len());
    assert(hex_text(b).len() == 2 * b.len());
    assert forall|i: int| 0 <= i < a.len() implies a[i] == b[i] by {
        let high = 2 * i;
        let low = 2 * i + 1;
        assert(high / 2 == i && low / 2 == i && high % 2 == 0 && low % 2 == 1);
        assert(hex_text(a)[high] == hex_digit((a[i] / 16) as nat));
        assert(hex_text(b)[high] == hex_digit((b[i] / 16) as nat));
        assert(hex_text(a)[low] == hex_digit((a[i] % 16) as nat));
        assert(hex_text(b)[low] == hex_digit((b[i] % 16) as nat));
    }
    assert(a =~= b);
}

/// The header holds lower case hexadecimal digits only, two for each byte.
pub proof fn law_header_is_hexadecimal(bytes: Seq<u8>)
    ensures
        hex_text(bytes).len() == 2 * bytes.len(),
        forall|i: int|
            0 <= i < hex_text(bytes).len() ==> ('0' <= #[trigger] hex_text(bytes)[i] <= '9' || 'a'
                <= hex_text(bytes)[i] <= 'f'),
{
}

/// Each byte is written as two digits, in the place of the byte: first its sixteens, then
/// its ones.
pub proof fn law_header_digits(bytes: Seq<u8>)
    ensures
        hex_text(bytes).len() == 2 * bytes.len(),
        forall|i: int|
            #![trigger bytes[i]]
            0 <= i < bytes.len() ==> {
                &&& hex_text(bytes)[2 * i] == "0123456789abcdef"@[(bytes[i] / 16) as int]
                &&& hex_text(bytes)[2 * i + 1] == "0123456789abcdef"@[(bytes[i] % 16) as int]
            },
{
    assert forall|i: int| #![trigger bytes[i]] 0 <= i < bytes.len() implies {
        &&& hex_text(bytes)[2 * i] == "0123456789abcdef"@[(bytes[i] / 16) as int]
        &&& hex_text(bytes)[2 * i + 1] == "0123456789abcdef"@[(bytes[i] % 16) as int]
    } by {
        let high = 2 * i;
        let low = 2 * i + 1;
        assert(high / 2 == i && low / 2 == i && high % 2 == 0 && low % 2 == 1);
        assert(hex_text(bytes)[high] == hex_digit((bytes[i] / 16) as nat));
        assert(hex_text(bytes)[low] == hex_digit((bytes[i] % 16) as nat));
        lemma_hex_digit((bytes[i] / 16) as nat);
        lemma_hex_digit((bytes[i] % 16) as nat);
    }
}

proof fn lemma_hex_digit(n: nat)
    requires
        n < 16,
    ensures
        hex_digit(n) == "0123456789abcdef"@[n as int],
{
    reveal_strlit("0123456789abcdef");
}

} // verus!
