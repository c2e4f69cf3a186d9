use vstd::prelude::*;

verus! {

/// A digit of lower-case hexadecimal.
pub open spec fn is_lower_hex(c: char) -> bool {
    ('0' <= c && c <= '9') || ('a' <= c && c <= 'f')
}

/// The shape of every session identifier: the hyphenated lower-case form of a random
/// (version 4) UUID, such as `67e55044-10b1-426f-9247-bb680e5fe0c8`.
pub open spec fn is_session_id(id: Seq<char>) -> bool {
    &&& id.len() == 36
    &&& forall|i: int|
        0 <= i < 36 ==> if i == 8 || i == 13 || i == 18 || i == 23 {
            #[trigger] id[i] == '-'
        } else {
            is_lower_hex(id[i])
        }
    &&& id[14] == '4'
    &&& (id[19] == '8' || id[19] == '9' || id[19] == 'a' || id[19] == 'b')
}

/// Draws a new session identifier: `uuid::Uuid::new_v4`, written out by the `Display` of
/// `uuid::Uuid`.
///
/// Trusted: the outcome is random, so all that is claimed is its shape. The identifier is
/// written as five hyphenated groups of lower-case hexadecimal digits, the version digit is
/// `4` and the variant digit is one of `8`, `9`, `a`, `b`. Nothing is claimed about which
/// identifier comes out, nor that it differs from an earlier one. The call aborts the process
/// if the operating system cannot supply random bytes.
#[verifier::external_body]
pub(crate) fn random_identifier() -> (id: String)
    ensures
        is_session_id(id@),
{
    uuid::Uuid::new_v4().to_string()
}

} // verus!
