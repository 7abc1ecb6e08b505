use vstd::prelude::*;

verus! {

/// A lower-case hexadecimal digit.
pub open spec fn is_lower_hex(c: char) -> bool {
    ('0' <= c && c <= '9') || ('a' <= c && c <= 'f')
}

/// The hyphenated lower-case text of a version 4, RFC 4122 UUID:
/// 36 characters, hyphens at 8, 13, 18 and 23, hexadecimal digits elsewhere,
/// the version digit `4` at 14 and a variant digit `8`, `9`, `a` or `b` at 19.
pub open spec fn is_uuid_v4_text(s: Seq<char>) -> bool {
    &&& s.len() == 36
    &&& forall|i: int|
        0 <= i < 36 ==> if i == 8 || i == 13 || i == 18 || i == 23 {
            #[trigger] s[i] == '-'
        } else {
            is_lower_hex(s[i])
        }
    &&& s[14] == '4'
    &&& (s[19] == '8' || s[19] == '9' || s[19] == 'a' || s[19] == 'b')
}

/// A random UUID from uuid's `Uuid::new_v4`, in its hyphenated text form.
/// Claimed: that form is the lower-case hyphenated text of a version 4,
/// RFC 4122 variant UUID (`new_v4` sets the version and variant bits, and
/// the hyphenated form writes lower-case hex). Which UUID is drawn is left
/// unsaid.
#[verifier::external_body]
fn uuid_v4_text() -> (id: String)
    ensures
        is_uuid_v4_text(id@),
{
    uuid::Uuid::new_v4().to_string()
}

/// A fresh random identifier for a stored record: the text of a random
/// version 4 UUID.
pub fn new_record_id() -> (id: String)
    ensures
        is_uuid_v4_text(id@),
{
    uuid_v4_text()
}

} // verus!
