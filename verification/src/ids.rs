use vstd::prelude::*;

use crate::text::concat3;

verus! {

/// The hyphenated text form of a UUID: 36 characters, hyphens at places 8, 13, 18 and 23, and
/// lower-case hexadecimal digits everywhere else.
pub open spec fn spec_hyphenated_uuid_text(t: Seq<char>) -> bool {
    &&& t.len() == 36
    &&& forall|i: int|
        0 <= i < 36 ==> if i == 8 || i == 13 || i == 18 || i == 23 {
            #[trigger] t[i] == '-'
        } else {
            ('0' <= t[i] <= '9') || ('a' <= t[i] <= 'f')
        }
}

/// A fresh time-ordered UUID from `uuid::Uuid::now_v7`, written in its hyphenated form (its
/// `Display` writes the lower-case hyphenated text). The contract claims only the shape of that
/// text: the value depends on the clock and on chance.
#[verifier::external_body]
fn new_uuid_v7_text() -> (r: String)
    ensures
        spec_hyphenated_uuid_text(r@),
{
    uuid::Uuid::now_v7().to_string()
}

/// A fresh id: the prefix, an underscore, and a time-ordered UUID.
pub fn prefixed_uuid_v7(prefix: &str) -> (r: String)
    ensures
        r@.len() == prefix@.len() + 37,
        r@.subrange(0, prefix@.len() as int + 1) == prefix@ + "_"@,
        spec_hyphenated_uuid_text(r@.subrange(prefix@.len() as int + 1, r@.len() as int)),
{
    let id = new_uuid_v7_text();
    let r = concat3(prefix, "_", id.as_str());
    proof {
        reveal_strlit("_");
        assert(r@.subrange(0, prefix@.len() as int + 1) =~= prefix@ + "_"@);
        assert(r@.subrange(prefix@.len() as int + 1, r@.len() as int) =~= id@);
    }
    r
}

} // verus!
