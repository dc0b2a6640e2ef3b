//! Times and random ids.

use vstd::prelude::*;

verus! {

/// Whether a character is a hexadecimal digit in lower case.
pub open spec fn hex_digit(c: char) -> bool {
    '0' <= c <= '9' || 'a' <= c <= 'f'
}

/// Whether a text is a random UUID: five groups of lower case hexadecimal
/// digits with hyphens between them, of version four and of the standard
/// variant.
pub open spec fn random_uuid(s: Seq<char>) -> bool {
    &&& s.len() == 36
    &&& s[14] == '4'
    &&& s[19] == '8' || s[19] == '9' || s[19] == 'a' || s[19] == 'b'
    &&& forall|i: int|
        0 <= i < 36 ==> if i == 8 || i == 13 || i == 18 || i == 23 {
            #[trigger] s[i] == '-'
        } else {
            hex_digit(s[i])
        }
}

/// `uuid::Uuid::new_v4` and the `Display` of `uuid::Uuid`: the text of a random
/// UUID. Which one it is, is left to chance; where the system has no random
/// numbers to give the call panics.
#[verifier::external_body]
fn new_uuid() -> (r: String)
    ensures
        random_uuid(r@),
{
    uuid::Uuid::new_v4().to_string()
}

/// `chrono::Utc::now` and `DateTime::timestamp`: the seconds that have passed
/// since the start of 1970. Which moment the clock shows is not said, only that
/// it is not before that time: on a clock set earlier the call panics.
#[verifier::external_body]
fn unix_timestamp() -> (r: i64)
    ensures
        r >= 0,
{
    chrono::Utc::now().timestamp()
}

/// The current time, in seconds since the start of 1970. The clock decides which
/// number it is; all that is said of it is that it fits a signed one.
pub fn created_now() -> (r: u64)
    ensures
        r <= i64::MAX,
{
    unix_timestamp() as u64
}

/// Whether a text is the id of a streamed answer.
pub open spec fn stream_id(s: Seq<char>) -> bool {
    exists|uuid: Seq<char>| random_uuid(uuid) && s == "chatcmpl-"@ + uuid
}

/// A new id for a streamed answer.
pub fn new_response_id() -> (r: String)
    ensures
        stream_id(r@),
{
    let uuid: String = new_uuid();
    "chatcmpl-".to_string().concat(uuid.as_str())
}

/// The id of a streamed answer is the mark of a chat completion and a random
/// UUID behind it.
pub proof fn lemma_what_an_id_is(s: Seq<char>, uuid: Seq<char>)
    ensures
        random_uuid(uuid) ==> stream_id("chatcmpl-"@ + uuid),
        stream_id(s) ==> s.len() == 45 && s.take(9) == "chatcmpl-"@ && random_uuid(s.skip(9)),
{
    reveal_strlit("chatcmpl-");
    if stream_id(s) {
        let u = choose|u: Seq<char>| random_uuid(u) && s == "chatcmpl-"@ + u;
        assert(s.take(9) =~= "chatcmpl-"@);
        assert(s.skip(9) =~= u);
    }
}

} // verus!
