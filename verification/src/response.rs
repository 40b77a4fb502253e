//! Checking the answers of the API.

use vstd::prelude::*;

use crate::text::{decimal, decimal_value, is_digit, lemma_decimal_reads_back, u64_to_decimal};

verus! {

/// The text that std's `String::from_utf8_lossy` makes of `bytes`: their
/// UTF-8 decoding, with each invalid sequence replaced by U+FFFD.
pub uninterp spec fn utf8_lossy(bytes: Seq<u8>) -> Seq<char>;

/// Decodes a response body with std's `String::from_utf8_lossy`. Its result
/// is named `utf8_lossy`; of valid UTF-8 it is the plain decoding, as the
/// std documentation says (the input is returned as it is). What replaces
/// each invalid sequence is left unsaid.
#[verifier::external_body]
fn decode_lossy(bytes: &[u8]) -> (r: String)
    ensures
        r@ == utf8_lossy(bytes@),
        vstd::utf8::valid_utf8(bytes@) ==> r@ == vstd::utf8::decode_utf8(bytes@),
{
    String::from_utf8_lossy(bytes).into_owned()
}

/// The message of a request that the API answered with a status other
/// than 200.
pub open spec fn status_failure_message(path: Seq<char>, status: nat, body: Seq<char>) -> Seq<
    char,
> {
    "Hacker News API request failed for "@ + path + " with status "@ + decimal(status) + ": "@
        + body
}

/// The message of a response body that could not be read as the expected
/// record.
pub open spec fn parse_failure_message(path: Seq<char>, error: Seq<char>) -> Seq<char> {
    "Failed to parse Hacker News API response for "@ + path + ": "@ + error
}

/// The failure of a request to `path` answered with `status` and a body
/// that reads as `body`.
pub fn status_failure(path: &str, status: u16, body: &str) -> (r: String)
    ensures
        r@ == status_failure_message(path@, status as nat, body@),
{
    let mut r = "Hacker News API request failed for ".to_owned();
    r.append(path);
    r.append(" with status ");
    let code = u64_to_decimal(status as u64);
    r.append(code.as_str());
    r.append(": ");
    r.append(body);
    r
}

/// Accepts a response to a request to `path` only when its status is 200;
/// otherwise fails with the status and the body decoded as UTF-8.
pub fn check_status(path: &str, status: u16, body: &[u8]) -> (r: Result<(), String>)
    ensures
        r is Ok <==> status == 200,
        r matches Err(m) ==> m@ == status_failure_message(
            path@,
            status as nat,
            utf8_lossy(body@),
        ),
{
    if status != 200 {
        let text = decode_lossy(body);
        Err(status_failure(path, status, text.as_str()))
    } else {
        Ok(())
    }
}

/// The failure of a response to a request to `path` whose body could not be
/// read, with the reader's error.
pub fn parse_failure(path: &str, error: &str) -> (r: String)
    ensures
        r@ == parse_failure_message(path@, error@),
{
    let mut r = "Failed to parse Hacker News API response for ".to_owned();
    r.append(path);
    r.append(": ");
    r.append(error);
    r
}

/// A status failure names the request's path, the status (as decimal
/// digits that read back as it) and ends with the body.
pub proof fn lemma_status_failure_layout(path: Seq<char>, status: nat, body: Seq<char>)
    ensures
        ({
            let m = status_failure_message(path, status, body);
            &&& m.take(35) == "Hacker News API request failed for "@
            &&& m.subrange(35, 35 + (path.len() as int)) == path
            &&& m.subrange(35 + (path.len() as int), 48 + (path.len() as int)) == " with status "@
            &&& decimal_value(m.subrange(48 + (path.len() as int), m.len() - body.len() - 2)) == status
            &&& m.len() - body.len() - 2 > 48 + (path.len() as int)
            &&& forall|i: int|
                48 + (path.len() as int) <= i < m.len() - body.len() - 2 ==> is_digit(#[trigger] m[i])
            &&& m[48 + (path.len() as int)] == '0' ==> status == 0 && m.len() == 51 + path.len() + body.len()
            &&& m.subrange(m.len() - body.len() - 2, m.len() - body.len()) == ": "@
            &&& m.skip(m.len() - body.len()) == body
        }),
{
    reveal_strlit("Hacker News API request failed for ");
    reveal_strlit(" with status ");
    reveal_strlit(": ");
    lemma_decimal_reads_back(status);
    let m = status_failure_message(path, status, body);
    let d = decimal(status);
    assert(m.take(35) =~= "Hacker News API request failed for "@);
    assert(m.subrange(35, 35 + (path.len() as int)) =~= path);
    assert(m.subrange(35 + (path.len() as int), 48 + (path.len() as int)) =~= " with status "@);
    assert(m.subrange(48 + (path.len() as int), m.len() - body.len() - 2) =~= d);
    assert(m[48 + (path.len() as int)] == d[0]);
    assert forall|i: int|
        48 + (path.len() as int) <= i < m.len() - body.len() - 2 implies is_digit(#[trigger] m[i]) by {
        assert(m[i] == d[i - 48 - (path.len() as int)]);
    }
    assert(m.subrange(m.len() - body.len() - 2, m.len() - body.len()) =~= ": "@);
    assert(m.skip(m.len() - body.len()) =~= body);
}

/// A parse failure names the request's path and ends with the reader's
/// error.
pub proof fn lemma_parse_failure_layout(path: Seq<char>, error: Seq<char>)
    ensures
        ({
            let m = parse_failure_message(path, error);
            &&& m.len() == 47 + (path.len() as int) + error.len()
            &&& m.take(45) == "Failed to parse Hacker News API response for "@
            &&& m.subrange(45, 45 + (path.len() as int)) == path
            &&& m.subrange(45 + (path.len() as int), 47 + (path.len() as int)) == ": "@
            &&& m.skip(47 + (path.len() as int)) == error
        }),
{
    reveal_strlit("Failed to parse Hacker News API response for ");
    reveal_strlit(": ");
    let m = parse_failure_message(path, error);
    assert(m.take(45) =~= "Failed to parse Hacker News API response for "@);
    assert(m.subrange(45, 45 + (path.len() as int)) =~= path);
    assert(m.subrange(45 + (path.len() as int), 47 + (path.len() as int)) =~= ": "@);
    assert(m.skip(47 + (path.len() as int)) =~= error);
}

} // verus!
