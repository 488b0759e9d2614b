//! Query strings of the appliance's entry point.

use vstd::prelude::*;
use vstd::string::*;
use vstd::utf8::encode_utf8;

verus! {

/// The bytes that percent-encoding leaves as they are: ASCII letters and
/// digits, `-`, `.`, `_` and `~`.
pub open spec fn is_unreserved(b: u8) -> bool {
    (0x30 <= b <= 0x39) || (0x41 <= b <= 0x5a) || (0x61 <= b <= 0x7a) || b == 0x2d || b == 0x2e
        || b == 0x5f || b == 0x7e
}

/// The upper-case hexadecimal digit for a value below sixteen.
pub open spec fn hex_digit(n: u8) -> char
    recommends
        n < 16,
{
    if n < 10 {
        (0x30 + n) as u8 as char
    } else {
        (0x41 + (n - 10)) as u8 as char
    }
}

/// One byte, percent-encoded.
pub open spec fn percent_encoded_byte(b: u8) -> Seq<char> {
    if is_unreserved(b) {
        seq![b as char]
    } else {
        seq!['%', hex_digit(b / 16), hex_digit(b % 16)]
    }
}

/// A byte string, percent-encoded byte by byte.
pub open spec fn percent_encoded(bytes: Seq<u8>) -> Seq<char>
    decreases bytes.len(),
{
    if bytes.len() == 0 {
        Seq::empty()
    } else {
        percent_encoded(bytes.drop_last()) + percent_encoded_byte(bytes.last())
    }
}

/// A text as it stands in a query string: its UTF-8 bytes, percent-encoded.
pub open spec fn encoded_text(text: Seq<char>) -> Seq<char> {
    percent_encoded(encode_utf8(text))
}

/// Calls `urlencoding::encode`. The contract claims what that function's
/// source shows: it walks the UTF-8 bytes of the text, copies the unreserved
/// ones and writes each other byte as `%` and two upper-case hexadecimal
/// digits.
#[verifier::external_body]
pub(crate) fn percent_encode(text: &str) -> (r: String)
    ensures
        r@ == encoded_text(text@),
{
    urlencoding::encode(text).into_owned()
}

/// The parameters of a request as characters: each a key and a value.
pub open spec fn pairs_view(params: Seq<(String, String)>) -> Seq<(Seq<char>, Seq<char>)> {
    Seq::new(params.len(), |i: int| (params[i].0@, params[i].1@))
}

/// The query string that carries the given parameters in order, each as
/// `&`, its key, `=` and its value percent-encoded.
pub open spec fn query_of(params: Seq<(Seq<char>, Seq<char>)>) -> Seq<char>
    decreases params.len(),
{
    if params.len() == 0 {
        Seq::empty()
    } else {
        query_of(params.drop_last()) + seq!['&'] + params.last().0 + seq!['=']
            + encoded_text(params.last().1)
    }
}

/// Appends the parameters to `url`, in order.
pub fn append_query(url: String, params: &Vec<(String, String)>) -> (r: String)
    ensures
        r@ == url@ + query_of(pairs_view(params@)),
{
    let mut out = url;
    let ghost start = out@;
    let mut i: usize = 0;
    proof {
        assert(pairs_view(params@).take(0).len() == 0);
        assert(out@ =~= start + query_of(pairs_view(params@).take(0)));
    }
    while i < params.len()
        invariant
            i <= params.len(),
            out@ == start + query_of(pairs_view(params@).take(i as int)),
        decreases params.len() - i,
    {
        proof {
            reveal_strlit("&");
            reveal_strlit("=");
        }
        let ghost before = out@;
        let encoded = percent_encode(params[i].1.as_str());
        out.append("&");
        out.append(params[i].0.as_str());
        out.append("=");
        out.append(encoded.as_str());
        proof {
            let all = pairs_view(params@);
            let next = all.take(i + 1);
            assert(next.drop_last() =~= all.take(i as int));
            assert(next.last() == all[i as int]);
            assert("&"@ =~= seq!['&']);
            assert("="@ =~= seq!['=']);
            assert(out@ =~= start + query_of(next));
        }
        i = i + 1;
    }
    proof {
        assert(pairs_view(params@).take(params.len() as int) =~= pairs_view(params@));
    }
    out
}

} // verus!
