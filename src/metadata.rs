//! Client metadata read from request headers: forwarded address and user agent.
//!
//! Every failure here degrades to an absent value; nothing is an error.

use vstd::prelude::*;
use vstd::string::StrSliceExecFns;

use crate::response::opt_text;

verus! {

/// The text that a byte string decodes to as UTF-8, or `None` when it is not
/// valid UTF-8.
pub uninterp spec fn utf8_text_of(b: Seq<u8>) -> Option<Seq<char>>;

/// Relies on `String::from_utf8`: it succeeds exactly on valid UTF-8 and then
/// holds the decoded text, which depends on the bytes alone.
#[verifier::external_body]
fn decode_utf8(b: Vec<u8>) -> (r: Option<String>)
    ensures
        match r {
            Some(s) => utf8_text_of(b@) == Some(s@),
            None => utf8_text_of(b@) is None,
        },
{
    String::from_utf8(b).ok()
}

/// Whether `s` ends with the address separator `", "`.
pub open spec fn ends_with_separator(s: Seq<char>) -> bool {
    s.len() >= 2 && s[s.len() - 2] == ',' && s[s.len() - 1] == ' '
}

/// The text after the last `", "` of `s`, or all of `s` when it holds none:
/// the last element of `s` split on `", "`.
pub open spec fn last_segment(s: Seq<char>) -> Seq<char>
    decreases s.len(),
{
    if s.len() == 0 {
        s
    } else if ends_with_separator(s) {
        Seq::empty()
    } else {
        last_segment(s.drop_last()).push(s.last())
    }
}

/// The client address given by a raw `X-Forwarded-For` value: absent when the
/// header is absent or not UTF-8, else the last address of the chain.
pub open spec fn remote_addr_of(raw: Option<Seq<u8>>) -> Option<Seq<char>> {
    match raw {
        Some(b) => match utf8_text_of(b) {
            Some(s) => Some(last_segment(s)),
            None => None,
        },
        None => None,
    }
}

/// The user agent given by a raw `User-Agent` value: absent when the header
/// is absent or not UTF-8, else its text.
pub open spec fn user_agent_of(raw: Option<Seq<u8>>) -> Option<Seq<char>> {
    match raw {
        Some(b) => utf8_text_of(b),
        None => None,
    }
}

pub open spec fn opt_bytes(b: Option<Vec<u8>>) -> Option<Seq<u8>> {
    match b {
        Some(v) => Some(v@),
        None => None,
    }
}

proof fn lemma_last_segment_short(s: Seq<char>)
    requires
        s.len() < 2,
    ensures
        last_segment(s) == s,
{
    if s.len() == 1 {
        assert(last_segment(s.drop_last()) == s.drop_last());
        assert(s.drop_last().push(s.last()) =~= s);
    }
}

/// Returns the last element of `s` split on `", "`.
pub fn last_address(s: &str) -> (r: String)
    ensures
        r@ == last_segment(s@),
{
    let n = s.unicode_len();
    let mut i: usize = n;
    assert(s@.subrange(0, n as int) =~= s@);
    assert(last_segment(s@) + s@.subrange(n as int, n as int) =~= last_segment(s@));
    while i >= 2
        invariant
            n == s@.len(),
            i <= n,
            last_segment(s@) == last_segment(s@.subrange(0, i as int)) + s@.subrange(i as int, n as int),
        decreases i,
    {
        let ghost pre = s@.subrange(0, i as int);
        if s.get_char(i - 2) == ',' && s.get_char(i - 1) == ' ' {
            assert(ends_with_separator(pre));
            assert(last_segment(pre) == Seq::<char>::empty());
            assert(last_segment(s@) =~= s@.subrange(i as int, n as int));
            return s.substring_char(i, n).to_owned();
        }
        assert(!ends_with_separator(pre));
        assert(pre.drop_last() =~= s@.subrange(0, i - 1));
        assert(last_segment(pre) == last_segment(pre.drop_last()).push(pre.last()));
        assert(last_segment(s@.subrange(0, i - 1)) + s@.subrange(i - 1, n as int) =~= last_segment(pre)
            + s@.subrange(i as int, n as int));
        i = i - 1;
    }
    proof {
        lemma_last_segment_short(s@.subrange(0, i as int));
        assert(s@.subrange(0, i as int) + s@.subrange(i as int, n as int) =~= s@);
    }
    s.to_owned()
}

/// Reads the client address from a raw `X-Forwarded-For` value, passed as
/// `None` when the header is absent or carries more than one line.
pub fn get_remote_addr(raw: Option<Vec<u8>>) -> (r: Option<String>)
    ensures
        opt_text(r) == remote_addr_of(opt_bytes(raw)),
{
    match raw {
        Some(b) => match decode_utf8(b) {
            Some(text) => Some(last_address(text.as_str())),
            None => None,
        },
        None => None,
    }
}

/// Reads the user agent from a raw `User-Agent` value.
pub fn get_user_agent(raw: Option<Vec<u8>>) -> (r: Option<String>)
    ensures
        opt_text(r) == user_agent_of(opt_bytes(raw)),
{
    match raw {
        Some(b) => decode_utf8(b),
        None => None,
    }
}

} // verus!
