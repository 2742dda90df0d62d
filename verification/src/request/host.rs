//! The host name a request is routed by.

use vstd::prelude::*;

use super::filter::{all_visible_ascii, ascii_chars, header_value_to_str};
use crate::outside::string_from_chars;
use crate::text::chars_of;

verus! {

/// The characters of `s` before the first `c` (all of `s` when there is none).
pub open spec fn take_until(s: Seq<char>, c: char) -> Seq<char>
    decreases s.len(),
{
    if s.len() == 0 || s[0] == c {
        Seq::<char>::empty()
    } else {
        seq![s[0]] + take_until(s.drop_first(), c)
    }
}

/// The host part of an authority `host[:port]`; an IPv6 literal keeps its
/// brackets, `[addr]`.
pub open spec fn authority_host(a: Seq<char>) -> Seq<char> {
    if a.len() > 0 && a[0] == '[' {
        let inner = take_until(a, ']');
        if inner.len() < a.len() {
            inner.push(']')
        } else {
            a
        }
    } else {
        take_until(a, ':')
    }
}

/// The host a request is routed by: the host of its URI when the URI names
/// one, else the host part of its `Host` header when that header can be
/// read as text, else nothing.
pub open spec fn effective_host(uri_host: Seq<char>, host_header: Option<Seq<u8>>) -> Seq<char> {
    if uri_host.len() > 0 {
        uri_host
    } else {
        match host_header {
            Some(v) => if all_visible_ascii(v) {
                authority_host(ascii_chars(v))
            } else {
                Seq::<char>::empty()
            },
            None => Seq::<char>::empty(),
        }
    }
}

/// The characters of `s` before the first `c`, and whether `c` occurs.
fn split_before(s: &Vec<char>, c: char) -> (res: (Vec<char>, bool))
    ensures
        res.0@ == take_until(s@, c),
        res.1 ==> res.0@.len() < s@.len(),
        !res.1 ==> res.0@ == s@,
{
    let mut out: Vec<char> = Vec::new();
    let mut i: usize = 0;
    assert(s@.skip(0) =~= s@);
    while i < s.len()
        invariant
            i <= s@.len(),
            out@ == s@.take(i as int),
            take_until(s@, c) == out@ + take_until(s@.skip(i as int), c),
        decreases s@.len() - i,
    {
        let ghost rest = s@.skip(i as int);
        if s[i] == c {
            assert(rest[0] == c);
            assert(out@ + take_until(rest, c) =~= out@);
            return (out, true);
        }
        assert(rest.drop_first() =~= s@.skip(i + 1));
        let ghost before = out@;
        out.push(s[i]);
        assert(out@ + take_until(s@.skip(i + 1), c) =~= before + (seq![rest[0]] + take_until(rest.drop_first(), c)));
        assert(out@ =~= s@.take(i + 1));
        i = i + 1;
    }
    assert(s@.skip(i as int).len() == 0);
    assert(out@ =~= s@);
    (out, false)
}

/// The host part of an authority `host[:port]`.
pub fn host_of_authority(authority: &str) -> (res: String)
    ensures
        res@ == authority_host(authority@),
{
    let a = chars_of(authority);
    if a.len() > 0 && a[0] == '[' {
        let (mut inner, closed) = split_before(&a, ']');
        if closed {
            inner.push(']');
            string_from_chars(inner.as_slice())
        } else {
            string_from_chars(a.as_slice())
        }
    } else {
        let (host, _) = split_before(&a, ':');
        string_from_chars(host.as_slice())
    }
}

/// The host a request is routed by, from the host its URI names (empty when
/// none) and the raw value of its `Host` header.
pub fn request_host(uri_host: &str, host_header: Option<&[u8]>) -> (res: String)
    ensures
        res@ == effective_host(uri_host@, match host_header {
            Some(v) => Some(v@),
            None => None,
        }),
{
    let uri_chars = chars_of(uri_host);
    if uri_chars.len() > 0 {
        return string_from_chars(uri_chars.as_slice());
    }
    match host_header {
        None => string_from_chars(Vec::<char>::new().as_slice()),
        Some(v) => match header_value_to_str(v) {
            Some(text) => host_of_authority(text.as_str()),
            None => string_from_chars(Vec::<char>::new().as_slice()),
        },
    }
}

} // verus!
