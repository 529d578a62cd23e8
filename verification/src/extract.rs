use vstd::prelude::*;
use crate::strutil::str_eq;

verus! {

/// A raw bearer credential taken from the transport layer. Opaque, may be
/// empty; absence is an expected state meaning an anonymous request.
#[derive(Debug)]
pub struct Token(pub String);

impl Clone for Token {
    fn clone(&self) -> (r: Self)
        ensures
            r == *self,
    {
        Token(self.0.clone())
    }
}

/// The first position at or after `from` holding a space, or the length of
/// `h` if there is none.
pub open spec fn find_space(h: Seq<char>, from: int) -> int
    decreases h.len() - from,
{
    if from < 0 || from >= h.len() {
        h.len() as int
    } else if h[from] == ' ' {
        from
    } else {
        find_space(h, from + 1)
    }
}

/// The parsing rule for an `Authorization` header value: split on single
/// spaces; fewer than two fields means absent; otherwise the credential is
/// the second field, the scheme prefix being discarded.
pub open spec fn spec_extract_bearer(h: Seq<char>) -> Option<Seq<char>> {
    let i = find_space(h, 0);
    if i == h.len() {
        None
    } else {
        Some(h.subrange(i + 1, find_space(h, i + 1)))
    }
}

proof fn lemma_find_space_at(h: Seq<char>, from: int, i: int)
    requires
        0 <= from <= i <= h.len(),
        forall|j: int| from <= j < i ==> h[j] != ' ',
        i == h.len() || h[i] == ' ',
    ensures
        find_space(h, from) == i,
    decreases i - from,
{
    if from < i {
        lemma_find_space_at(h, from + 1, i);
    }
}

/// Scan from `from` to the next space or the end of the string.
fn scan_to_space(h: &str, from: usize, len: usize) -> (r: usize)
    requires
        len == h@.len(),
        from <= len,
    ensures
        r == find_space(h@, from as int),
        from <= r <= len,
{
    let mut i: usize = from;
    loop
        invariant
            len == h@.len(),
            from <= i <= len,
            forall|j: int| from <= j < i ==> h@[j] != ' ',
        decreases len - i,
    {
        if i == len {
            proof {
                lemma_find_space_at(h@, from as int, i as int);
            }
            return i;
        }
        let c = h.get_char(i);
        if c == ' ' {
            proof {
                lemma_find_space_at(h@, from as int, i as int);
            }
            return i;
        }
        i += 1;
    }
}

/// The credential extractor: the value of the `Authorization` header, if the
/// transport saw one, parsed by the rule of `spec_extract_bearer`. A
/// malformed or missing header yields absence, never an error.
pub fn get_token_from_headers(header: Option<&str>) -> (r: Option<Token>)
    ensures
        match header {
            None => r is None,
            Some(h) => match spec_extract_bearer(h@) {
                None => r is None,
                Some(t) => r is Some && (r->0).0@ == t,
            },
        },
{
    let h = match header {
        None => {
            return None;
        },
        Some(h) => h,
    };
    let len = h.unicode_len();
    let i = scan_to_space(h, 0, len);
    if i == len {
        return None;
    }
    let j = scan_to_space(h, i + 1, len);
    let tok = h.substring_char(i + 1, j);
    Some(Token(String::from_str(tok)))
}

/// The conventional scheme prefix, stripped once from the front of a
/// credential if present; any other credential passes unchanged.
pub open spec fn spec_strip_bearer(s: Seq<char>) -> Seq<char> {
    if s.len() >= 7 && s.subrange(0, 7) == "Bearer "@ {
        s.subrange(7, s.len() as int)
    } else {
        s
    }
}

/// Discard a leading `Bearer ` scheme prefix from a credential.
pub fn strip_bearer(s: &str) -> (r: String)
    ensures
        r@ == spec_strip_bearer(s@),
{
    let len = s.unicode_len();
    if len >= 7 {
        let head = s.substring_char(0, 7);
        if str_eq(head, "Bearer ") {
            return String::from_str(s.substring_char(7, len));
        }
    }
    String::from_str(s)
}

} // verus!
