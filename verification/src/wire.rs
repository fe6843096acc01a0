//! Byte-level codec for native bridge replies.
//!
//! The bridge hands back raw bytes. A permission reply is one of the bare
//! ASCII words `granted`, `denied` or `prompt`. A token reply is a one-member
//! object `{"token":"..."}` whose string escapes `"` and `\` with a leading
//! backslash and carries every other byte literally.

use vstd::prelude::*;

use crate::models::PermissionState;

verus! {

/// ASCII `"`.
pub const QUOTE_BYTE: u8 = 34;

/// ASCII `\`.
pub const BACKSLASH_BYTE: u8 = 92;

/// ASCII `}`.
pub const RBRACE_BYTE: u8 = 125;

/// The bytes of the ASCII word `granted`.
pub open spec fn granted_wire() -> Seq<u8> {
    seq![103u8, 114u8, 97u8, 110u8, 116u8, 101u8, 100u8]
}

/// The bytes of the ASCII word `denied`.
pub open spec fn denied_wire() -> Seq<u8> {
    seq![100u8, 101u8, 110u8, 105u8, 101u8, 100u8]
}

/// The bytes of the ASCII word `prompt`.
pub open spec fn prompt_wire() -> Seq<u8> {
    seq![112u8, 114u8, 111u8, 109u8, 112u8, 116u8]
}

/// The wire word a backend uses for each permission outcome.
pub open spec fn permission_wire(s: PermissionState) -> Seq<u8> {
    match s {
        PermissionState::Granted => granted_wire(),
        PermissionState::Denied => denied_wire(),
        PermissionState::Prompt => prompt_wire(),
    }
}

/// What a permission reply payload means: the matching outcome for one of
/// the three wire words, nothing for any other byte sequence.
pub open spec fn parse_permission_spec(p: Seq<u8>) -> Option<PermissionState> {
    if p == granted_wire() {
        Some(PermissionState::Granted)
    } else if p == denied_wire() {
        Some(PermissionState::Denied)
    } else if p == prompt_wire() {
        Some(PermissionState::Prompt)
    } else {
        None
    }
}

/// The bytes `{"token":"`, opening a token reply.
pub open spec fn token_prefix() -> Seq<u8> {
    seq![123u8, 34u8, 116u8, 111u8, 107u8, 101u8, 110u8, 34u8, 58u8, 34u8]
}

/// How one token byte appears on the wire: `"` and `\` gain a leading
/// backslash, every other byte stands for itself.
pub open spec fn escape_byte(b: u8) -> Seq<u8> {
    if b == QUOTE_BYTE || b == BACKSLASH_BYTE {
        seq![BACKSLASH_BYTE, b]
    } else {
        seq![b]
    }
}

/// The escaped form of a whole token.
pub open spec fn escape_bytes(t: Seq<u8>) -> Seq<u8>
    decreases t.len(),
{
    if t.len() == 0 {
        Seq::empty()
    } else {
        escape_byte(t[0]) + escape_bytes(t.skip(1))
    }
}

/// The full wire form of a token reply: `{"token":"` + escaped token + `"}`.
pub open spec fn token_wire(t: Seq<u8>) -> Seq<u8> {
    token_prefix() + escape_bytes(t) + seq![QUOTE_BYTE, RBRACE_BYTE]
}

/// What the bytes after the opening quote mean: the token whose escaped form,
/// closed by `"}`, they are; nothing if they are not of that shape.
pub open spec fn parse_token_body(s: Seq<u8>) -> Option<Seq<u8>>
    decreases s.len(),
{
    if s.len() == 0 {
        None
    } else if s[0] == QUOTE_BYTE {
        if s.len() == 2 && s[1] == RBRACE_BYTE {
            Some(Seq::empty())
        } else {
            None
        }
    } else if s[0] == BACKSLASH_BYTE {
        if s.len() >= 2 && (s[1] == QUOTE_BYTE || s[1] == BACKSLASH_BYTE) {
            match parse_token_body(s.skip(2)) {
                Some(t) => Some(seq![s[1]] + t),
                None => None,
            }
        } else {
            None
        }
    } else {
        match parse_token_body(s.skip(1)) {
            Some(t) => Some(seq![s[0]] + t),
            None => None,
        }
    }
}

/// What a token reply payload means: the token inside `{"token":"..."}`,
/// nothing for any other byte sequence.
pub open spec fn parse_token_spec(p: Seq<u8>) -> Option<Seq<u8>> {
    if p.len() >= token_prefix().len() && p.subrange(0, token_prefix().len() as int)
        == token_prefix() {
        parse_token_body(p.skip(token_prefix().len() as int))
    } else {
        None
    }
}

/// Byte-wise equality of two slices.
pub(crate) fn bytes_eq(a: &[u8], b: &[u8]) -> (r: bool)
    ensures
        r == (a@ == b@),
{
    if a.len() != b.len() {
        return false;
    }
    let mut i: usize = 0;
    while i < a.len()
        invariant
            0 <= i <= a.len(),
            a@.len() == b@.len(),
            forall|j: int| 0 <= j < i ==> a@[j] == b@[j],
        decreases a.len() - i,
    {
        if a[i] != b[i] {
            return false;
        }
        i = i + 1;
    }
    proof {
        assert(a@ =~= b@);
    }
    true
}

/// The word `granted` as owned bytes.
pub fn granted_bytes() -> (v: Vec<u8>)
    ensures
        v@ == granted_wire(),
{
    let v: Vec<u8> = vec![103, 114, 97, 110, 116, 101, 100];
    proof {
        assert(v@ =~= granted_wire());
    }
    v
}

/// The word `denied` as owned bytes.
pub fn denied_bytes() -> (v: Vec<u8>)
    ensures
        v@ == denied_wire(),
{
    let v: Vec<u8> = vec![100, 101, 110, 105, 101, 100];
    proof {
        assert(v@ =~= denied_wire());
    }
    v
}

/// The word `prompt` as owned bytes.
pub fn prompt_bytes() -> (v: Vec<u8>)
    ensures
        v@ == prompt_wire(),
{
    let v: Vec<u8> = vec![112, 114, 111, 109, 112, 116];
    proof {
        assert(v@ =~= prompt_wire());
    }
    v
}

/// Reads a permission reply payload.
pub fn parse_permission_reply(payload: &[u8]) -> (r: Option<PermissionState>)
    ensures
        r == parse_permission_spec(payload@),
{
    let g = granted_bytes();
    if bytes_eq(payload, g.as_slice()) {
        return Some(PermissionState::Granted);
    }
    let d = denied_bytes();
    if bytes_eq(payload, d.as_slice()) {
        return Some(PermissionState::Denied);
    }
    let p = prompt_bytes();
    if bytes_eq(payload, p.as_slice()) {
        return Some(PermissionState::Prompt);
    }
    None
}

/// Reads a token reply payload, returning the unescaped token.
pub fn parse_token_reply(payload: &[u8]) -> (r: Option<Vec<u8>>)
    ensures
        match r {
            Some(v) => parse_token_spec(payload@) == Some(v@),
            None => parse_token_spec(payload@) is None,
        },
{
    let prefix: Vec<u8> = vec![123, 34, 116, 111, 107, 101, 110, 34, 58, 34];
    proof {
        assert(prefix@ =~= token_prefix());
    }
    if payload.len() < prefix.len() {
        return None;
    }
    let mut i: usize = 0;
    while i < prefix.len()
        invariant
            0 <= i <= prefix@.len(),
            prefix@ == token_prefix(),
            payload@.len() >= prefix@.len(),
            forall|j: int| 0 <= j < i ==> payload@[j] == prefix@[j],
        decreases prefix.len() - i,
    {
        if payload[i] != prefix[i] {
            proof {
                assert(payload@.subrange(0, token_prefix().len() as int)[i as int]
                    != token_prefix()[i as int]);
            }
            return None;
        }
        i = i + 1;
    }
    proof {
        assert(payload@.subrange(0, token_prefix().len() as int) =~= token_prefix());
    }
    let mut out: Vec<u8> = Vec::new();
    let mut pos: usize = prefix.len();
    proof {
        assert(out@ + payload@.skip(pos as int) =~= payload@.skip(pos as int));
    }
    while pos < payload.len()
        invariant
            token_prefix().len() <= pos <= payload@.len(),
            parse_token_body(payload@.skip(token_prefix().len() as int)) == (match
                parse_token_body(payload@.skip(pos as int)) {
                Some(t) => Some(out@ + t),
                None => None::<Seq<u8>>,
            }),
            payload@.subrange(0, token_prefix().len() as int) == token_prefix(),
        decreases payload.len() - pos,
    {
        let b = payload[pos];
        proof {
            assert(payload@.skip(pos as int)[0] == payload@[pos as int]);
        }
        if b == QUOTE_BYTE {
            if pos + 1 < payload.len() && pos + 2 == payload.len() && payload[pos + 1]
                == RBRACE_BYTE {
                proof {
                    assert(payload@.skip(pos as int)[1] == payload@[pos as int + 1]);
                    assert(parse_token_body(payload@.skip(pos as int)) == Some(
                        Seq::<u8>::empty(),
                    ));
                    assert(out@ + Seq::<u8>::empty() =~= out@);
                }
                return Some(out);
            } else {
                proof {
                    if payload@.skip(pos as int).len() == 2 {
                        assert(payload@.skip(pos as int)[1] == payload@[pos as int + 1]);
                    }
                    assert(parse_token_body(payload@.skip(pos as int)) is None);
                }
                return None;
            }
        } else if b == BACKSLASH_BYTE {
            if pos + 1 < payload.len() && (payload[pos + 1] == QUOTE_BYTE || payload[pos + 1]
                == BACKSLASH_BYTE) {
                let esc = payload[pos + 1];
                proof {
                    assert(payload@.skip(pos as int)[1] == payload@[pos as int + 1]);
                    assert(payload@.skip(pos as int).skip(2) =~= payload@.skip(pos as int + 2));
                }
                let ghost old_out = out@;
                out.push(esc);
                pos = pos + 2;
                proof {
                    assert forall|t: Seq<u8>| old_out + (seq![esc] + t) =~= out@ + t by {
                        assert(out@ =~= old_out + seq![esc]);
                    }
                }
            } else {
                proof {
                    if payload@.skip(pos as int).len() >= 2 {
                        assert(payload@.skip(pos as int)[1] == payload@[pos as int + 1]);
                    }
                    assert(parse_token_body(payload@.skip(pos as int)) is None);
                }
                return None;
            }
        } else {
            proof {
                assert(payload@.skip(pos as int).skip(1) =~= payload@.skip(pos as int + 1));
            }
            let ghost old_out = out@;
            out.push(b);
            pos = pos + 1;
            proof {
                assert forall|t: Seq<u8>| old_out + (seq![b] + t) =~= out@ + t by {
                    assert(out@ =~= old_out + seq![b]);
                }
            }
        }
    }
    proof {
        assert(payload@.skip(pos as int).len() == 0);
        assert(parse_token_body(payload@.skip(pos as int)) is None);
    }
    None
}

/// Law: the codec inverts the wire form of the token body. Whatever bytes a
/// token holds, escaping them and closing the string gives bytes that parse
/// back to exactly that token.
pub proof fn lemma_parse_escaped(t: Seq<u8>)
    ensures
        parse_token_body(escape_bytes(t) + seq![QUOTE_BYTE, RBRACE_BYTE]) == Some(t),
    decreases t.len(),
{
    let s = escape_bytes(t) + seq![QUOTE_BYTE, RBRACE_BYTE];
    if t.len() == 0 {
        assert(s =~= seq![QUOTE_BYTE, RBRACE_BYTE]);
        assert(parse_token_body(s) == Some(Seq::<u8>::empty()));
        assert(Seq::<u8>::empty() =~= t);
    } else {
        let b = t[0];
        lemma_parse_escaped(t.skip(1));
        let rest = escape_bytes(t.skip(1)) + seq![QUOTE_BYTE, RBRACE_BYTE];
        if b == QUOTE_BYTE || b == BACKSLASH_BYTE {
            assert(s =~= seq![BACKSLASH_BYTE, b] + rest);
            assert(s[0] == BACKSLASH_BYTE && s[1] == b);
            assert(s.skip(2) =~= rest);
            assert(seq![b] + t.skip(1) =~= t);
        } else {
            assert(s =~= seq![b] + rest);
            assert(s[0] == b);
            assert(s.skip(1) =~= rest);
            assert(seq![b] + t.skip(1) =~= t);
        }
    }
}

/// Law: a token reply wrapping any token parses back to exactly that token,
/// unmodified.
pub proof fn lemma_token_round_trip(t: Seq<u8>)
    ensures
        parse_token_spec(token_wire(t)) == Some(t),
{
    let p = token_wire(t);
    assert(p.subrange(0, token_prefix().len() as int) =~= token_prefix());
    assert(p.skip(token_prefix().len() as int) =~= escape_bytes(t) + seq![
        QUOTE_BYTE,
        RBRACE_BYTE,
    ]);
    lemma_parse_escaped(t);
}

/// Law: the token body grammar is canonical. Bytes the body parser accepts
/// as token `t` are exactly the escaped form of `t` closed by `"}`.
pub proof fn lemma_parse_escaped_complete(s: Seq<u8>, t: Seq<u8>)
    requires
        parse_token_body(s) == Some(t),
    ensures
        s == escape_bytes(t) + seq![QUOTE_BYTE, RBRACE_BYTE],
    decreases s.len(),
{
    if s[0] == QUOTE_BYTE {
        assert(t =~= Seq::<u8>::empty());
        assert(s =~= escape_bytes(t) + seq![QUOTE_BYTE, RBRACE_BYTE]);
    } else if s[0] == BACKSLASH_BYTE {
        let tail = choose|tail: Seq<u8>| parse_token_body(s.skip(2)) == Some(tail) && t == seq![
            s[1],
        ] + tail;
        lemma_parse_escaped_complete(s.skip(2), tail);
        assert(t[0] == s[1]);
        assert(t.skip(1) =~= tail);
        assert(escape_byte(t[0]) =~= seq![BACKSLASH_BYTE, s[1]]);
        assert(s =~= escape_byte(t[0]) + s.skip(2));
        assert(escape_bytes(t) + seq![QUOTE_BYTE, RBRACE_BYTE] =~= escape_byte(t[0]) + (
        escape_bytes(tail) + seq![QUOTE_BYTE, RBRACE_BYTE]));
        assert(s =~= escape_bytes(t) + seq![QUOTE_BYTE, RBRACE_BYTE]);
    } else {
        let tail = choose|tail: Seq<u8>| parse_token_body(s.skip(1)) == Some(tail) && t == seq![
            s[0],
        ] + tail;
        lemma_parse_escaped_complete(s.skip(1), tail);
        assert(t[0] == s[0]);
        assert(t.skip(1) =~= tail);
        assert(escape_byte(t[0]) =~= seq![s[0]]);
        assert(s =~= escape_byte(t[0]) + s.skip(1));
        assert(escape_bytes(t) + seq![QUOTE_BYTE, RBRACE_BYTE] =~= escape_byte(t[0]) + (
        escape_bytes(tail) + seq![QUOTE_BYTE, RBRACE_BYTE]));
        assert(s =~= escape_bytes(t) + seq![QUOTE_BYTE, RBRACE_BYTE]);
    }
}

/// Law: a token reply is canonical. Whatever payload parses as token `t` is
/// exactly the wire form of `t`; with the round trip this makes the codec a
/// bijection between tokens and well-formed replies.
pub proof fn lemma_token_wire_canonical(p: Seq<u8>, t: Seq<u8>)
    requires
        parse_token_spec(p) == Some(t),
    ensures
        p == token_wire(t),
{
    lemma_parse_escaped_complete(p.skip(token_prefix().len() as int), t);
    assert(p =~= p.subrange(0, token_prefix().len() as int) + p.skip(
        token_prefix().len() as int,
    ));
    assert(p =~= token_wire(t));
}

/// Law: a permission reply carrying any of the three wire words parses back
/// to exactly the outcome it stands for, unmodified.
pub proof fn lemma_permission_round_trip(s: PermissionState)
    ensures
        parse_permission_spec(permission_wire(s)) == Some(s),
{
    assert(granted_wire().len() != denied_wire().len());
    assert(granted_wire().len() != prompt_wire().len());
    assert(denied_wire()[0] != prompt_wire()[0]);
}

} // verus!
