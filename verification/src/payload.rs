//! Handshake payloads and their text-channel encoding.
//!
//! A payload is a role tag (`Offer` or `Answer`), the sending peer's
//! identity, and an opaque connectivity descriptor. The signaling channel
//! carries byte strings only, so the payload has an explicit, lossless
//! encoding: the ASCII role tag, a separator, the identity in eight
//! little-endian bytes, then the descriptor. Parsing rejects anything that
//! is not exactly such an encoding.

use vstd::bytes::{
    lemma_auto_spec_u64_to_from_le_bytes, spec_u64_from_le_bytes, spec_u64_to_le_bytes,
    u64_from_le_bytes, u64_to_le_bytes,
};
use vstd::prelude::*;
use vstd::slice::slice_subrange;

verus! {

/// Which side of the negotiation a payload belongs to.
#[derive(Clone, Copy, PartialEq, Eq, Structural, Debug)]
pub enum Role {
    Offer,
    Answer,
}

/// One connectivity-negotiation payload.
#[derive(Debug)]
pub struct HandshakePayload {
    pub role: Role,
    pub sender: u64,
    pub body: Vec<u8>,
}

impl HandshakePayload {
    /// The payload's own equality notion: same role, same sender, same
    /// descriptor bytes.
    #[verifier::loop_isolation(false)]
    pub fn equivalent(&self, other: &HandshakePayload) -> (r: bool)
        ensures
            r == (self.role == other.role && self.sender == other.sender && self.body@
                == other.body@),
    {
        if self.role != other.role || self.sender != other.sender {
            return false;
        }
        if self.body.len() != other.body.len() {
            return false;
        }
        let mut i: usize = 0;
        while i < self.body.len()
            invariant
                i <= self.body@.len(),
                forall|k: int| 0 <= k < i ==> self.body@[k] == other.body@[k],
            decreases self.body@.len() - i,
        {
            if self.body[i] != other.body[i] {
                return false;
            }
            i = i + 1;
        }
        proof {
            assert(self.body@ =~= other.body@);
        }
        true
    }
}

/// Byte that separates the role tag from the rest of the encoding (':').
pub const SEPARATOR: u8 = 0x3a;

/// The ASCII tag of a role: "offer" or "answer".
pub open spec fn spec_role_tag(role: Role) -> Seq<u8> {
    match role {
        Role::Offer => seq![0x6fu8, 0x66u8, 0x66u8, 0x65u8, 0x72u8],
        Role::Answer => seq![0x61u8, 0x6eu8, 0x73u8, 0x77u8, 0x65u8, 0x72u8],
    }
}

/// The text form of a payload: tag, separator, identity, descriptor.
pub open spec fn spec_serialize(role: Role, sender: u64, body: Seq<u8>) -> Seq<u8> {
    spec_role_tag(role) + seq![SEPARATOR] + spec_u64_to_le_bytes(sender) + body
}

/// What a byte string decodes to, if anything: the unique payload whose
/// text form it is.
pub open spec fn spec_parse(t: Seq<u8>) -> Option<(Role, u64, Seq<u8>)> {
    if t.len() >= 14 && t.subrange(0, 6) == spec_role_tag(Role::Offer) + seq![SEPARATOR] {
        Some(
            (
                Role::Offer,
                spec_u64_from_le_bytes(t.subrange(6, 14)),
                t.subrange(14, t.len() as int),
            ),
        )
    } else if t.len() >= 15 && t.subrange(0, 7) == spec_role_tag(Role::Answer) + seq![SEPARATOR] {
        Some(
            (
                Role::Answer,
                spec_u64_from_le_bytes(t.subrange(7, 15)),
                t.subrange(15, t.len() as int),
            ),
        )
    } else {
        None
    }
}

/// Law: the encoding is lossless. Serializing any payload and parsing the
/// result yields the payload back, whatever its role, identity and
/// descriptor.
pub proof fn lemma_serialize_parse_round_trip(role: Role, sender: u64, body: Seq<u8>)
    ensures
        spec_parse(spec_serialize(role, sender, body)) == Some((role, sender, body)),
{
    lemma_auto_spec_u64_to_from_le_bytes();
    let t = spec_serialize(role, sender, body);
    match role {
        Role::Offer => {
            assert(t.len() == 14 + body.len());
            assert(t.subrange(0, 6) =~= spec_role_tag(Role::Offer) + seq![SEPARATOR]);
            assert(t.subrange(6, 14) =~= spec_u64_to_le_bytes(sender));
            assert(t.subrange(14, t.len() as int) =~= body);
        },
        Role::Answer => {
            assert(t.len() == 15 + body.len());
            assert(t[0] == 0x61u8);
            assert(t.subrange(0, 6) != spec_role_tag(Role::Offer) + seq![SEPARATOR]) by {
                if t.subrange(0, 6) == spec_role_tag(Role::Offer) + seq![SEPARATOR] {
                    assert(t.subrange(0, 6)[0] == 0x6fu8);
                    assert(t.subrange(0, 6)[0] == t[0]);
                }
            }
            assert(t.subrange(0, 7) =~= spec_role_tag(Role::Answer) + seq![SEPARATOR]);
            assert(t.subrange(7, 15) =~= spec_u64_to_le_bytes(sender));
            assert(t.subrange(15, t.len() as int) =~= body);
        },
    }
}

/// Law: parsing accepts nothing but encodings. A byte string that parses
/// is exactly the text form of the payload it parses to.
pub proof fn lemma_parse_exact(t: Seq<u8>)
    ensures
        spec_parse(t) matches Some((role, sender, body)) ==> t == spec_serialize(
            role,
            sender,
            body,
        ),
{
    lemma_auto_spec_u64_to_from_le_bytes();
    if t.len() >= 14 && t.subrange(0, 6) == spec_role_tag(Role::Offer) + seq![SEPARATOR] {
        let sender = spec_u64_from_le_bytes(t.subrange(6, 14));
        assert(spec_u64_to_le_bytes(sender) == t.subrange(6, 14));
        assert(t =~= spec_serialize(Role::Offer, sender, t.subrange(14, t.len() as int)));
    } else if t.len() >= 15 && t.subrange(0, 7) == spec_role_tag(Role::Answer) + seq![SEPARATOR] {
        let sender = spec_u64_from_le_bytes(t.subrange(7, 15));
        assert(spec_u64_to_le_bytes(sender) == t.subrange(7, 15));
        assert(t =~= spec_serialize(Role::Answer, sender, t.subrange(15, t.len() as int)));
    }
}

/// Serialize a payload to its text form.
pub fn serialize_payload(p: &HandshakePayload) -> (out: Vec<u8>)
    ensures
        out@ == spec_serialize(p.role, p.sender, p.body@),
{
    let mut out: Vec<u8> = Vec::new();
    match p.role {
        Role::Offer => {
            out.push(0x6f);
            out.push(0x66);
            out.push(0x66);
            out.push(0x65);
            out.push(0x72);
            proof {
                assert(out@ =~= spec_role_tag(Role::Offer));
            }
        },
        Role::Answer => {
            out.push(0x61);
            out.push(0x6e);
            out.push(0x73);
            out.push(0x77);
            out.push(0x65);
            out.push(0x72);
            proof {
                assert(out@ =~= spec_role_tag(Role::Answer));
            }
        },
    }
    out.push(SEPARATOR);
    let mut le = u64_to_le_bytes(p.sender);
    out.append(&mut le);
    out.extend_from_slice(p.body.as_slice());
    proof {
        assert(out@ =~= spec_serialize(p.role, p.sender, p.body@));
    }
    out
}

/// Parse a byte string as a payload. Returns the unique payload whose text
/// form the input is, or nothing when the input is not an encoding.
pub fn parse_payload(text: &Vec<u8>) -> (r: Option<HandshakePayload>)
    ensures
        match r {
            Some(p) => spec_parse(text@) == Some((p.role, p.sender, p.body@)),
            None => spec_parse(text@) is None,
        },
{
    if text.len() >= 14 && text[0] == 0x6f && text[1] == 0x66 && text[2] == 0x66 && text[3] == 0x65
        && text[4] == 0x72 && text[5] == SEPARATOR {
        proof {
            assert(text@.subrange(0, 6) =~= spec_role_tag(Role::Offer) + seq![SEPARATOR]);
        }
        let le = slice_subrange(text.as_slice(), 6, 14);
        let sender = u64_from_le_bytes(le);
        let body_slice = slice_subrange(text.as_slice(), 14, text.len());
        let body = copy_bytes(body_slice);
        Some(HandshakePayload { role: Role::Offer, sender, body })
    } else if text.len() >= 15 && text[0] == 0x61 && text[1] == 0x6e && text[2] == 0x73 && text[3]
        == 0x77 && text[4] == 0x65 && text[5] == 0x72 && text[6] == SEPARATOR {
        proof {
            assert(text@.subrange(0, 6) != spec_role_tag(Role::Offer) + seq![SEPARATOR]) by {
                if text@.subrange(0, 6) == spec_role_tag(Role::Offer) + seq![SEPARATOR] {
                    assert(text@.subrange(0, 6)[0] == 0x6fu8);
                    assert(text@.subrange(0, 6)[0] == text@[0]);
                }
            }
            assert(text@.subrange(0, 7) =~= spec_role_tag(Role::Answer) + seq![SEPARATOR]);
        }
        let le = slice_subrange(text.as_slice(), 7, 15);
        let sender = u64_from_le_bytes(le);
        let body_slice = slice_subrange(text.as_slice(), 15, text.len());
        let body = copy_bytes(body_slice);
        Some(HandshakePayload { role: Role::Answer, sender, body })
    } else {
        proof {
            lemma_parse_rejects(text@);
        }
        None
    }
}

/// In the rejecting branch of `parse_payload` neither tag matched at the
/// bytes the code inspected, so no encoding fits.
proof fn lemma_parse_rejects(t: Seq<u8>)
    requires
        !(t.len() >= 14 && t[0] == 0x6fu8 && t[1] == 0x66u8 && t[2] == 0x66u8 && t[3] == 0x65u8
            && t[4] == 0x72u8 && t[5] == SEPARATOR),
        !(t.len() >= 15 && t[0] == 0x61u8 && t[1] == 0x6eu8 && t[2] == 0x73u8 && t[3] == 0x77u8
            && t[4] == 0x65u8 && t[5] == 0x72u8 && t[6] == SEPARATOR),
    ensures
        spec_parse(t) is None,
{
    if t.len() >= 14 && t.subrange(0, 6) == spec_role_tag(Role::Offer) + seq![SEPARATOR] {
        let p = t.subrange(0, 6);
        assert(t[0] == p[0] && t[1] == p[1] && t[2] == p[2] && t[3] == p[3] && t[4] == p[4] && t[5]
            == p[5]);
    }
    if t.len() >= 15 && t.subrange(0, 7) == spec_role_tag(Role::Answer) + seq![SEPARATOR] {
        let p = t.subrange(0, 7);
        assert(t[0] == p[0] && t[1] == p[1] && t[2] == p[2] && t[3] == p[3] && t[4] == p[4] && t[5]
            == p[5] && t[6] == p[6]);
    }
}

/// Copy a byte slice into a fresh vector.
fn copy_bytes(s: &[u8]) -> (out: Vec<u8>)
    ensures
        out@ == s@,
{
    let mut out: Vec<u8> = Vec::new();
    let mut i: usize = 0;
    while i < s.len()
        invariant
            i <= s@.len(),
            out@ == s@.subrange(0, i as int),
        decreases s@.len() - i,
    {
        out.push(*vstd::slice::slice_index_get(s, i));
        proof {
            assert(out@ =~= s@.subrange(0, i + 1 as int));
        }
        i = i + 1;
    }
    proof {
        assert(out@ =~= s@);
    }
    out
}

} // verus!
