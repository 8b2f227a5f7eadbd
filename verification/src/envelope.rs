//! The on-disk envelope: a JSON object with three text fields, holding the
//! base64-coded ciphertext, the base64-coded nonce, and the salt that the
//! key sealing the ciphertext was derived with.
//!
//! The envelope's text form is fixed: field order, quoting and the absence
//! of inner whitespace are part of the format. Field values are drawn from
//! the base64 alphabet (plus padding), so no escaping is ever needed; a
//! text whose fields step outside that alphabet is not a well-formed
//! envelope and is rejected.
use vstd::prelude::*;

use crate::primitives::{all_field_chars, is_field_char};
use crate::VaultError;

verus! {

use vstd::string::StrSliceExecFns;
use vstd::string::StringExecFns;

/// On-disk record of one encrypted payload. All three fields are text;
/// `ciphertext` and `nonce` are base64-coded bytes, `salt` is the B64 salt
/// string the key was derived with.
#[derive(Debug)]
pub struct EncryptedData {
    pub ciphertext: String,
    pub nonce: String,
    pub salt: String,
}

/// The mathematical picture of an envelope: its three fields as character
/// sequences.
#[verifier::ext_equal]
pub struct EnvelopeModel {
    pub ciphertext: Seq<char>,
    pub nonce: Seq<char>,
    pub salt: Seq<char>,
}

impl View for EncryptedData {
    type V = EnvelopeModel;

    open spec fn view(&self) -> EnvelopeModel {
        EnvelopeModel {
            ciphertext: self.ciphertext@,
            nonce: self.nonce@,
            salt: self.salt@,
        }
    }
}

/// An envelope whose fields stay inside the base64 alphabet (plus
/// padding), and so can be embedded in the envelope text verbatim.
pub open spec fn envelope_wf(env: EnvelopeModel) -> bool {
    all_field_chars(env.ciphertext) && all_field_chars(env.nonce) && all_field_chars(env.salt)
}

/// The envelope's text form: a JSON object with the three fields in fixed
/// order and no inner whitespace.
pub open spec fn envelope_text(env: EnvelopeModel) -> Seq<char> {
    "{\"ciphertext\":\""@ + env.ciphertext + "\",\"nonce\":\""@ + env.nonce + "\",\"salt\":\""@
        + env.salt + "\"}"@
}

/// The first position at or after `i` holding a character outside the
/// field alphabet, or the text's end.
pub open spec fn field_end(s: Seq<char>, i: int) -> int
    decreases s.len() - i,
{
    if i < 0 || i >= s.len() {
        s.len() as int
    } else if is_field_char(s[i]) {
        field_end(s, i + 1)
    } else {
        i
    }
}

/// The envelope a text parses to: the text must be exactly the envelope
/// form, with each field running up to the next character outside the
/// field alphabet.
pub open spec fn parse_envelope_text(s: Seq<char>) -> Option<EnvelopeModel> {
    let p1 = "{\"ciphertext\":\""@;
    let p2 = "\",\"nonce\":\""@;
    let p3 = "\",\"salt\":\""@;
    let p4 = "\"}"@;
    let i0 = p1.len() as int;
    let j0 = field_end(s, i0);
    let i1 = j0 + p2.len();
    let j1 = field_end(s, i1);
    let i2 = j1 + p3.len();
    let j2 = field_end(s, i2);
    if p1.len() <= s.len() && s.subrange(0, i0) == p1 && i1 <= s.len() && s.subrange(j0, i1) == p2
        && i2 <= s.len() && s.subrange(j1, i2) == p3 && j2 + p4.len() == s.len() && s.subrange(
        j2,
        s.len() as int,
    ) == p4 {
        Some(
            EnvelopeModel {
                ciphertext: s.subrange(i0, j0),
                nonce: s.subrange(i1, j1),
                salt: s.subrange(i2, j2),
            },
        )
    } else {
        None
    }
}

/// `field_end` lands exactly on `j` when everything from `i` up to `j` is
/// in the field alphabet and `j` is the text's end or a character outside
/// it.
proof fn lemma_field_end_at(s: Seq<char>, i: int, j: int)
    requires
        0 <= i <= j <= s.len(),
        forall|k: int| i <= k < j ==> is_field_char(#[trigger] s[k]),
        j == s.len() || !is_field_char(s[j]),
    ensures
        field_end(s, i) == j,
    decreases j - i,
{
    if i < j {
        lemma_field_end_at(s, i + 1, j);
    }
}

/// Writing a well-formed envelope and parsing the text back returns the
/// same envelope: the codec loses nothing.
pub proof fn lemma_envelope_text_round_trip(env: EnvelopeModel)
    requires
        envelope_wf(env),
    ensures
        parse_envelope_text(envelope_text(env)) == Some(env),
{
    reveal_strlit("{\"ciphertext\":\"");
    reveal_strlit("\",\"nonce\":\"");
    reveal_strlit("\",\"salt\":\"");
    reveal_strlit("\"}");
    let p1 = "{\"ciphertext\":\""@;
    let p2 = "\",\"nonce\":\""@;
    let p3 = "\",\"salt\":\""@;
    let p4 = "\"}"@;
    let s = envelope_text(env);
    assert(p1.len() == 15 && p2.len() == 11 && p3.len() == 10 && p4.len() == 2);
    let i0 = 15int;
    let j0 = i0 + env.ciphertext.len() as int;
    let i1 = j0 + 11;
    let j1 = i1 + env.nonce.len() as int;
    let i2 = j1 + 10;
    let j2 = i2 + env.salt.len() as int;
    assert(s.len() == j2 + 2);
    assert forall|k: int| i0 <= k < j0 implies is_field_char(#[trigger] s[k]) by {
        assert(s[k] == env.ciphertext[k - i0]);
    }
    assert(!is_field_char(s[j0]) && field_end(s, i0) == j0) by {
        assert(s[j0] == p2[0]);
        lemma_field_end_at(s, i0, j0);
    }
    assert forall|k: int| i1 <= k < j1 implies is_field_char(#[trigger] s[k]) by {
        assert(s[k] == env.nonce[k - i1]);
    }
    assert(!is_field_char(s[j1]) && field_end(s, i1) == j1) by {
        assert(s[j1] == p3[0]);
        lemma_field_end_at(s, i1, j1);
    }
    assert forall|k: int| i2 <= k < j2 implies is_field_char(#[trigger] s[k]) by {
        assert(s[k] == env.salt[k - i2]);
    }
    assert(!is_field_char(s[j2]) && field_end(s, i2) == j2) by {
        assert(s[j2] == p4[0]);
        lemma_field_end_at(s, i2, j2);
    }
    assert(s.subrange(0, i0) =~= p1);
    assert(s.subrange(j0, i1) =~= p2);
    assert(s.subrange(j1, i2) =~= p3);
    assert(s.subrange(j2, s.len() as int) =~= p4);
    assert(s.subrange(i0, j0) =~= env.ciphertext);
    assert(s.subrange(i1, j1) =~= env.nonce);
    assert(s.subrange(i2, j2) =~= env.salt);
    assert(parse_envelope_text(s).unwrap() =~= env);
}

/// Whether the text `lit` occurs in `s` exactly at position `i`.
fn match_lit(s: &str, i: usize, lit: &str) -> (r: bool)
    ensures
        r == (i + lit@.len() <= s@.len() && s@.subrange(i as int, i + lit@.len()) == lit@),
{
    let n = s.unicode_len();
    let m = lit.unicode_len();
    if i > n || m > n - i {
        return false;
    }
    let mut k: usize = 0;
    while k < m
        invariant
            0 <= k <= m,
            i + m <= n,
            n == s@.len(),
            m == lit@.len(),
            forall|t: int| 0 <= t < k ==> s@[i + t] == lit@[t],
        decreases m - k,
    {
        if s.get_char(i + k) != lit.get_char(k) {
            proof {
                if s@.subrange(i as int, i + lit@.len()) == lit@ {
                    assert(s@.subrange(i as int, i + lit@.len())[k as int] == lit@[k as int]);
                }
            }
            return false;
        }
        k += 1;
    }
    proof {
        assert(s@.subrange(i as int, i + lit@.len()) =~= lit@);
    }
    true
}

/// The position where the field starting at `from` ends: the first
/// character outside the field alphabet, or the text's end.
fn field_scan(s: &str, from: usize) -> (r: usize)
    requires
        from <= s@.len(),
    ensures
        r == field_end(s@, from as int),
        from <= r <= s@.len(),
{
    let n = s.unicode_len();
    let mut j = from;
    while j < n && is_field_char_exec(s.get_char(j))
        invariant
            from <= j <= n,
            n == s@.len(),
            forall|t: int| from <= t < j ==> is_field_char(#[trigger] s@[t]),
        decreases n - j,
    {
        j += 1;
    }
    proof {
        lemma_field_end_at(s@, from as int, j as int);
    }
    j
}

/// Whether every character of a text may stand in an envelope field.
pub(crate) fn all_field_chars_exec(s: &str) -> (r: bool)
    ensures
        r == all_field_chars(s@),
{
    let n = s.unicode_len();
    let mut j: usize = 0;
    while j < n
        invariant
            0 <= j <= n,
            n == s@.len(),
            forall|t: int| 0 <= t < j ==> is_field_char(#[trigger] s@[t]),
        decreases n - j,
    {
        if !is_field_char_exec(s.get_char(j)) {
            return false;
        }
        j += 1;
    }
    true
}

/// Whether a character may stand in an envelope field.
fn is_field_char_exec(c: char) -> (r: bool)
    ensures
        r == is_field_char(c),
{
    ('A' <= c && c <= 'Z') || ('a' <= c && c <= 'z') || ('0' <= c && c <= '9') || c == '+' || c
        == '/' || c == '='
}

/// Render an envelope in its text form.
pub fn emit_envelope(env: &EncryptedData) -> (r: String)
    ensures
        r@ == envelope_text(env@),
{
    let mut out = String::new();
    out.append("{\"ciphertext\":\"");
    out.append(env.ciphertext.as_str());
    out.append("\",\"nonce\":\"");
    out.append(env.nonce.as_str());
    out.append("\",\"salt\":\"");
    out.append(env.salt.as_str());
    out.append("\"}");
    proof {
        assert(out@ =~= envelope_text(env@));
    }
    out
}

/// Parse an envelope from its text form; any deviation from the format is
/// `InvalidEnvelope`.
pub fn parse_envelope(s: &str) -> (r: Result<EncryptedData, VaultError>)
    ensures
        r is Ok <==> parse_envelope_text(s@) is Some,
        r is Ok ==> r.unwrap()@ == parse_envelope_text(s@).unwrap(),
        r is Err ==> r.unwrap_err() == VaultError::InvalidEnvelope,
{
    proof {
        reveal_strlit("{\"ciphertext\":\"");
        reveal_strlit("\",\"nonce\":\"");
        reveal_strlit("\",\"salt\":\"");
        reveal_strlit("\"}");
    }
    let n = s.unicode_len();
    if !match_lit(s, 0, "{\"ciphertext\":\"") {
        return Err(VaultError::InvalidEnvelope);
    }
    let i0: usize = 15;
    let j0 = field_scan(s, i0);
    if !match_lit(s, j0, "\",\"nonce\":\"") {
        return Err(VaultError::InvalidEnvelope);
    }
    let i1 = j0 + 11;
    let j1 = field_scan(s, i1);
    if !match_lit(s, j1, "\",\"salt\":\"") {
        return Err(VaultError::InvalidEnvelope);
    }
    let i2 = j1 + 10;
    let j2 = field_scan(s, i2);
    if !(match_lit(s, j2, "\"}") && j2 + 2 == n) {
        return Err(VaultError::InvalidEnvelope);
    }
    let env = EncryptedData {
        ciphertext: s.substring_char(i0, j0).to_owned(),
        nonce: s.substring_char(i1, j1).to_owned(),
        salt: s.substring_char(i2, j2).to_owned(),
    };
    proof {
        assert(env@ =~= parse_envelope_text(s@).unwrap());
    }
    Ok(env)
}

} // verus!
