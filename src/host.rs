//! The two host string models and the exact buffers that are handed to the
//! runtime for each of them.
use vstd::prelude::*;

use crate::error::BridgeError;

verus! {

/// The terminator byte of a C-style, terminator-delimited buffer.
pub const TERMINATOR: u8 = 0;

/// Whether `b` holds a terminator byte anywhere.
pub open spec fn holds_terminator(b: Seq<u8>) -> bool {
    exists|i: int| 0 <= i < b.len() && b[i] == TERMINATOR
}

/// The terminator-delimited copy of `b`: `b` followed by one terminator.
pub open spec fn terminated(b: Seq<u8>) -> Seq<u8> {
    b.push(TERMINATOR)
}

/// Whether the byte slice `b` holds an embedded terminator byte.
pub fn has_terminator(b: &[u8]) -> (r: bool)
    ensures
        r == holds_terminator(b@),
{
    let mut i: usize = 0;
    while i < b.len()
        invariant
            0 <= i <= b@.len(),
            forall|j: int| 0 <= j < i ==> b@[j] != TERMINATOR,
        decreases b@.len() - i,
    {
        if b[i] == TERMINATOR {
            return true;
        }
        i = i + 1;
    }
    false
}

/// Builds the terminator-delimited copy of a POSIX-style host string.
///
/// Fails with `InvalidHostString` exactly when `b` already holds a terminator
/// byte; otherwise the result is `b` followed by a single terminator.
pub fn terminated_buffer(b: &[u8]) -> (r: Result<Vec<u8>, BridgeError>)
    ensures
        holds_terminator(b@) <==> r is Err,
        r is Err ==> r->Err_0 == BridgeError::InvalidHostString,
        r is Ok ==> r->Ok_0@ == terminated(b@),
{
    if has_terminator(b) {
        return Err(BridgeError::InvalidHostString);
    }
    let mut out: Vec<u8> = Vec::with_capacity(b.len());
    let mut i: usize = 0;
    while i < b.len()
        invariant
            0 <= i <= b@.len(),
            out@ == b@.subrange(0, i as int),
        decreases b@.len() - i,
    {
        out.push(b[i]);
        i = i + 1;
    }
    proof {
        assert(b@.subrange(0, b@.len() as int) =~= b@);
    }
    out.push(TERMINATOR);
    Ok(out)
}

/// The byte layout of a sequence of 16-bit code units in memory on a
/// Windows-like host: each unit as two bytes, low byte first.
pub open spec fn unit_bytes(w: Seq<u16>) -> Seq<u8>
    decreases w.len(),
{
    if w.len() == 0 {
        Seq::empty()
    } else {
        unit_bytes(w.drop_last()).push((w.last() % 256) as u8).push((w.last() / 256) as u8)
    }
}

/// The length of the byte layout is twice the number of code units, and each
/// unit `w[i]` stands at bytes `2 * i` (low) and `2 * i + 1` (high).
pub proof fn lemma_unit_bytes(w: Seq<u16>)
    ensures
        unit_bytes(w).len() == 2 * w.len(),
        forall|i: int|
            0 <= i < w.len() ==> {
                &&& #[trigger] unit_bytes(w)[2 * i] == (w[i] % 256) as u8
                &&& unit_bytes(w)[2 * i + 1] == (w[i] / 256) as u8
            },
    decreases w.len(),
{
    if w.len() > 0 {
        lemma_unit_bytes(w.drop_last());
        let p = w.drop_last();
        assert forall|i: int| 0 <= i < w.len() implies {
            &&& #[trigger] unit_bytes(w)[2 * i] == (w[i] % 256) as u8
            &&& unit_bytes(w)[2 * i + 1] == (w[i] / 256) as u8
        } by {
            if i < p.len() {
                assert(w[i] == p[i]);
                assert(unit_bytes(p)[2 * i] == (p[i] % 256) as u8);
            }
        }
    }
}

/// The native byte layout of a Windows-style host string: each 16-bit code
/// unit copied verbatim as a byte pair, low byte first. No text encoding is
/// involved, so unpaired surrogate units are kept as they are.
pub fn wide_native_bytes(w: &[u16]) -> (r: Vec<u8>)
    requires
        2 * w@.len() <= usize::MAX,
    ensures
        r@ == unit_bytes(w@),
        r@.len() == 2 * w@.len(),
{
    let mut out: Vec<u8> = Vec::with_capacity(2 * w.len());
    let mut i: usize = 0;
    while i < w.len()
        invariant
            0 <= i <= w@.len(),
            out@ == unit_bytes(w@.subrange(0, i as int)),
        decreases w@.len() - i,
    {
        let u: u16 = w[i];
        out.push((u % 256) as u8);
        out.push((u / 256) as u8);
        proof {
            let next = w@.subrange(0, i + 1);
            assert(next.drop_last() =~= w@.subrange(0, i as int));
            assert(next.last() == u);
        }
        i = i + 1;
    }
    proof {
        assert(w@.subrange(0, w@.len() as int) =~= w@);
        lemma_unit_bytes(w@);
    }
    out
}

/// The name of the runtime's error-handling mode that maps each undecodable
/// byte into a reserved range of code points, so that decoding is lossless.
pub open spec fn escape_mode_name() -> Seq<u8> {
    seq![
        's' as u8,
        'u' as u8,
        'r' as u8,
        'r' as u8,
        'o' as u8,
        'g' as u8,
        'a' as u8,
        't' as u8,
        'e' as u8,
        'e' as u8,
        's' as u8,
        'c' as u8,
        'a' as u8,
        'p' as u8,
        'e' as u8,
    ]
}

/// The arguments of the runtime's length-aware locale decode call for a
/// POSIX-style host string.
pub struct LocaleDecodeRequest {
    /// The host bytes followed by one terminator.
    pub buffer: Vec<u8>,
    /// The number of host bytes, the terminator not counted.
    pub len: usize,
    /// The terminator-delimited name of the error-handling mode.
    pub errors: Vec<u8>,
}

/// The locale decode call that turns a POSIX-style host string into runtime
/// text. It hands over every host byte unchanged, including those that no
/// standard encoding accepts, and asks for the escaping error mode, so that
/// undecodable bytes are kept rather than dropped or substituted. Fails with
/// `InvalidHostString` exactly when the string holds a terminator byte.
pub fn posix_text_request(s: &[u8]) -> (r: Result<LocaleDecodeRequest, BridgeError>)
    ensures
        holds_terminator(s@) <==> r is Err,
        r is Err ==> r->Err_0 == BridgeError::InvalidHostString,
        r is Ok ==> {
            &&& r->Ok_0.buffer@ == terminated(s@)
            &&& r->Ok_0.len == s@.len()
            &&& r->Ok_0.errors@ == terminated(escape_mode_name())
        },
{
    match terminated_buffer(s) {
        Err(e) => Err(e),
        Ok(buffer) => {
            let errors: Vec<u8> = vec![
                's' as u8,
                'u' as u8,
                'r' as u8,
                'r' as u8,
                'o' as u8,
                'g' as u8,
                'a' as u8,
                't' as u8,
                'e' as u8,
                'e' as u8,
                's' as u8,
                'c' as u8,
                'a' as u8,
                'p' as u8,
                'e' as u8,
                TERMINATOR,
            ];
            proof {
                assert(errors@ =~= terminated(escape_mode_name()));
            }
            Ok(LocaleDecodeRequest { buffer, len: s.len(), errors })
        },
    }
}

} // verus!
