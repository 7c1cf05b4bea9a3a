//! Turns source bytes into the token stream that the engine runs.
use vstd::prelude::*;

verus! {

/// ASCII `A`.
pub const UPPER_A: u8 = 65;

/// ASCII `Z`.
pub const UPPER_Z: u8 = 90;

/// Distance from an ASCII upper-case letter to its lower-case form.
pub const CASE_GAP: u8 = 32;

/// The byte with ASCII upper-case letters mapped to lower case; every other
/// byte unchanged.
pub open spec fn fold_byte(b: u8) -> u8 {
    if UPPER_A <= b && b <= UPPER_Z {
        (b + CASE_GAP) as u8
    } else {
        b
    }
}

/// The token stream of a source: each byte, case-folded, in order.
pub open spec fn tokens_of(source: Seq<u8>) -> Seq<u8> {
    source.map_values(|b: u8| fold_byte(b))
}

/// Two sources that differ at most in the ASCII case of their bytes.
pub open spec fn same_ignoring_case(a: Seq<u8>, b: Seq<u8>) -> bool {
    &&& a.len() == b.len()
    &&& forall|i: int| 0 <= i < a.len() ==> fold_byte(#[trigger] a[i]) == fold_byte(b[i])
}

/// Case-folds one byte.
pub fn fold(b: u8) -> (r: u8)
    ensures
        r == fold_byte(b),
{
    if UPPER_A <= b && b <= UPPER_Z {
        b + CASE_GAP
    } else {
        b
    }
}

/// Scans source bytes into tokens. Nothing is filtered out: whitespace and
/// newlines stay in the stream for the engine to handle.
pub fn scan_source(source: &[u8]) -> (tokens: Vec<u8>)
    ensures
        tokens@ == tokens_of(source@),
{
    let mut tokens: Vec<u8> = Vec::new();
    let mut i: usize = 0;
    while i < source.len()
        invariant
            i <= source@.len(),
            tokens@ == tokens_of(source@.subrange(0, i as int)),
        decreases source@.len() - i,
    {
        tokens.push(fold(source[i]));
        proof {
            assert(source@.subrange(0, i + 1) =~= source@.subrange(0, i as int).push(source@[i as int]));
        }
        i += 1;
        assert(tokens@ =~= tokens_of(source@.subrange(0, i as int)));
    }
    assert(source@.subrange(0, i as int) =~= source@);
    tokens
}

/// Sources that differ only in ASCII case scan to the same tokens.
pub proof fn lemma_scan_ignores_case(a: Seq<u8>, b: Seq<u8>)
    requires
        same_ignoring_case(a, b),
    ensures
        tokens_of(a) == tokens_of(b),
{
    assert(tokens_of(a) =~= tokens_of(b));
}

} // verus!
