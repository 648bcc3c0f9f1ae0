//! The verifiable random function and the randomness that the draws use,
//! provided by schnorrkel and rand.

use vstd::prelude::*;
use rand::Rng;
use schnorrkel::signing_context;
use schnorrkel::vrf::{VRFInOut, VRFProof};
use schnorrkel::Keypair;
use vstd::utf8::encode_utf8;
use crate::card::{card_text, Card};

verus! {

#[verifier::external_type_specification]
#[verifier::external_body]
pub struct ExKeypair(Keypair);

#[verifier::external_type_specification]
#[verifier::external_body]
pub struct ExVRFInOut(VRFInOut);

#[verifier::external_type_specification]
#[verifier::external_body]
pub struct ExVRFProof(VRFProof);

/// The largest message that a signing transcript takes.
pub const MAX_TRANSCRIPT_MESSAGE: u64 = 0xffff_ffff;

/// Whether schnorrkel's VRF verification accepts `out` and `proof` under the
/// public half of `keypair`, for the signing context labelled `context` and
/// the message `message`.
pub uninterp spec fn vrf_accepts(
    keypair: Keypair,
    context: Seq<u8>,
    message: Seq<u8>,
    out: VRFInOut,
    proof: VRFProof,
) -> bool;

/// Whether the keypair's public half is the one that schnorrkel's
/// `SecretKey::to_public` derives from its secret half.
pub uninterp spec fn public_matches_secret(keypair: Keypair) -> bool;

/// The VRF input and output that schnorrkel's `Keypair::vrf_create_hash`
/// derives from the keypair and the transcript
/// `signing_context(context).bytes(message)`.
pub uninterp spec fn vrf_output_of(keypair: Keypair, context: Seq<u8>, message: Seq<u8>) -> VRFInOut;

/// The 32 bytes of the compressed VRF output point of `io`, as schnorrkel's
/// `VRFInOut::as_output_bytes` gives them.
pub uninterp spec fn vrf_output_bytes(io: VRFInOut) -> Seq<u8>;

/// Whether the VRF output is the identity point, whose compressed form is 32
/// zero bytes. Verification refuses such an output; signing yields one only
/// for a zero secret scalar or an input hashed to the identity.
pub open spec fn is_identity_output(io: VRFInOut) -> bool {
    forall|i: int| 0 <= i < vrf_output_bytes(io).len() ==> vrf_output_bytes(io)[i] == 0
}

/// Relies on schnorrkel's `VRFInOut::as_output_bytes`: the compressed output
/// point, 32 bytes.
#[verifier::external_body]
pub(crate) fn output_bytes(io: &VRFInOut) -> (b: Vec<u8>)
    ensures
        b@ == vrf_output_bytes(*io),
        b@.len() == 32,
{
    io.as_output_bytes().to_vec()
}

/// Relies on schnorrkel's `Keypair::generate_with`, fed by rand's `OsRng`:
/// a fresh secret key from the system's secure randomness, paired with the
/// public key that `to_public` derives from it. It panics only when that
/// randomness is unavailable, which ends the process.
#[verifier::external_body]
pub(crate) fn generate_keypair() -> (k: Keypair)
    ensures
        public_matches_secret(k),
{
    Keypair::generate_with(rand::rngs::OsRng)
}

/// Relies on schnorrkel's `Keypair::vrf_sign` over the transcript that
/// `signing_context(context).bytes(message)` builds: the VRF input and
/// output come from `vrf_create_hash` and depend on the keypair, context and
/// message alone; the proof draws fresh randomness. The proof answers
/// `s = r - c * sk` to the transcript's challenge, so verification with a
/// public half `sk * G` recomputes the same commitments and challenge and
/// accepts, unless the output is the identity point, which it refuses.
/// The transcript asserts that each part fits in a `u32` length.
#[verifier::external_body]
pub(crate) fn vrf_sign(keypair: &Keypair, context: &[u8], message: &[u8]) -> (r: (
    VRFInOut,
    VRFProof,
))
    requires
        context@.len() <= MAX_TRANSCRIPT_MESSAGE,
        message@.len() <= MAX_TRANSCRIPT_MESSAGE,
    ensures
        r.0 == vrf_output_of(*keypair, context@, message@),
        public_matches_secret(*keypair) && !is_identity_output(r.0) ==> vrf_accepts(
            *keypair,
            context@,
            message@,
            r.0,
            r.1,
        ),
{
    let (out, proof, _) = keypair.vrf_sign(signing_context(context).bytes(message));
    (out, proof)
}

/// Relies on schnorrkel's `PublicKey::vrf_verify` with the keypair's public
/// half, over the transcript `signing_context(context).bytes(message)` and
/// the output's `to_preout`; an error result is a rejection.
/// The transcript asserts that each part fits in a `u32` length.
#[verifier::external_body]
pub(crate) fn vrf_verify(
    keypair: &Keypair,
    context: &[u8],
    message: &[u8],
    out: &VRFInOut,
    proof: &VRFProof,
) -> (ok: bool)
    requires
        context@.len() <= MAX_TRANSCRIPT_MESSAGE,
        message@.len() <= MAX_TRANSCRIPT_MESSAGE,
    ensures
        ok == vrf_accepts(*keypair, context@, message@, *out, *proof),
{
    let t = signing_context(context).bytes(message);
    keypair.public.vrf_verify(t, &out.to_preout(), proof).is_ok()
}

/// Relies on rand's `Rng::gen_range` over `0..len` on `OsRng`: an index
/// below `len`. It panics on an empty range, which `requires` leaves out.
#[verifier::external_body]
pub(crate) fn random_index(len: usize) -> (i: usize)
    requires
        len > 0,
    ensures
        i < len,
{
    rand::rngs::OsRng.gen_range(0..len)
}

/// The signing-context label of a player: the bytes of its name.
pub open spec fn context_of(name: Seq<char>) -> Seq<u8> {
    encode_utf8(name)
}

/// The message signed for a card: the bytes of its canonical text.
pub open spec fn message_of(c: Card) -> Seq<u8> {
    encode_utf8(card_text(c))
}

proof fn lemma_encode_utf8_len(s: Seq<char>)
    ensures
        encode_utf8(s).len() <= 4 * s.len(),
    decreases s.len(),
{
    if s.len() > 0 {
        lemma_encode_utf8_len(s.drop_first());
    }
}

proof fn lemma_message_len(c: Card)
    ensures
        message_of(c).len() <= MAX_TRANSCRIPT_MESSAGE,
{
    reveal_strlit("2");
    reveal_strlit("3");
    reveal_strlit("4");
    reveal_strlit("5");
    reveal_strlit("6");
    reveal_strlit("7");
    reveal_strlit("8");
    reveal_strlit("9");
    reveal_strlit("10");
    reveal_strlit("Jack");
    reveal_strlit("Queen");
    reveal_strlit("King");
    reveal_strlit("Ace");
    reveal_strlit(" of ");
    reveal_strlit("Spades");
    reveal_strlit("Hearts");
    reveal_strlit("Diamonds");
    reveal_strlit("Clubs");
    assert(card_text(c).len() <= 20);
    lemma_encode_utf8_len(card_text(c));
}

/// Signs `card` under `keypair`, with the signer's name as context label and
/// the card's text as message. The VRF output is fixed by key, name and
/// card; the proof is fresh on each call, and for a matching keypair it
/// verifies unless the output is the identity point.
pub fn sign_card(keypair: &Keypair, name: &str, card: &Card) -> (r: (VRFInOut, VRFProof))
    requires
        context_of(name@).len() <= MAX_TRANSCRIPT_MESSAGE,
    ensures
        r.0 == vrf_output_of(*keypair, context_of(name@), message_of(*card)),
        public_matches_secret(*keypair) && !is_identity_output(r.0) ==> vrf_accepts(
            *keypair,
            context_of(name@),
            message_of(*card),
            r.0,
            r.1,
        ),
{
    let text = card.to_string();
    proof {
        lemma_message_len(*card);
    }
    vrf_sign(keypair, name.as_bytes(), text.as_str().as_bytes())
}

/// Checks `out` and `proof` against `card` under the keypair's public half,
/// with `name` as context label: true when the VRF verification accepts
/// them.
pub fn verify_signed_card(
    keypair: &Keypair,
    name: &str,
    card: &Card,
    out: &VRFInOut,
    proof: &VRFProof,
) -> (ok: bool)
    requires
        context_of(name@).len() <= MAX_TRANSCRIPT_MESSAGE,
    ensures
        ok == vrf_accepts(*keypair, context_of(name@), message_of(*card), *out, *proof),
{
    let text = card.to_string();
    proof {
        lemma_message_len(*card);
    }
    vrf_verify(keypair, name.as_bytes(), text.as_str().as_bytes(), out, proof)
}

/// Whether `io`'s output is the identity point: all 32 bytes of its
/// compressed form are zero.
pub fn output_is_identity(io: &VRFInOut) -> (z: bool)
    ensures
        z == is_identity_output(*io),
{
    let b = output_bytes(io);
    let mut i: usize = 0;
    while i < b.len()
        invariant
            i <= b@.len(),
            b@ == vrf_output_bytes(*io),
            forall|j: int| 0 <= j < i ==> b@[j] == 0,
        decreases b@.len() - i,
    {
        if b[i] != 0 {
            return false;
        }
        i = i + 1;
    }
    true
}

} // verus!
