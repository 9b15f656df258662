//! Encryption of the local credential files (saved accounts, cookie files).
//!
//! A 256-bit master key, obtained from a [`KeyProvider`], seals each file with
//! ChaCha20-Poly1305 under a fresh random nonce; the file then holds the magic
//! header `VPENC1`, the nonce and the ciphertext with its tag (see
//! [`crate::envelope`]). Files written before encryption existed hold plain
//! JSON; [`decode_or_migrate`] passes them through and flags them so that the
//! caller can store them again encrypted.

use crate::cipher::{chacha20poly1305_seal, fill_random, open, seal, within_block_limit, TAG_LEN};
use crate::envelope::{
    frame, frame_body, frame_nonce, has_magic, magic, magic_bytes, open_frame,
    sealed_under, FrameError, HEADER_LEN, MAGIC_LEN, NONCE_LEN,
};
use vstd::prelude::*;

pub use crate::envelope::is_encrypted;
pub use crate::keychain::KeyringKeyProvider;

verus! {

/// The text of an error built from a fixed message.
pub(crate) fn message(text: &str) -> (s: String)
    ensures
        s@ == text@,
{
    String::from_str(text)
}

/// The text of an error built from a fixed prefix and a detail.
pub(crate) fn with_detail(prefix: &str, detail: &String) -> (s: String)
    ensures
        s@ == prefix@ + detail@,
{
    String::from_str(prefix).concat(detail.as_str())
}

/// The message of a failure to open an envelope.
pub open spec fn frame_error_text(e: FrameError) -> Seq<char> {
    match e {
        FrameError::MissingHeader => "暗号化ヘッダがありません"@,
        FrameError::Truncated => "暗号化データが短すぎます"@,
        FrameError::Rejected => "復号に失敗（鍵不一致または改ざん）"@,
    }
}

/// What an envelope made with `key` holds: the plaintext sealed under the
/// nonce it carries, which the same key opens again.
pub open spec fn envelope_facts(key: Seq<u8>, plaintext: Seq<u8>, out: Seq<u8>) -> bool {
    &&& sealed_under(key, plaintext, out)
    &&& open_frame(key, out) == Ok::<Seq<u8>, FrameError>(plaintext)
    &&& has_magic(out)
    &&& out.len() == plaintext.len() + HEADER_LEN + TAG_LEN
}

/// What [`seal_envelope`] returns for `key`, `nonce` and `plaintext`: the
/// envelope (magic header, the nonce, the sealed plaintext), or the cipher's
/// refusal when the plaintext reaches its block limit.
pub open spec fn envelope_outcome(key: Seq<u8>, nonce: Seq<u8>, plaintext: Seq<u8>, r: Result<Vec<u8>, String>) -> bool {
    if within_block_limit(plaintext.len()) {
        r matches Ok(out) && out@ == frame(nonce, chacha20poly1305_seal(key, nonce, plaintext))
    } else {
        r matches Err(e) && e@ == "暗号化に失敗"@
    }
}

/// A possible outcome of drawing a nonce: 12 random bytes, or the random
/// source's error text.
pub open spec fn nonce_draw(draw: Result<Seq<u8>, Seq<char>>) -> bool {
    draw matches Ok(n) ==> n.len() == NONCE_LEN
}

/// What [`encrypt_with`] may return for `key` and `plaintext`, given some
/// outcome of drawing the nonce: the envelope under the drawn nonce (see
/// [`envelope_outcome`]), or the random source's error behind a prefix. An
/// envelope it returns is one that the same key opens again.
pub open spec fn encrypt_outcome(key: Seq<u8>, plaintext: Seq<u8>, r: Result<Vec<u8>, String>) -> bool {
    &&& exists|draw: Result<Seq<u8>, Seq<char>>| #[trigger] nonce_draw(draw) && match draw {
        Ok(n) => envelope_outcome(key, n, plaintext, r),
        Err(d) => r matches Err(e) && e@ == "nonce生成に失敗（RNG）: "@ + d,
    }
    &&& r matches Ok(out) ==> envelope_facts(key, plaintext, out@)
    &&& !within_block_limit(plaintext.len()) ==> r is Err
}

/// Seals `plaintext` with `key` under `nonce` and frames it: magic header,
/// nonce, ciphertext with tag.
pub fn seal_envelope(key: &[u8; 32], nonce: &[u8; 12], plaintext: &[u8]) -> (r: Result<Vec<u8>, String>)
    requires
        plaintext@.len() + TAG_LEN <= isize::MAX,
    ensures
        envelope_outcome(key@, nonce@, plaintext@, r),
        r matches Ok(out) ==> envelope_facts(key@, plaintext@, out@),
{
    let ciphertext = match seal(key, nonce, plaintext) {
        Some(c) => c,
        None => {
            return Err(message("暗号化に失敗"));
        },
    };
    let m = magic_bytes();
    let mut out: Vec<u8> = Vec::new();
    out.extend_from_slice(&m);
    out.extend_from_slice(nonce);
    out.extend_from_slice(ciphertext.as_slice());
    proof {
        assert(out@ =~= frame(nonce@, ciphertext@));
        assert(frame_nonce(out@) =~= nonce@);
        assert(frame_body(out@) =~= ciphertext@);
        assert(out@.take(MAGIC_LEN as int) =~= magic());
    }
    Ok(out)
}

/// What [`decrypt_with`] returns for `key` and `data`: exactly what opening the
/// envelope gives, with each failure's message. A plaintext comes back exactly
/// header and tag shorter than the envelope, so data shorter than both is
/// refused.
pub open spec fn decrypt_outcome(key: Seq<u8>, data: Seq<u8>, r: Result<Vec<u8>, String>) -> bool {
    &&& match open_frame(key, data) {
        Ok(p) => r matches Ok(v) && v@ == p,
        Err(fe) => r matches Err(e) && e@ == frame_error_text(fe),
    }
    &&& r matches Ok(v) ==> data.len() == v@.len() + HEADER_LEN + TAG_LEN
}

/// Encrypts `plaintext` with `key` and returns the envelope: magic header,
/// fresh random nonce, ciphertext with tag.
pub fn encrypt_with(key: &[u8; 32], plaintext: &[u8]) -> (r: Result<Vec<u8>, String>)
    requires
        plaintext@.len() + TAG_LEN <= isize::MAX,
    ensures
        encrypt_outcome(key@, plaintext@, r),
{
    let mut nonce_bytes = [0u8; NONCE_LEN];
    match fill_random(&mut nonce_bytes) {
        Ok(()) => {},
        Err(detail) => {
            let e = with_detail("nonce生成に失敗（RNG）: ", &detail);
            proof {
                assert(nonce_draw(Err(detail@)));
            }
            return Err(e);
        },
    }
    let r = seal_envelope(key, &nonce_bytes, plaintext);
    proof {
        assert(nonce_draw(Ok(nonce_bytes@)));
    }
    r
}

/// Decrypts an envelope made by [`encrypt_with`] with `key`.
pub fn decrypt_with(key: &[u8; 32], data: &[u8]) -> (r: Result<Vec<u8>, String>)
    ensures
        decrypt_outcome(key@, data@, r),
{
    if !is_encrypted(data) {
        return Err(message("暗号化ヘッダがありません"));
    }
    let (_, rest) = data.split_at(MAGIC_LEN);
    if rest.len() < NONCE_LEN {
        return Err(message("暗号化データが短すぎます"));
    }
    let (nonce_bytes, ciphertext) = rest.split_at(NONCE_LEN);
    proof {
        assert(nonce_bytes@ =~= frame_nonce(data@));
        assert(ciphertext@ =~= frame_body(data@));
    }
    match open(key, nonce_bytes, ciphertext) {
        Some(p) => Ok(p),
        None => Err(message("復号に失敗（鍵不一致または改ざん）")),
    }
}

/// Where the master key comes from, so that the platform's key store can be
/// swapped out (the desktop build uses the OS keychain, see
/// [`crate::keychain::KeyringKeyProvider`]).
pub trait KeyProvider: Send + Sync {
    /// Returns the 256-bit master key, generating and storing one when none
    /// exists yet, and the same key thereafter.
    fn get_or_create_master_key(&self) -> Result<[u8; 32], String>;
}

impl<P: KeyProvider + ?Sized> KeyProvider for Box<P> {
    /// The boxed provider's key.
    fn get_or_create_master_key(&self) -> (r: Result<[u8; 32], String>)
        ensures
            call_ensures(P::get_or_create_master_key, (&**self,), r),
    {
        (**self).get_or_create_master_key()
    }
}

/// The process's key provider: empty until [`init_provider`] installs one,
/// and never replaced afterwards.
pub struct ProviderSlot<P> {
    provider: Option<P>,
}

impl<P> View for ProviderSlot<P> {
    type V = Option<P>;

    closed spec fn view(&self) -> Option<P> {
        self.provider
    }
}

impl<P> ProviderSlot<P> {
    /// An empty slot.
    pub fn new() -> (s: Self)
        ensures
            s@ is None,
    {
        ProviderSlot { provider: None }
    }

    /// Whether a provider is installed.
    pub fn is_initialized(&self) -> (b: bool)
        ensures
            b == self@ is Some,
    {
        self.provider.is_some()
    }
}

/// `km` is a result that the installed provider's `get_or_create_master_key`
/// may return.
pub open spec fn provider_answer<P: KeyProvider>(slot: ProviderSlot<P>, km: Result<[u8; 32], String>) -> bool {
    &&& slot@ is Some
    &&& call_ensures(P::get_or_create_master_key, (&slot@->0,), km)
}

/// The message returned while no provider is installed.
pub open spec fn uninitialized_text() -> Seq<char> {
    "secure_store provider未初期化"@
}

/// Installs `provider` in `slot`. A slot that already holds a provider keeps it:
/// a second call has no effect.
pub fn init_provider<P: KeyProvider>(slot: &mut ProviderSlot<P>, provider: P)
    ensures
        old(slot)@ is Some ==> final(slot)@ == old(slot)@,
        old(slot)@ is None ==> final(slot)@ == Some(provider),
{
    if slot.provider.is_none() {
        slot.provider = Some(provider);
    }
}

/// The master key from the installed provider.
fn master_key<P: KeyProvider>(slot: &ProviderSlot<P>) -> (r: Result<[u8; 32], String>)
    ensures
        slot@ is None ==> (r matches Err(e) && e@ == uninitialized_text()),
        slot@ is Some ==> provider_answer(*slot, r),
{
    match &slot.provider {
        None => Err(message("secure_store provider未初期化")),
        Some(p) => p.get_or_create_master_key(),
    }
}

/// What [`encrypt_bytes`] may return: the uninitialized error while no provider
/// is installed; otherwise the provider's error, or what [`encrypt_with`] may
/// return for the key it answered.
pub open spec fn encrypt_bytes_outcome<P: KeyProvider>(slot: ProviderSlot<P>, plaintext: Seq<u8>, r: Result<Vec<u8>, String>) -> bool {
    &&& slot@ is None ==> (r matches Err(e) && e@ == uninitialized_text())
    &&& slot@ is Some ==> exists|km: Result<[u8; 32], String>| #[trigger] provider_answer(slot, km) && match km {
        Ok(k) => encrypt_outcome(k@, plaintext, r),
        Err(e) => r == Err::<Vec<u8>, String>(e),
    }
}

/// Encrypts `plaintext` with the installed provider's master key.
pub fn encrypt_bytes<P: KeyProvider>(slot: &ProviderSlot<P>, plaintext: &[u8]) -> (r: Result<Vec<u8>, String>)
    requires
        plaintext@.len() + TAG_LEN <= isize::MAX,
    ensures
        encrypt_bytes_outcome(*slot, plaintext@, r),
{
    let key = master_key(slot);
    match key {
        Ok(k) => encrypt_with(&k, plaintext),
        Err(e) => Err(e),
    }
}

/// What [`decrypt_bytes`] returns: the uninitialized error while no provider is
/// installed; otherwise the provider's error, or what [`decrypt_with`] returns
/// for the key it answered.
pub open spec fn decrypt_bytes_outcome<P: KeyProvider>(slot: ProviderSlot<P>, data: Seq<u8>, r: Result<Vec<u8>, String>) -> bool {
    &&& slot@ is None ==> (r matches Err(e) && e@ == uninitialized_text())
    &&& slot@ is Some ==> exists|km: Result<[u8; 32], String>| #[trigger] provider_answer(slot, km) && match km {
        Ok(k) => decrypt_outcome(k@, data, r),
        Err(e) => r == Err::<Vec<u8>, String>(e),
    }
}

/// Decrypts an envelope with the installed provider's master key.
pub fn decrypt_bytes<P: KeyProvider>(slot: &ProviderSlot<P>, data: &[u8]) -> (r: Result<Vec<u8>, String>)
    ensures
        decrypt_bytes_outcome(*slot, data@, r),
{
    let key = master_key(slot);
    match key {
        Ok(k) => decrypt_with(&k, data),
        Err(e) => Err(e),
    }
}

/// What [`decode_or_migrate`] returns for an envelope, given what the key
/// provider answered: the plaintext, not flagged, or the error.
pub open spec fn decode_outcome(km: Result<[u8; 32], String>, raw: Seq<u8>, r: Result<(Vec<u8>, bool), String>) -> bool {
    match km {
        Ok(k) => {
            &&& match open_frame(k@, raw) {
                Ok(p) => r matches Ok((v, was_plaintext)) && v@ == p && !was_plaintext,
                Err(fe) => r matches Err(e) && e@ == frame_error_text(fe),
            }
            &&& r matches Ok((v, _)) ==> raw.len() == v@.len() + HEADER_LEN + TAG_LEN
        },
        Err(e) => r == Err::<(Vec<u8>, bool), String>(e),
    }
}

/// What [`decode_or_migrate`] returns: data without the magic header comes back
/// as it is, flagged as plaintext; an envelope is opened with the installed
/// provider's key.
pub open spec fn decode_or_migrate_outcome<P: KeyProvider>(slot: ProviderSlot<P>, raw: Seq<u8>, r: Result<(Vec<u8>, bool), String>) -> bool {
    &&& !has_magic(raw) ==> (r matches Ok((v, was_plaintext)) && v@ == raw && was_plaintext)
    &&& has_magic(raw) && slot@ is None ==> (r matches Err(e) && e@ == uninitialized_text())
    &&& has_magic(raw) && slot@ is Some ==> exists|km: Result<[u8; 32], String>| #[trigger] provider_answer(slot, km) && decode_outcome(km, raw, r)
}

/// Turns a file's raw bytes into its content. Data with the magic header is
/// decrypted; anything else is taken as a file from before encryption existed
/// and returned as it is, flagged so that the caller stores it again encrypted.
/// Returns the content and whether it was plaintext.
pub fn decode_or_migrate<P: KeyProvider>(slot: &ProviderSlot<P>, raw: &[u8]) -> (r: Result<(Vec<u8>, bool), String>)
    ensures
        decode_or_migrate_outcome(*slot, raw@, r),
{
    if is_encrypted(raw) {
        match decrypt_bytes(slot, raw) {
            Ok(p) => Ok((p, false)),
            Err(e) => Err(e),
        }
    } else {
        Ok((vstd::slice::slice_to_vec(raw), true))
    }
}

/// What [`encrypt_if_plaintext`] may return: nothing to do for an envelope;
/// for anything else, what [`encrypt_bytes`] may return, as the envelope to
/// write back.
pub open spec fn migration_outcome<P: KeyProvider>(slot: ProviderSlot<P>, raw: Seq<u8>, r: Result<Option<Vec<u8>>, String>) -> bool {
    &&& has_magic(raw) ==> r == Ok::<Option<Vec<u8>>, String>(None)
    &&& !has_magic(raw) ==> match r {
        Ok(Some(out)) => encrypt_bytes_outcome(slot, raw, Ok(out)),
        Ok(None) => false,
        Err(e) => encrypt_bytes_outcome(slot, raw, Err(e)),
    }
}

/// The computing part of migrating one credential file: data that already has
/// the magic header is left alone (`None`); anything else is encrypted with the
/// installed provider's master key, and the envelope to write back is returned.
pub fn encrypt_if_plaintext<P: KeyProvider>(slot: &ProviderSlot<P>, raw: &[u8]) -> (r: Result<Option<Vec<u8>>, String>)
    requires
        raw@.len() + TAG_LEN <= isize::MAX,
    ensures
        migration_outcome(*slot, raw@, r),
{
    if is_encrypted(raw) {
        return Ok(None);
    }
    match encrypt_bytes(slot, raw) {
        Ok(out) => Ok(Some(out)),
        Err(e) => Err(e),
    }
}

/// Decrypting, with the same key, an envelope that [`encrypt_with`] made gives
/// the plaintext back.
pub proof fn law_decrypt_inverts_encrypt(key: Seq<u8>, plaintext: Seq<u8>, sealed: Vec<u8>, back: Result<Vec<u8>, String>)
    requires
        encrypt_outcome(key, plaintext, Ok(sealed)),
        decrypt_outcome(key, sealed@, back),
    ensures
        back matches Ok(p) && p@ == plaintext,
{
}

/// With a provider that always answers the same key, [`decode_or_migrate`]
/// gives back what [`encrypt_bytes`] sealed, not flagged as plaintext.
pub proof fn law_decode_or_migrate_reads_back<P: KeyProvider>(
    slot: ProviderSlot<P>,
    key: [u8; 32],
    plaintext: Seq<u8>,
    sealed: Vec<u8>,
    decoded: Result<(Vec<u8>, bool), String>,
)
    requires
        forall|km: Result<[u8; 32], String>| #[trigger] provider_answer(slot, km) ==> km == Ok::<[u8; 32], String>(key),
        encrypt_bytes_outcome(slot, plaintext, Ok(sealed)),
        decode_or_migrate_outcome(slot, sealed@, decoded),
    ensures
        decoded matches Ok((v, was_plaintext)) && v@ == plaintext && !was_plaintext,
{
    let km = choose|km: Result<[u8; 32], String>| #[trigger] provider_answer(slot, km) && match km {
        Ok(k) => encrypt_outcome(k@, plaintext, Ok(sealed)),
        Err(e) => Ok::<Vec<u8>, String>(sealed) == Err::<Vec<u8>, String>(e),
    };
    assert(km == Ok::<[u8; 32], String>(key));
    assert(has_magic(sealed@));
    let km2 = choose|km: Result<[u8; 32], String>| #[trigger] provider_answer(slot, km) && decode_outcome(km, sealed@, decoded);
    assert(km2 == Ok::<[u8; 32], String>(key));
}

/// Migration is one way: an envelope is left alone, and what migrating
/// plaintext produces is an envelope that a second migration leaves alone.
pub proof fn law_migration_is_one_way<P: KeyProvider>(
    slot: ProviderSlot<P>,
    raw: Seq<u8>,
    first: Result<Option<Vec<u8>>, String>,
    second: Result<Option<Vec<u8>>, String>,
)
    requires
        migration_outcome(slot, raw, first),
        first matches Ok(Some(out)) && migration_outcome(slot, out@, second),
    ensures
        second == Ok::<Option<Vec<u8>>, String>(None),
{
    let out = first->Ok_0->Some_0;
    if slot@ is Some {
        let km = choose|km: Result<[u8; 32], String>| #[trigger] provider_answer(slot, km) && match km {
            Ok(k) => encrypt_outcome(k@, raw, Ok(out)),
            Err(e) => Ok::<Vec<u8>, String>(out) == Err::<Vec<u8>, String>(e),
        };
        assert(has_magic(out@));
    }
}

} // verus!
