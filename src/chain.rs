use vstd::prelude::*;
use crate::exclusion::{with_added, FundingExclusion, TxHash};

verus! {

/// What BLAKE2b-256, with the chain's personalization, gives for these bytes.
pub uninterp spec fn blake2b_256_of(data: Seq<u8>) -> Seq<u8>;

/// The compressed secp256k1 public key that belongs to this secret key.
pub uninterp spec fn public_key_of(secret: Seq<u8>) -> Seq<u8>;

/// Order of the secp256k1 group, written as its high and low 128 bits.
pub open spec fn secp256k1_order() -> int {
    0xFFFFFFFFFFFFFFFFFFFFFFFFFFFFFFFEint * 0x10000000000000000int * 0x10000000000000000int
        + 0xBAAEDCE6AF48A03BBFD25E8CD0364141int
}

/// The bytes read as a big-endian number.
pub open spec fn be_value(s: Seq<u8>) -> nat
    decreases s.len(),
{
    if s.len() == 0 {
        0
    } else {
        be_value(s.drop_last()) * 256 + s.last() as nat
    }
}

/// The bytes are a secp256k1 secret key: read big-endian, they are neither
/// zero nor at or above the group order.
pub open spec fn valid_secret_key(s: Seq<u8>) -> bool {
    0 < be_value(s) < secp256k1_order()
}

/// Relies on ckb_hash::blake2b_256: the 32-byte digest of the bytes, which
/// depends on the bytes alone.
#[verifier::external_body]
fn blake2b_256(data: &[u8]) -> (r: [u8; 32])
    ensures
        r@ == blake2b_256_of(data@),
{
    ckb_hash::blake2b_256(data)
}

/// Relies on secp256k1's SecretKey::from_secret_bytes, which refuses exactly
/// the all-zero bytes and those at or above the group order, and on SecretKey::public_key with
/// PublicKey::serialize, which give the 33-byte compressed public key.
#[verifier::external_body]
fn compressed_public_key(secret: [u8; 32]) -> (r: Option<[u8; 33]>)
    ensures
        r is Some <==> valid_secret_key(secret@),
        r matches Some(p) ==> p@ == public_key_of(secret@),
{
    secp256k1::SecretKey::from_secret_bytes(secret).ok().map(|k| k.public_key().serialize())
}

/// How a script's code hash is matched against cells.
#[derive(Clone, Copy, Debug, PartialEq, Eq, Structural)]
pub enum ScriptHashType {
    Data,
    Type,
    Data1,
    Data2,
}

/// A lock script: the code it runs and the arguments handed to it.
#[derive(Clone, Debug)]
pub struct Script {
    pub code_hash: [u8; 32],
    pub hash_type: ScriptHashType,
    pub args: Vec<u8>,
}

impl View for Script {
    type V = (Seq<u8>, ScriptHashType, Seq<u8>);

    open spec fn view(&self) -> (Seq<u8>, ScriptHashType, Seq<u8>) {
        (self.code_hash@, self.hash_type, self.args@)
    }
}

fn copy_bytes(v: &Vec<u8>) -> (r: Vec<u8>)
    ensures
        r@ == v@,
{
    let r = v.clone();
    assert(r@ =~= v@);
    r
}

impl Script {
    pub fn duplicate(&self) -> (r: Script)
        ensures
            r@ == self@,
    {
        Script { code_hash: self.code_hash, hash_type: self.hash_type, args: copy_bytes(&self.args) }
    }
}

/// What the actor is started with.
#[derive(Clone, Debug)]
pub struct CkbConfig {
    /// The chain's RPC endpoint.
    pub rpc_url: String,
    /// Code hash of the secp256k1 signature lock, matched by type.
    pub sighash_code_hash: [u8; 32],
}

/// The lock arguments that a public key's signature lock takes: the first
/// twenty bytes of the key's hash.
pub open spec fn lock_args_of(public_key: Seq<u8>) -> Seq<u8> {
    blake2b_256_of(public_key).take(20)
}

/// The signature lock's arguments, given the digest of the public key.
pub fn lock_args_from_digest(digest: &[u8; 32]) -> (r: Vec<u8>)
    ensures
        r@ == digest@.take(20),
{
    let mut args: Vec<u8> = Vec::new();
    let mut i: usize = 0;
    while i < 20
        invariant
            i <= 20,
            digest@.len() == 32,
            args@ == digest@.take(i as int),
        decreases 20 - i,
    {
        args.push(digest[i]);
        assert(digest@.take(i + 1) =~= digest@.take(i as int).push(digest@[i as int]));
        i = i + 1;
    }
    args
}

/// What the construction of a funding transaction is handed.
#[derive(Clone, Debug)]
pub struct FundingContext {
    pub secret_key: [u8; 32],
    pub rpc_url: String,
    pub funding_source_lock_script: Script,
    pub funding_cell_lock_script: Script,
}

/// The actor's own state.
#[derive(Clone, Debug)]
pub struct CkbChainState {
    pub config: CkbConfig,
    pub secret_key: [u8; 32],
    pub funding_source_lock_script: Script,
    pub funding_exclusion: FundingExclusion,
}

impl CkbChainState {
    pub open spec fn wf(&self) -> bool {
        self.funding_exclusion.wf()
    }

    /// The state of a freshly started actor, given the 33-byte compressed
    /// public key of `secret_key`: funds come from that key's signature lock.
    pub fn with_public_key(config: CkbConfig, secret_key: [u8; 32], public_key: [u8; 33]) -> (r:
        Self)
        ensures
            r.wf(),
            r.config == config,
            r.secret_key == secret_key,
            r.funding_source_lock_script@ == (
                config.sighash_code_hash@,
                ScriptHashType::Type,
                lock_args_of(public_key@),
            ),
            r.funding_source_lock_script.args@.len() == 20,
            r.funding_exclusion@ == Set::<Seq<u8>>::empty(),
    {
        let digest = blake2b_256(&public_key);
        let args = lock_args_from_digest(&digest);
        let script = Script {
            code_hash: config.sighash_code_hash,
            hash_type: ScriptHashType::Type,
            args,
        };
        CkbChainState {
            config,
            secret_key,
            funding_source_lock_script: script,
            funding_exclusion: FundingExclusion::new(),
        }
    }

    /// Starts the actor's state from a secret key; `None` exactly where the
    /// bytes are no valid secp256k1 secret key.
    pub fn new(config: CkbConfig, secret_key: [u8; 32]) -> (r: Option<Self>)
        ensures
            r is Some <==> valid_secret_key(secret_key@),
            r matches Some(s) ==> {
                &&& s.wf()
                &&& s.config == config
                &&& s.secret_key == secret_key
                &&& s.funding_source_lock_script@ == (
                    config.sighash_code_hash@,
                    ScriptHashType::Type,
                    lock_args_of(public_key_of(secret_key@)),
                )
                &&& s.funding_source_lock_script.args@.len() == 20
                &&& s.funding_exclusion@ == Set::<Seq<u8>>::empty()
            },
    {
        match compressed_public_key(secret_key) {
            Some(public_key) => Some(CkbChainState::with_public_key(config, secret_key, public_key)),
            None => None,
        }
    }

    /// The context for building a funding transaction whose funding cell is
    /// locked by `funding_cell_lock_script`.
    pub fn build_funding_context(&self, funding_cell_lock_script: &Script) -> (r: FundingContext)
        ensures
            r.secret_key == self.secret_key,
            r.rpc_url@ == self.config.rpc_url@,
            r.funding_source_lock_script@ == self.funding_source_lock_script@,
            r.funding_cell_lock_script@ == funding_cell_lock_script@,
    {
        FundingContext {
            secret_key: self.secret_key,
            rpc_url: self.config.rpc_url.clone(),
            funding_source_lock_script: self.funding_source_lock_script.duplicate(),
            funding_cell_lock_script: funding_cell_lock_script.duplicate(),
        }
    }

    /// Puts the hashes of transactions now in flight into the exclusion set.
    pub fn add_txs(&mut self, tx_hashes: &Vec<TxHash>)
        requires
            old(self).wf(),
        ensures
            final(self).wf(),
            final(self).funding_exclusion@ == with_added(old(self).funding_exclusion@, tx_hashes@),
            final(self).config == old(self).config,
            final(self).secret_key == old(self).secret_key,
            final(self).funding_source_lock_script == old(self).funding_source_lock_script,
    {
        self.funding_exclusion.add_txs(tx_hashes);
    }

    /// Takes a transaction's hash out of the exclusion set.
    pub fn remove_tx(&mut self, tx_hash: &TxHash)
        requires
            old(self).wf(),
        ensures
            final(self).wf(),
            final(self).funding_exclusion@ == old(self).funding_exclusion@.remove(tx_hash@),
            final(self).config == old(self).config,
            final(self).secret_key == old(self).secret_key,
            final(self).funding_source_lock_script == old(self).funding_source_lock_script,
    {
        self.funding_exclusion.remove(tx_hash);
    }
}

} // verus!
