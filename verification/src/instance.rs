use vstd::prelude::*;
use crate::codec::{hex_decoded, is_hex_str, parse_address, parse_hash};
use crate::error::ProofError;

verus! {

/// The untrusted textual block meta-data carried by a proof request.
///
/// Hash and address fields are hexadecimal text; they stay text until the
/// binder decodes them into the fixed-width public-input structure.
#[derive(Clone, Debug)]
pub struct RequestMetaData {
    /// Block number being proved.
    pub id: u64,
    /// Block timestamp.
    pub timestamp: u64,
    /// Height of the anchoring L1 block.
    pub l1_height: u64,
    /// Hash of the anchoring L1 block (hexadecimal text).
    pub l1_hash: String,
    /// Mix hash of the anchoring L1 block (hexadecimal text).
    pub l1_mix_hash: String,
    /// Digest of processed deposits (hexadecimal text).
    pub deposits_processed: String,
    /// Hash of the transaction list (hexadecimal text).
    pub tx_list_hash: String,
    /// First byte of the transaction-list range.
    pub tx_list_byte_start: u32,
    /// One past the last byte of the transaction-list range.
    pub tx_list_byte_end: u32,
    /// Gas limit of the block.
    pub gas_limit: u32,
    /// Block beneficiary address (hexadecimal text).
    pub beneficiary: String,
    /// Treasury address (hexadecimal text).
    pub treasury: String,
}

/// Field-by-field equality of block meta-data.
pub open spec fn meta_data_eq(a: RequestMetaData, b: RequestMetaData) -> bool {
    &&& a.id == b.id
    &&& a.timestamp == b.timestamp
    &&& a.l1_height == b.l1_height
    &&& a.l1_hash@ == b.l1_hash@
    &&& a.l1_mix_hash@ == b.l1_mix_hash@
    &&& a.deposits_processed@ == b.deposits_processed@
    &&& a.tx_list_hash@ == b.tx_list_hash@
    &&& a.tx_list_byte_start == b.tx_list_byte_start
    &&& a.tx_list_byte_end == b.tx_list_byte_end
    &&& a.gas_limit == b.gas_limit
    &&& a.beneficiary@ == b.beneficiary@
    &&& a.treasury@ == b.treasury@
}

impl PartialEq for RequestMetaData {
    fn eq(&self, other: &Self) -> (r: bool) {
        self.id == other.id && self.timestamp == other.timestamp && self.l1_height
            == other.l1_height && self.l1_hash == other.l1_hash && self.l1_mix_hash
            == other.l1_mix_hash && self.deposits_processed == other.deposits_processed
            && self.tx_list_hash == other.tx_list_hash && self.tx_list_byte_start
            == other.tx_list_byte_start && self.tx_list_byte_end == other.tx_list_byte_end
            && self.gas_limit == other.gas_limit && self.beneficiary == other.beneficiary
            && self.treasury == other.treasury
    }
}

impl vstd::std_specs::cmp::PartialEqSpecImpl for RequestMetaData {
    open spec fn obeys_eq_spec() -> bool {
        true
    }

    open spec fn eq_spec(&self, other: &Self) -> bool {
        meta_data_eq(*self, *other)
    }
}

impl Default for RequestMetaData {
    /// All-zero, all-empty meta-data.
    fn default() -> (r: RequestMetaData)
        ensures
            r.id == 0,
            r.timestamp == 0,
            r.l1_height == 0,
            r.l1_hash@ == Seq::<char>::empty(),
            r.l1_mix_hash@ == Seq::<char>::empty(),
            r.deposits_processed@ == Seq::<char>::empty(),
            r.tx_list_hash@ == Seq::<char>::empty(),
            r.tx_list_byte_start == 0,
            r.tx_list_byte_end == 0,
            r.gas_limit == 0,
            r.beneficiary@ == Seq::<char>::empty(),
            r.treasury@ == Seq::<char>::empty(),
    {
        RequestMetaData {
            id: 0,
            timestamp: 0,
            l1_height: 0,
            l1_hash: String::new(),
            l1_mix_hash: String::new(),
            deposits_processed: String::new(),
            tx_list_hash: String::new(),
            tx_list_byte_start: 0,
            tx_list_byte_end: 0,
            gas_limit: 0,
            beneficiary: String::new(),
            treasury: String::new(),
        }
    }
}

/// The untrusted request-side evidence for a block, corresponding to the
/// cryptographic public-input structure it is later decoded into.
#[derive(Clone, Debug)]
pub struct RequestExtraInstance {
    /// L1 signal service address (hexadecimal text).
    pub l1_signal_service: String,
    /// L2 signal service address (hexadecimal text).
    pub l2_signal_service: String,
    /// L2 rollup contract address (hexadecimal text).
    pub l2_contract: String,
    /// Block meta-data.
    pub meta_data: RequestMetaData,
    /// Hash of the proved block (hexadecimal text).
    pub block_hash: String,
    /// Hash of the parent block (hexadecimal text).
    pub parent_hash: String,
    /// Signal root (hexadecimal text).
    pub signal_root: String,
    /// Free-form 32-byte message (hexadecimal text).
    pub graffiti: String,
    /// Address of the proving party (hexadecimal text).
    pub prover: String,
    /// Gas used by the block.
    pub gas_used: u32,
    /// Gas used by the parent block.
    pub parent_gas_used: u32,
    /// Largest gas a block may use.
    pub block_max_gas_limit: u64,
    /// Largest number of transactions a block may carry.
    pub max_transactions_per_block: u64,
    /// Largest byte size of a transaction list.
    pub max_bytes_per_tx_list: u64,
    /// Gas limit reserved for the anchor transaction. Deliberately left out
    /// of the equality relation: it does not affect the bound public inputs.
    pub anchor_gas_limit: u64,
}

/// Equality over the fields that determine what is actually proved: two
/// instances equal under this relation are the same proving task.
/// `anchor_gas_limit` is excluded.
pub open spec fn extra_instance_eq(a: RequestExtraInstance, b: RequestExtraInstance) -> bool {
    &&& a.l1_signal_service@ == b.l1_signal_service@
    &&& a.l2_signal_service@ == b.l2_signal_service@
    &&& a.l2_contract@ == b.l2_contract@
    &&& meta_data_eq(a.meta_data, b.meta_data)
    &&& a.block_hash@ == b.block_hash@
    &&& a.parent_hash@ == b.parent_hash@
    &&& a.signal_root@ == b.signal_root@
    &&& a.graffiti@ == b.graffiti@
    &&& a.prover@ == b.prover@
    &&& a.gas_used == b.gas_used
    &&& a.parent_gas_used == b.parent_gas_used
    &&& a.block_max_gas_limit == b.block_max_gas_limit
    &&& a.max_transactions_per_block == b.max_transactions_per_block
    &&& a.max_bytes_per_tx_list == b.max_bytes_per_tx_list
}

impl PartialEq for RequestExtraInstance {
    fn eq(&self, other: &Self) -> (r: bool) {
        self.l1_signal_service == other.l1_signal_service && self.l2_signal_service
            == other.l2_signal_service && self.l2_contract == other.l2_contract && self.meta_data
            == other.meta_data && self.block_hash == other.block_hash && self.parent_hash
            == other.parent_hash && self.signal_root == other.signal_root && self.graffiti
            == other.graffiti && self.prover == other.prover && self.gas_used == other.gas_used
            && self.parent_gas_used == other.parent_gas_used && self.block_max_gas_limit
            == other.block_max_gas_limit && self.max_transactions_per_block
            == other.max_transactions_per_block && self.max_bytes_per_tx_list
            == other.max_bytes_per_tx_list
    }
}

impl vstd::std_specs::cmp::PartialEqSpecImpl for RequestExtraInstance {
    open spec fn obeys_eq_spec() -> bool {
        true
    }

    open spec fn eq_spec(&self, other: &Self) -> bool {
        extra_instance_eq(*self, *other)
    }
}

impl Default for RequestExtraInstance {
    /// All-zero, all-empty request evidence.
    fn default() -> (r: RequestExtraInstance)
        ensures
            r.l1_signal_service@ == Seq::<char>::empty(),
            r.l2_signal_service@ == Seq::<char>::empty(),
            r.l2_contract@ == Seq::<char>::empty(),
            r.meta_data.id == 0,
            r.meta_data.timestamp == 0,
            r.meta_data.l1_height == 0,
            r.meta_data.l1_hash@ == Seq::<char>::empty(),
            r.meta_data.l1_mix_hash@ == Seq::<char>::empty(),
            r.meta_data.deposits_processed@ == Seq::<char>::empty(),
            r.meta_data.tx_list_hash@ == Seq::<char>::empty(),
            r.meta_data.tx_list_byte_start == 0,
            r.meta_data.tx_list_byte_end == 0,
            r.meta_data.gas_limit == 0,
            r.meta_data.beneficiary@ == Seq::<char>::empty(),
            r.meta_data.treasury@ == Seq::<char>::empty(),
            r.block_hash@ == Seq::<char>::empty(),
            r.parent_hash@ == Seq::<char>::empty(),
            r.signal_root@ == Seq::<char>::empty(),
            r.graffiti@ == Seq::<char>::empty(),
            r.prover@ == Seq::<char>::empty(),
            r.gas_used == 0,
            r.parent_gas_used == 0,
            r.block_max_gas_limit == 0,
            r.max_transactions_per_block == 0,
            r.max_bytes_per_tx_list == 0,
            r.anchor_gas_limit == 0,
    {
        RequestExtraInstance {
            l1_signal_service: String::new(),
            l2_signal_service: String::new(),
            l2_contract: String::new(),
            meta_data: RequestMetaData::default(),
            block_hash: String::new(),
            parent_hash: String::new(),
            signal_root: String::new(),
            graffiti: String::new(),
            prover: String::new(),
            gas_used: 0,
            parent_gas_used: 0,
            block_max_gas_limit: 0,
            max_transactions_per_block: 0,
            max_bytes_per_tx_list: 0,
            anchor_gas_limit: 0,
        }
    }
}

/// Decoded block meta-data inside the public-input structure: every field is
/// a fixed-width value.
#[derive(Clone, Debug)]
pub struct BlockMetadata {
    /// Hash of the anchoring L1 block, 32 bytes.
    pub l1_hash: Vec<u8>,
    /// Hash of the transaction list, 32 bytes.
    pub tx_list_hash: Vec<u8>,
    /// Block number.
    pub id: u64,
    /// Block timestamp.
    pub timestamp: u64,
    /// Height of the anchoring L1 block.
    pub l1_height: u64,
    /// Gas limit of the block.
    pub gas_limit: u32,
    /// Block coinbase address, 20 bytes.
    pub coinbase: Vec<u8>,
}

/// Decoded block evidence inside the public-input structure.
#[derive(Clone, Debug)]
pub struct BlockEvidence {
    /// Decoded meta-data.
    pub block_metadata: BlockMetadata,
    /// Hash of the parent block, 32 bytes.
    pub parent_hash: Vec<u8>,
    /// Hash of the proved block, 32 bytes.
    pub block_hash: Vec<u8>,
    /// Signal root, 32 bytes.
    pub signal_root: Vec<u8>,
    /// Free-form 32-byte message.
    pub graffiti: Vec<u8>,
}

/// The fixed-width cryptographic public-input structure for a block: the
/// values a proof is bound to. Built only by decoding a
/// [`RequestExtraInstance`]; malformed text fails the decoding, it is never
/// replaced by a default value.
///
/// Only the fields here are cryptographically constrained. The remaining
/// request fields — signal service and contract addresses, the L1 mix hash,
/// the deposits digest, the transaction-list byte range, the treasury
/// address, the gas figures and the capacity hints — are carried for
/// bookkeeping and deduplication only and must never be trusted by a
/// verifier.
#[derive(Clone, Debug)]
pub struct ProtocolInstance {
    /// Decoded block evidence.
    pub block_evidence: BlockEvidence,
    /// Address of the proving party, 20 bytes.
    pub prover: Vec<u8>,
}

impl ProtocolInstance {
    /// Every bound field has its fixed width: 32 bytes for hashes, 20 for
    /// addresses.
    pub open spec fn well_formed(self) -> bool {
        &&& self.block_evidence.block_metadata.l1_hash@.len() == 32
        &&& self.block_evidence.block_metadata.tx_list_hash@.len() == 32
        &&& self.block_evidence.block_metadata.coinbase@.len() == 20
        &&& self.block_evidence.parent_hash@.len() == 32
        &&& self.block_evidence.block_hash@.len() == 32
        &&& self.block_evidence.signal_root@.len() == 32
        &&& self.block_evidence.graffiti@.len() == 32
        &&& self.prover@.len() == 20
    }
}

/// Whether every request field that is bound into the public inputs holds
/// well-formed hexadecimal text of the right width: 64 digits for a hash,
/// 40 for an address.
pub open spec fn request_decodes(req: RequestExtraInstance) -> bool {
    &&& is_hex_str(req.meta_data.l1_hash@) && req.meta_data.l1_hash@.len() == 64
    &&& is_hex_str(req.meta_data.tx_list_hash@) && req.meta_data.tx_list_hash@.len() == 64
    &&& is_hex_str(req.meta_data.beneficiary@) && req.meta_data.beneficiary@.len() == 40
    &&& is_hex_str(req.parent_hash@) && req.parent_hash@.len() == 64
    &&& is_hex_str(req.block_hash@) && req.block_hash@.len() == 64
    &&& is_hex_str(req.signal_root@) && req.signal_root@.len() == 64
    &&& is_hex_str(req.graffiti@) && req.graffiti@.len() == 64
    &&& is_hex_str(req.prover@) && req.prover@.len() == 40
}

impl ProtocolInstance {
    /// The instance holds exactly the decoding of the request's bound
    /// fields.
    pub open spec fn bound_to(self, req: RequestExtraInstance) -> bool {
        &&& self.block_evidence.block_metadata.l1_hash@ == hex_decoded(req.meta_data.l1_hash@)
        &&& self.block_evidence.block_metadata.tx_list_hash@ == hex_decoded(
            req.meta_data.tx_list_hash@,
        )
        &&& self.block_evidence.block_metadata.id == req.meta_data.id
        &&& self.block_evidence.block_metadata.timestamp == req.meta_data.timestamp
        &&& self.block_evidence.block_metadata.l1_height == req.meta_data.l1_height
        &&& self.block_evidence.block_metadata.gas_limit == req.meta_data.gas_limit
        &&& self.block_evidence.block_metadata.coinbase@ == hex_decoded(req.meta_data.beneficiary@)
        &&& self.block_evidence.parent_hash@ == hex_decoded(req.parent_hash@)
        &&& self.block_evidence.block_hash@ == hex_decoded(req.block_hash@)
        &&& self.block_evidence.signal_root@ == hex_decoded(req.signal_root@)
        &&& self.block_evidence.graffiti@ == hex_decoded(req.graffiti@)
        &&& self.prover@ == hex_decoded(req.prover@)
    }

    /// Decodes a request's textual evidence into the public-input structure.
    ///
    /// Succeeds exactly when every bound field is well-formed hexadecimal
    /// text of its fixed width; the first malformed field fails the whole
    /// binding with an invalid-input error, and no default value ever
    /// stands in for a field.
    pub fn from_request(req: &RequestExtraInstance) -> (r: Result<ProtocolInstance, ProofError>)
        ensures
            r is Ok <==> request_decodes(*req),
            r matches Ok(p) ==> p.bound_to(*req) && p.well_formed(),
            r matches Err(e) ==> e == ProofError::InvalidInput,
    {
        let l1_hash = match parse_hash(req.meta_data.l1_hash.as_str()) {
            Ok(v) => v,
            Err(e) => { return Err(e); },
        };
        let tx_list_hash = match parse_hash(req.meta_data.tx_list_hash.as_str()) {
            Ok(v) => v,
            Err(e) => { return Err(e); },
        };
        let coinbase = match parse_address(req.meta_data.beneficiary.as_str()) {
            Ok(v) => v,
            Err(e) => { return Err(e); },
        };
        let parent_hash = match parse_hash(req.parent_hash.as_str()) {
            Ok(v) => v,
            Err(e) => { return Err(e); },
        };
        let block_hash = match parse_hash(req.block_hash.as_str()) {
            Ok(v) => v,
            Err(e) => { return Err(e); },
        };
        let signal_root = match parse_hash(req.signal_root.as_str()) {
            Ok(v) => v,
            Err(e) => { return Err(e); },
        };
        let graffiti = match parse_hash(req.graffiti.as_str()) {
            Ok(v) => v,
            Err(e) => { return Err(e); },
        };
        let prover = match parse_address(req.prover.as_str()) {
            Ok(v) => v,
            Err(e) => { return Err(e); },
        };
        Ok(
            ProtocolInstance {
                block_evidence: BlockEvidence {
                    block_metadata: BlockMetadata {
                        l1_hash,
                        tx_list_hash,
                        id: req.meta_data.id,
                        timestamp: req.meta_data.timestamp,
                        l1_height: req.meta_data.l1_height,
                        gas_limit: req.meta_data.gas_limit,
                        coinbase,
                    },
                    parent_hash,
                    block_hash,
                    signal_root,
                    graffiti,
                },
                prover,
            },
        )
    }
}

} // verus!
