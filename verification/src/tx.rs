//! Storage transactions: their operations, their payload and their receipts.
pub mod ops;
pub mod receipt;

use vstd::prelude::*;

use crate::contract::{storage_address, storage_address_spec};
use crate::primitives::Address;
use crate::rlp::{RlpEncode, encode_list, encode_vec, extend_bytes, rlp_concat, rlp_list, rlp_vec};
use ops::{Chown, Delete, Extend};

verus! {

/// An RLP encodable storage transaction payload: the storage operations to be
/// executed on the network, by kind. `C` and `U` are the create and update
/// operations.
#[derive(Debug, Clone)]
pub struct StoragePayload<C, U> {
    /// The create operations.
    pub creates: Vec<C>,
    /// The update operations.
    pub updates: Vec<U>,
    /// The delete operations.
    pub deletes: Vec<Delete>,
    /// The extend operations.
    pub extensions: Vec<Extend>,
    /// The change-of-owner operations.
    pub transfers: Vec<Chown>,
}

impl<C, U> Default for StoragePayload<C, U> {
    /// A payload with no operations.
    fn default() -> (p: StoragePayload<C, U>)
        ensures
            p.creates@.len() == 0,
            p.updates@.len() == 0,
            p.deletes@.len() == 0,
            p.extensions@.len() == 0,
            p.transfers@.len() == 0,
    {
        StoragePayload {
            creates: Vec::new(),
            updates: Vec::new(),
            deletes: Vec::new(),
            extensions: Vec::new(),
            transfers: Vec::new(),
        }
    }
}

/// Updating the operations of a storage transaction payload, by kind.
pub trait PayloadBuilder {
    type Create;
    type Update;
    type Delete;
    type Extend;
    type Chown;

    /// The number of create operations.
    spec fn create_count(&self) -> nat;

    /// The number of update operations.
    spec fn update_count(&self) -> nat;

    /// The number of delete operations.
    spec fn delete_count(&self) -> nat;

    /// The number of extend operations.
    spec fn extend_count(&self) -> nat;

    /// The number of change-of-owner operations.
    spec fn chown_count(&self) -> nat;

    /// Whether the payload holds no operation.
    fn is_empty(&self) -> (r: bool)
        ensures
            r == (self.create_count() + self.update_count() + self.delete_count()
                + self.extend_count() + self.chown_count() == 0),
    ;

    /// The number of operations in the payload.
    fn len(&self) -> (r: usize)
        requires
            self.create_count() + self.update_count() + self.delete_count() + self.extend_count()
                + self.chown_count() <= usize::MAX,
        ensures
            r == self.create_count() + self.update_count() + self.delete_count()
                + self.extend_count() + self.chown_count(),
    ;

    /// Replace the create operations.
    fn with_creates(&mut self, creates: Vec<Self::Create>)
        ensures
            final(self).create_count() == creates@.len(),
            final(self).update_count() == old(self).update_count(),
            final(self).delete_count() == old(self).delete_count(),
            final(self).extend_count() == old(self).extend_count(),
            final(self).chown_count() == old(self).chown_count(),
    ;

    /// Replace the update operations.
    fn with_updates(&mut self, updates: Vec<Self::Update>)
        ensures
            final(self).create_count() == old(self).create_count(),
            final(self).update_count() == updates@.len(),
            final(self).delete_count() == old(self).delete_count(),
            final(self).extend_count() == old(self).extend_count(),
            final(self).chown_count() == old(self).chown_count(),
    ;

    /// Replace the delete operations.
    fn with_deletes(&mut self, deletes: Vec<Self::Delete>)
        ensures
            final(self).create_count() == old(self).create_count(),
            final(self).update_count() == old(self).update_count(),
            final(self).delete_count() == deletes@.len(),
            final(self).extend_count() == old(self).extend_count(),
            final(self).chown_count() == old(self).chown_count(),
    ;

    /// Replace the extend operations.
    fn with_extensions(&mut self, extensions: Vec<Self::Extend>)
        ensures
            final(self).create_count() == old(self).create_count(),
            final(self).update_count() == old(self).update_count(),
            final(self).delete_count() == old(self).delete_count(),
            final(self).extend_count() == extensions@.len(),
            final(self).chown_count() == old(self).chown_count(),
    ;

    /// Replace the change-of-owner operations.
    fn with_transfers(&mut self, transfers: Vec<Self::Chown>)
        ensures
            final(self).create_count() == old(self).create_count(),
            final(self).update_count() == old(self).update_count(),
            final(self).delete_count() == old(self).delete_count(),
            final(self).extend_count() == old(self).extend_count(),
            final(self).chown_count() == transfers@.len(),
    ;
}

/// The number of operations in a payload, of all kinds.
pub open spec fn op_count<P: PayloadBuilder + ?Sized>(p: &P) -> nat {
    p.create_count() + p.update_count() + p.delete_count() + p.extend_count() + p.chown_count()
}

impl<C, U> PayloadBuilder for StoragePayload<C, U> {
    type Create = C;
    type Update = U;
    type Delete = Delete;
    type Extend = Extend;
    type Chown = Chown;

    open spec fn create_count(&self) -> nat {
        self.creates@.len()
    }

    open spec fn update_count(&self) -> nat {
        self.updates@.len()
    }

    open spec fn delete_count(&self) -> nat {
        self.deletes@.len()
    }

    open spec fn extend_count(&self) -> nat {
        self.extensions@.len()
    }

    open spec fn chown_count(&self) -> nat {
        self.transfers@.len()
    }

    fn is_empty(&self) -> (r: bool) {
        self.creates.len() == 0 && self.updates.len() == 0 && self.deletes.len() == 0
            && self.extensions.len() == 0 && self.transfers.len() == 0
    }

    fn len(&self) -> (r: usize) {
        self.creates.len() + self.updates.len() + self.deletes.len() + self.extensions.len()
            + self.transfers.len()
    }

    fn with_creates(&mut self, creates: Vec<C>)
        ensures
            final(self).creates == creates,
            final(self).updates == old(self).updates,
            final(self).deletes == old(self).deletes,
            final(self).extensions == old(self).extensions,
            final(self).transfers == old(self).transfers,
    {
        self.creates = creates;
    }

    fn with_updates(&mut self, updates: Vec<U>)
        ensures
            final(self).creates == old(self).creates,
            final(self).updates == updates,
            final(self).deletes == old(self).deletes,
            final(self).extensions == old(self).extensions,
            final(self).transfers == old(self).transfers,
    {
        self.updates = updates;
    }

    fn with_deletes(&mut self, deletes: Vec<Delete>)
        ensures
            final(self).creates == old(self).creates,
            final(self).updates == old(self).updates,
            final(self).deletes == deletes,
            final(self).extensions == old(self).extensions,
            final(self).transfers == old(self).transfers,
    {
        self.deletes = deletes;
    }

    fn with_extensions(&mut self, extensions: Vec<Extend>)
        ensures
            final(self).creates == old(self).creates,
            final(self).updates == old(self).updates,
            final(self).deletes == old(self).deletes,
            final(self).extensions == extensions,
            final(self).transfers == old(self).transfers,
    {
        self.extensions = extensions;
    }

    fn with_transfers(&mut self, transfers: Vec<Chown>)
        ensures
            final(self).creates == old(self).creates,
            final(self).updates == old(self).updates,
            final(self).deletes == old(self).deletes,
            final(self).extensions == old(self).extensions,
            final(self).transfers == transfers,
    {
        self.transfers = transfers;
    }
}

/// A payload is empty (`is_empty`) exactly where its number of operations
/// (`len`) is zero, that is where each of its five lists is empty.
pub proof fn law_empty_iff_no_operations<C, U>(p: StoragePayload<C, U>)
    ensures
        (op_count(&p) == 0) <==> (p.creates@.len() == 0 && p.updates@.len() == 0
            && p.deletes@.len() == 0 && p.extensions@.len() == 0 && p.transfers@.len() == 0),
{
}

/// The RLP encoding of a payload: the list of its five lists of operations.
pub open spec fn payload_rlp<C: RlpEncode, U: RlpEncode>(p: StoragePayload<C, U>) -> Seq<u8> {
    rlp_list(
        rlp_vec(p.creates@) + rlp_vec(p.updates@) + rlp_vec(p.deletes@) + rlp_vec(p.extensions@)
            + rlp_vec(p.transfers@),
    )
}

/// An empty list of operations encodes as `0xc0`.
proof fn lemma_empty_list_rlp<T: RlpEncode>(items: Seq<T>)
    requires
        items.len() == 0,
    ensures
        rlp_vec(items) == seq![0xc0u8],
{
    assert(rlp_concat(items) =~= Seq::<u8>::empty());
    assert(crate::rlp::rlp_header(true, 0) =~= seq![0xc0u8]);
    assert(rlp_list(Seq::<u8>::empty()) =~= seq![0xc0u8]);
}

/// The five lists of a payload are encoded in the order creates, updates, deletes,
/// extensions, transfers: a payload whose operations are all of one kind encodes
/// as a list of five lists with that kind's list in its place and the other four
/// empty (`0xc0`). So an extend lands in the fourth list, never in the fifth,
/// where the node would read a change of owner.
pub proof fn law_payload_lists_in_field_order<C: RlpEncode, U: RlpEncode>(p: StoragePayload<C, U>)
    ensures
        p.updates@.len() == 0 && p.deletes@.len() == 0 && p.extensions@.len() == 0
            && p.transfers@.len() == 0 ==> payload_rlp(p) == rlp_list(
            rlp_vec(p.creates@) + seq![0xc0u8, 0xc0, 0xc0, 0xc0],
        ),
        p.creates@.len() == 0 && p.deletes@.len() == 0 && p.extensions@.len() == 0
            && p.transfers@.len() == 0 ==> payload_rlp(p) == rlp_list(
            seq![0xc0u8] + rlp_vec(p.updates@) + seq![0xc0u8, 0xc0, 0xc0],
        ),
        p.creates@.len() == 0 && p.updates@.len() == 0 && p.extensions@.len() == 0
            && p.transfers@.len() == 0 ==> payload_rlp(p) == rlp_list(
            seq![0xc0u8, 0xc0] + rlp_vec(p.deletes@) + seq![0xc0u8, 0xc0],
        ),
        p.creates@.len() == 0 && p.updates@.len() == 0 && p.deletes@.len() == 0
            && p.transfers@.len() == 0 ==> payload_rlp(p) == rlp_list(
            seq![0xc0u8, 0xc0, 0xc0] + rlp_vec(p.extensions@) + seq![0xc0u8],
        ),
        p.creates@.len() == 0 && p.updates@.len() == 0 && p.deletes@.len() == 0
            && p.extensions@.len() == 0 ==> payload_rlp(p) == rlp_list(
            seq![0xc0u8, 0xc0, 0xc0, 0xc0] + rlp_vec(p.transfers@),
        ),
{
    let e = seq![0xc0u8];
    if p.creates@.len() == 0 {
        lemma_empty_list_rlp(p.creates@);
    }
    if p.updates@.len() == 0 {
        lemma_empty_list_rlp(p.updates@);
    }
    if p.deletes@.len() == 0 {
        lemma_empty_list_rlp(p.deletes@);
    }
    if p.extensions@.len() == 0 {
        lemma_empty_list_rlp(p.extensions@);
    }
    if p.transfers@.len() == 0 {
        lemma_empty_list_rlp(p.transfers@);
    }
    let c = rlp_vec(p.creates@);
    let u = rlp_vec(p.updates@);
    let d = rlp_vec(p.deletes@);
    let x = rlp_vec(p.extensions@);
    let t = rlp_vec(p.transfers@);
    assert(e + e + e + e == seq![0xc0u8, 0xc0, 0xc0, 0xc0]);
    assert(e + e + e == seq![0xc0u8, 0xc0, 0xc0]);
    assert(e + e == seq![0xc0u8, 0xc0]);
    assert(c + e + e + e + e =~= c + seq![0xc0u8, 0xc0, 0xc0, 0xc0]);
    assert(e + u + e + e + e =~= seq![0xc0u8] + u + seq![0xc0u8, 0xc0, 0xc0]);
    assert(e + e + d + e + e =~= seq![0xc0u8, 0xc0] + d + seq![0xc0u8, 0xc0]);
    assert(e + e + e + x + e =~= seq![0xc0u8, 0xc0, 0xc0] + x + seq![0xc0u8]);
    assert(e + e + e + e + t =~= seq![0xc0u8, 0xc0, 0xc0, 0xc0] + t);
}

impl<C: RlpEncode, U: RlpEncode> StoragePayload<C, U> {
    /// RLP-encode the payload.
    pub fn encode(&self) -> (r: Vec<u8>)
        ensures
            r@ == payload_rlp(*self),
    {
        let mut body = encode_vec(&self.creates);
        extend_bytes(&mut body, &encode_vec(&self.updates));
        extend_bytes(&mut body, &encode_vec(&self.deletes));
        extend_bytes(&mut body, &encode_vec(&self.extensions));
        extend_bytes(&mut body, &encode_vec(&self.transfers));
        encode_list(&body)
    }
}

/// The Brotli compression of `data` with an internal buffer of `buffer_size`
/// bytes, quality `quality` and window `lgwin` bits.
pub uninterp spec fn brotli_compressed(data: Seq<u8>, buffer_size: usize, quality: u32, lgwin: u32) -> Seq<u8>;

/// The internal buffer size with which the payload is compressed.
pub const COMPRESSION_BUFFER_SIZE: usize = 4096;

/// The Brotli quality with which the payload is compressed.
pub const COMPRESSION_QUALITY: u32 = 5;

/// The Brotli window (in bits) with which the payload is compressed.
pub const COMPRESSION_WINDOW: u32 = 22;

/// Calls `brotli::CompressorWriter::new` with `buffer_size`, `quality` and `lgwin`
/// on an empty vector, writes `data` into it, flushes it and drops it, which
/// finishes the stream. The compressed bytes are named `brotli_compressed` here;
/// they depend on the data and the three settings alone. Writing into a vector
/// cannot fail.
#[verifier::external_body]
fn brotli_compress(data: &[u8], buffer_size: usize, quality: u32, lgwin: u32) -> (r: Vec<u8>)
    requires
        0 < buffer_size <= 65536,
        quality <= 11,
        10 <= lgwin <= 24,
    ensures
        r@ == brotli_compressed(data@, buffer_size, quality, lgwin),
{
    let mut compressed: Vec<u8> = Vec::with_capacity(data.len());
    let mut writer = brotli::CompressorWriter::new(&mut compressed, buffer_size, quality, lgwin);
    std::io::Write::write_all(&mut writer, data).expect("brotli compressor writer failed to write compressed data to the buffer");
    std::io::Write::flush(&mut writer).expect("failed to flush brotli compressor writer");
    drop(writer);
    compressed
}

/// A call to a contract: its address and its input.
#[derive(Debug, Clone)]
pub struct ContractCall {
    pub to: Address,
    pub input: Vec<u8>,
}

/// A storage transaction: a payload of storage operations, to be sent as a call
/// to the storage contract.
#[derive(Debug, Clone)]
pub struct StorageTransactionRequest<C, U> {
    payload: StoragePayload<C, U>,
}

impl<C, U> StorageTransactionRequest<C, U> {
    /// The payload of the transaction.
    pub closed spec fn payload_spec(&self) -> StoragePayload<C, U> {
        self.payload
    }

    /// A transaction with no operations.
    pub fn new() -> (t: StorageTransactionRequest<C, U>)
        ensures
            t.payload_spec().creates@.len() == 0,
            t.payload_spec().updates@.len() == 0,
            t.payload_spec().deletes@.len() == 0,
            t.payload_spec().extensions@.len() == 0,
            t.payload_spec().transfers@.len() == 0,
    {
        StorageTransactionRequest { payload: StoragePayload::default() }
    }

    /// Access the payload.
    pub fn payload(&self) -> (p: &StoragePayload<C, U>)
        ensures
            *p == self.payload_spec(),
    {
        &self.payload
    }

    /// Access the payload mutably.
    pub fn payload_mut(&mut self) -> (p: &mut StoragePayload<C, U>)
        ensures
            *p == old(self).payload_spec(),
            final(self).payload_spec() == *final(p),
    {
        &mut self.payload
    }

    /// Add a list of create operations, in place of any before.
    pub fn create_entities(self, creates: Vec<C>) -> (t: StorageTransactionRequest<C, U>)
        ensures
            t.payload_spec() == (StoragePayload { creates, ..self.payload_spec() }),
    {
        let mut t = self;
        t.payload.with_creates(creates);
        t
    }

    /// Add a list of update operations, in place of any before.
    pub fn update_entities(self, updates: Vec<U>) -> (t: StorageTransactionRequest<C, U>)
        ensures
            t.payload_spec() == (StoragePayload { updates, ..self.payload_spec() }),
    {
        let mut t = self;
        t.payload.with_updates(updates);
        t
    }

    /// Add a list of delete operations, in place of any before.
    pub fn delete_entities(self, deletes: Vec<Delete>) -> (t: StorageTransactionRequest<C, U>)
        ensures
            t.payload_spec() == (StoragePayload { deletes, ..self.payload_spec() }),
    {
        let mut t = self;
        t.payload.with_deletes(deletes);
        t
    }

    /// Add a list of extend operations, in place of any before.
    pub fn extend_entities(self, extensions: Vec<Extend>) -> (t: StorageTransactionRequest<C, U>)
        ensures
            t.payload_spec() == (StoragePayload { extensions, ..self.payload_spec() }),
    {
        let mut t = self;
        t.payload.with_extensions(extensions);
        t
    }

    /// Add a list of change-of-owner operations, in place of any before.
    pub fn transfer_entities(self, transfers: Vec<Chown>) -> (t: StorageTransactionRequest<C, U>)
        ensures
            t.payload_spec() == (StoragePayload { transfers, ..self.payload_spec() }),
    {
        let mut t = self;
        t.payload.with_transfers(transfers);
        t
    }
}

impl<C, U> Default for StorageTransactionRequest<C, U> {
    /// A transaction with no operations.
    fn default() -> (t: StorageTransactionRequest<C, U>)
        ensures
            t.payload_spec().creates@.len() == 0,
            t.payload_spec().updates@.len() == 0,
            t.payload_spec().deletes@.len() == 0,
            t.payload_spec().extensions@.len() == 0,
            t.payload_spec().transfers@.len() == 0,
    {
        Self::new()
    }
}

impl<C: RlpEncode, U: RlpEncode> StorageTransactionRequest<C, U> {
    /// Encode and compress the payload into the input of a call to the storage contract.
    pub fn into_request(self) -> (call: ContractCall)
        ensures
            call.to@ == storage_address_spec(),
            call.input@ == brotli_compressed(
                payload_rlp(self.payload_spec()),
                COMPRESSION_BUFFER_SIZE,
                COMPRESSION_QUALITY,
                COMPRESSION_WINDOW,
            ),
    {
        let encoded = self.payload.encode();
        let compressed = brotli_compress(
            encoded.as_slice(),
            COMPRESSION_BUFFER_SIZE,
            COMPRESSION_QUALITY,
            COMPRESSION_WINDOW,
        );
        ContractCall { to: storage_address(), input: compressed }
    }
}

} // verus!
