//! Receipts of storage transactions.
pub mod chown;
pub mod create;
pub mod delete;
pub mod extend;
pub mod update;

pub use chown::ChownReceipt;
pub use create::CreateReceipt;
pub use delete::DeleteReceipt;
pub use extend::ExtendReceipt;
pub use update::UpdateReceipt;

use vstd::prelude::*;

use crate::abi::{LogData, word_views};
use crate::contract::{
    ArkivAbiEvent, ArkivAbiSignatures, ContractError, abi_decode_error, arkiv_abi_decodes_as,
    arkiv_signatures, law_btl_extended_fields_in_declared_order, decode_arkiv_abi_event, lemma_decode_error, signatures_view,
};
use crate::primitives::Word;

verus! {

/// A transaction receipt as the node reports it: whether the transaction
/// succeeded, its hash, and the logs it emitted.
#[derive(Debug, Clone)]
pub struct RawTransactionReceipt {
    pub status: bool,
    pub transaction_hash: Word,
    pub logs: Vec<LogData>,
}

/// What a storage transaction did, one receipt per operation.
#[derive(Debug)]
pub struct TransactionReceipt {
    pub created: Vec<CreateReceipt>,
    pub updated: Vec<UpdateReceipt>,
    pub deleted: Vec<DeleteReceipt>,
    pub extended: Vec<ExtendReceipt>,
    pub transferred: Vec<ChownReceipt>,
}

/// The topics of a log, as byte sequences.
pub open spec fn log_topics(l: LogData) -> Seq<Seq<u8>> {
    word_views(l.topics@)
}

/// The error that decoding the first failing log of `logs` gives, if any fails.
pub open spec fn first_decode_error(logs: Seq<LogData>, sigs: Seq<Seq<u8>>) -> Option<crate::abi::AbiError>
    decreases logs.len(),
{
    if logs.len() == 0 {
        None
    } else {
        match abi_decode_error(log_topics(logs[0]), logs[0].data@, sigs) {
            Some(e) => Some(e),
            None => first_decode_error(logs.drop_first(), sigs),
        }
    }
}

/// The receipts of the entities that `events` created, in order.
pub open spec fn created_of(events: Seq<ArkivAbiEvent>) -> Seq<CreateReceipt>
    decreases events.len(),
{
    if events.len() == 0 {
        seq![]
    } else {
        let rest = created_of(events.drop_last());
        match events.last() {
            ArkivAbiEvent::ArkivEntityCreated(d) => rest.push(create::create_receipt_of(d)),
            _ => rest,
        }
    }
}

/// The receipts of the entities that `events` updated, in order.
pub open spec fn updated_of(events: Seq<ArkivAbiEvent>) -> Seq<UpdateReceipt>
    decreases events.len(),
{
    if events.len() == 0 {
        seq![]
    } else {
        let rest = updated_of(events.drop_last());
        match events.last() {
            ArkivAbiEvent::ArkivEntityUpdated(d) => rest.push(update::update_receipt_of(d)),
            _ => rest,
        }
    }
}

/// The receipts of the entities that `events` deleted, in order.
pub open spec fn deleted_of(events: Seq<ArkivAbiEvent>) -> Seq<DeleteReceipt>
    decreases events.len(),
{
    if events.len() == 0 {
        seq![]
    } else {
        let rest = deleted_of(events.drop_last());
        match events.last() {
            ArkivAbiEvent::ArkivEntityDeleted(d) => rest.push(delete::delete_receipt_of(d)),
            _ => rest,
        }
    }
}

/// The receipts of the entities whose BTL `events` extended, in order.
pub open spec fn extended_of(events: Seq<ArkivAbiEvent>) -> Seq<ExtendReceipt>
    decreases events.len(),
{
    if events.len() == 0 {
        seq![]
    } else {
        let rest = extended_of(events.drop_last());
        match events.last() {
            ArkivAbiEvent::ArkivEntityBTLExtended(d) => rest.push(extend::extend_receipt_of(d)),
            _ => rest,
        }
    }
}

/// The receipts of the entities whose owner `events` changed, in order.
pub open spec fn transferred_of(events: Seq<ArkivAbiEvent>) -> Seq<ChownReceipt>
    decreases events.len(),
{
    if events.len() == 0 {
        seq![]
    } else {
        let rest = transferred_of(events.drop_last());
        match events.last() {
            ArkivAbiEvent::ArkivEntityOwnerChanged(d) => rest.push(chown::chown_receipt_of(d)),
            _ => rest,
        }
    }
}

/// The number of `ArkivEntityExpired` events among `events`.
pub open spec fn expired_count(events: Seq<ArkivAbiEvent>) -> nat
    decreases events.len(),
{
    if events.len() == 0 {
        0
    } else {
        expired_count(events.drop_last()) + if events.last() is ArkivEntityExpired {
            1nat
        } else {
            0nat
        }
    }
}

/// Every event of a transaction gives exactly one receipt, in the list of its
/// kind, except an expiry, which gives none.
pub proof fn law_one_receipt_per_event(events: Seq<ArkivAbiEvent>)
    ensures
        created_of(events).len() + updated_of(events).len() + deleted_of(events).len()
            + extended_of(events).len() + transferred_of(events).len() + expired_count(events)
            == events.len(),
    decreases events.len(),
{
    if events.len() > 0 {
        law_one_receipt_per_event(events.drop_last());
    }
}

/// The receipt of an event carries each of the event's fields under the same
/// name, in the list of the event's kind; an expiry gives no receipt.
pub proof fn law_receipt_carries_event_fields(ev: ArkivAbiEvent)
    ensures
        ev matches ArkivAbiEvent::ArkivEntityCreated(d) ==> created_of(seq![ev]) =~= seq![
            CreateReceipt {
                entity_key: d.entity_key,
                owner_address: d.owner_address,
                expiration_block: d.expiration_block,
                cost: d.cost,
            },
        ],
        ev matches ArkivAbiEvent::ArkivEntityUpdated(d) ==> updated_of(seq![ev]) =~= seq![
            UpdateReceipt {
                entity_key: d.entity_key,
                owner_address: d.owner_address,
                old_expiration_block: d.old_expiration_block,
                new_expiration_block: d.new_expiration_block,
                cost: d.cost,
            },
        ],
        ev matches ArkivAbiEvent::ArkivEntityDeleted(d) ==> deleted_of(seq![ev]) =~= seq![
            DeleteReceipt { entity_key: d.entity_key, owner_address: d.owner_address },
        ],
        ev matches ArkivAbiEvent::ArkivEntityBTLExtended(d) ==> extended_of(seq![ev]) =~= seq![
            ExtendReceipt {
                entity_key: d.entity_key,
                owner_address: d.owner_address,
                old_expiration_block: d.old_expiration_block,
                new_expiration_block: d.new_expiration_block,
                cost: d.cost,
            },
        ],
        ev matches ArkivAbiEvent::ArkivEntityOwnerChanged(d) ==> transferred_of(seq![ev]) =~= seq![
            ChownReceipt {
                entity_key: d.entity_key,
                old_owner_address: d.old_owner_address,
                new_owner_address: d.new_owner_address,
            },
        ],
        ev is ArkivEntityExpired ==> created_of(seq![ev]).len() + updated_of(seq![ev]).len()
            + deleted_of(seq![ev]).len() + extended_of(seq![ev]).len() + transferred_of(
            seq![ev],
        ).len() == 0,
{
    let e = seq![ev];
    assert(e.drop_last() =~= Seq::<ArkivAbiEvent>::empty());
    assert(e.last() == ev);
    assert(created_of(e.drop_last()) =~= Seq::<CreateReceipt>::empty());
    assert(updated_of(e.drop_last()) =~= Seq::<UpdateReceipt>::empty());
    assert(deleted_of(e.drop_last()) =~= Seq::<DeleteReceipt>::empty());
    assert(extended_of(e.drop_last()) =~= Seq::<ExtendReceipt>::empty());
    assert(transferred_of(e.drop_last()) =~= Seq::<ChownReceipt>::empty());
    match ev {
        ArkivAbiEvent::ArkivEntityCreated(d) => {
            assert(created_of(e) == seq![create::create_receipt_of(d)]);
        },
        ArkivAbiEvent::ArkivEntityUpdated(d) => {
            assert(updated_of(e) == seq![update::update_receipt_of(d)]);
        },
        ArkivAbiEvent::ArkivEntityDeleted(d) => {
            assert(deleted_of(e) == seq![delete::delete_receipt_of(d)]);
        },
        ArkivAbiEvent::ArkivEntityBTLExtended(d) => {
            assert(extended_of(e) == seq![extend::extend_receipt_of(d)]);
        },
        ArkivAbiEvent::ArkivEntityOwnerChanged(d) => {
            assert(transferred_of(e) == seq![chown::chown_receipt_of(d)]);
        },
        ArkivAbiEvent::ArkivEntityExpired(_) => {},
    }
}

/// `r` is the receipt of the events `events`: one receipt per event, sorted by
/// kind, in order. An `ArkivEntityExpired` event gives no receipt.
pub open spec fn receipt_of(r: TransactionReceipt, events: Seq<ArkivAbiEvent>) -> bool {
    &&& r.created@ == created_of(events)
    &&& r.updated@ == updated_of(events)
    &&& r.deleted@ == deleted_of(events)
    &&& r.extended@ == extended_of(events)
    &&& r.transferred@ == transferred_of(events)
}

/// `events` are what the logs decode as, one per log.
pub open spec fn logs_decode_as(logs: Seq<LogData>, sigs: Seq<Seq<u8>>, events: Seq<ArkivAbiEvent>) -> bool {
    &&& events.len() == logs.len()
    &&& forall|i: int|
        0 <= i < logs.len() ==> arkiv_abi_decodes_as(
            log_topics(#[trigger] logs[i]),
            logs[i].data@,
            sigs,
            Ok(events[i]),
        )
}

/// A receipt made from a single `ArkivEntityBTLExtended` log whose data words are
/// `old`, `new` and `cost` (the event's non-indexed parameters in declared order)
/// reports an extension with old expiration `old`, new expiration `new` and cost
/// `cost`, for the key and owner of the log's indexed topics.
pub proof fn law_extend_receipt_of_log(
    log: LogData,
    old: Seq<u8>,
    new: Seq<u8>,
    cost: Seq<u8>,
    events: Seq<ArkivAbiEvent>,
    rec: TransactionReceipt,
)
    requires
        old.len() == 32,
        new.len() == 32,
        cost.len() == 32,
        log.data@ == old + new + cost,
        logs_decode_as(seq![log], arkiv_signatures(), events),
        receipt_of(rec, events),
        events[0] is ArkivEntityBTLExtended,
    ensures
        rec.extended@.len() == 1,
        rec.extended@[0].old_expiration_block@ == old,
        rec.extended@[0].new_expiration_block@ == new,
        rec.extended@[0].cost@ == cost,
        rec.extended@[0].entity_key@ == log_topics(log)[1],
        rec.extended@[0].owner_address@ == log_topics(log)[2].subrange(12, 32),
        rec.created@.len() + rec.updated@.len() + rec.deleted@.len() + rec.transferred@.len() == 0,
{
    let ev = events[0];
    assert(seq![log][0] == log);
    assert(events =~= seq![ev]);
    assert(events.drop_last() =~= Seq::<ArkivAbiEvent>::empty());
    assert(created_of(events.drop_last()) =~= Seq::<CreateReceipt>::empty());
    assert(updated_of(events.drop_last()) =~= Seq::<UpdateReceipt>::empty());
    assert(deleted_of(events.drop_last()) =~= Seq::<DeleteReceipt>::empty());
    assert(transferred_of(events.drop_last()) =~= Seq::<ChownReceipt>::empty());
    if let ArkivAbiEvent::ArkivEntityBTLExtended(d) = ev {
        law_btl_extended_fields_in_declared_order(
            log_topics(log),
            old,
            new,
            cost,
            arkiv_signatures(),
            d,
        );
        law_receipt_carries_event_fields(ev);
    }
}


impl TransactionReceipt {
    /// Sort the events of a successful transaction's receipt into receipts per operation.
    pub fn from_raw(raw: RawTransactionReceipt) -> (r: Result<TransactionReceipt, ContractError>)
        ensures
            !raw.status ==> (r matches Err(ContractError::BadTransactionStatus { receipt })
                && *receipt == raw),
            raw.status && first_decode_error(raw.logs@, arkiv_signatures()) is Some ==> r
                == Err::<TransactionReceipt, ContractError>(
                ContractError::AbiError(first_decode_error(raw.logs@, arkiv_signatures())->0),
            ),
            raw.status && first_decode_error(raw.logs@, arkiv_signatures()) is None ==> (r matches Ok(
                rec,
            ) && exists|events: Seq<ArkivAbiEvent>|
                logs_decode_as(raw.logs@, arkiv_signatures(), events) && receipt_of(rec, events)),
    {
        if !raw.status {
            return Err(ContractError::BadTransactionStatus { receipt: Box::new(raw) });
        }
        let sigs = ArkivAbiSignatures::compute();
        let ghost s = arkiv_signatures();
        let mut receipt = TransactionReceipt {
            created: Vec::new(),
            updated: Vec::new(),
            deleted: Vec::new(),
            extended: Vec::new(),
            transferred: Vec::new(),
        };
        let ghost mut events: Seq<ArkivAbiEvent> = seq![];
        let n = raw.logs.len();
        let mut i: usize = 0;
        assert(raw.logs@.skip(0) =~= raw.logs@);
        while i < n
            invariant
                n == raw.logs@.len(),
                raw.status,
                i <= n,
                signatures_view(sigs) == s,
                s == arkiv_signatures(),
                logs_decode_as(raw.logs@.take(i as int), s, events),
                receipt_of(receipt, events),
                first_decode_error(raw.logs@, s) == first_decode_error(raw.logs@.skip(i as int), s),
            decreases n - i,
        {
            let log = &raw.logs[i];
            let d = decode_arkiv_abi_event(&log.topics, &log.data, &sigs);
            proof {
                lemma_decode_error(log_topics(raw.logs@[i as int]), raw.logs@[i as int].data@, s, d);
                assert(raw.logs@.skip(i as int)[0] == raw.logs@[i as int]);
            }
            match d {
                Ok(ev) => {
                    let ghost prev = events;
                    match ev {
                        ArkivAbiEvent::ArkivEntityCreated(data) => {
                            receipt.created.push(CreateReceipt::from(data));
                        },
                        ArkivAbiEvent::ArkivEntityUpdated(data) => {
                            receipt.updated.push(UpdateReceipt::from(data));
                        },
                        ArkivAbiEvent::ArkivEntityDeleted(data) => {
                            receipt.deleted.push(DeleteReceipt::from(data));
                        },
                        ArkivAbiEvent::ArkivEntityBTLExtended(data) => {
                            receipt.extended.push(ExtendReceipt::from(data));
                        },
                        ArkivAbiEvent::ArkivEntityOwnerChanged(data) => {
                            receipt.transferred.push(ChownReceipt::from(data));
                        },
                        ArkivAbiEvent::ArkivEntityExpired(_) => {},
                    }
                    proof {
                        events = events.push(ev);
                        assert(events.drop_last() =~= prev);
                        assert(raw.logs@.take(i + 1).drop_last() =~= raw.logs@.take(i as int));
                        assert(raw.logs@.skip(i as int).drop_first() =~= raw.logs@.skip(i + 1));
                        assert forall|j: int| 0 <= j < i + 1 implies arkiv_abi_decodes_as(
                            log_topics(#[trigger] raw.logs@.take(i + 1)[j]),
                            raw.logs@.take(i + 1)[j].data@,
                            s,
                            Ok(events[j]),
                        ) by {
                            if j < i {
                                assert(raw.logs@.take(i + 1)[j] == raw.logs@.take(i as int)[j]);
                            }
                        }
                    }
                },
                Err(e) => {
                    return Err(ContractError::AbiError(e));
                },
            }
            i += 1;
        }
        assert(raw.logs@.take(n as int) =~= raw.logs@);
        assert(logs_decode_as(raw.logs@, arkiv_signatures(), events));
        assert(receipt_of(receipt, events));
        let r: Result<TransactionReceipt, ContractError> = Ok(receipt);
        assert(r matches Ok(rec) && exists|ev: Seq<ArkivAbiEvent>|
            logs_decode_as(raw.logs@, arkiv_signatures(), ev) && receipt_of(rec, ev)) by {
            assert(receipt_of(r->Ok_0, events));
        }
        r
    }
}

impl vstd::std_specs::convert::TryFromSpecImpl<RawTransactionReceipt> for TransactionReceipt {
    open spec fn obeys_try_from_spec() -> bool {
        false
    }

    open spec fn try_from_spec(v: RawTransactionReceipt) -> Result<Self, Self::Error> {
        arbitrary()
    }
}

impl TryFrom<RawTransactionReceipt> for TransactionReceipt {
    type Error = ContractError;

    /// Sort the events of a successful transaction's receipt into receipts per operation.
    fn try_from(raw: RawTransactionReceipt) -> (r: Result<TransactionReceipt, ContractError>)
        ensures
            !raw.status ==> (r matches Err(ContractError::BadTransactionStatus { receipt })
                && *receipt == raw),
            raw.status && first_decode_error(raw.logs@, arkiv_signatures()) is Some ==> r
                == Err::<TransactionReceipt, ContractError>(
                ContractError::AbiError(first_decode_error(raw.logs@, arkiv_signatures())->0),
            ),
            raw.status && first_decode_error(raw.logs@, arkiv_signatures()) is None ==> (r matches Ok(
                rec,
            ) && exists|events: Seq<ArkivAbiEvent>|
                logs_decode_as(raw.logs@, arkiv_signatures(), events) && receipt_of(rec, events)),
    {
        TransactionReceipt::from_raw(raw)
    }
}

} // verus!
