//! The value objects of one invocation: contract identity, history
//! entries, transactions, parsed ownership records, and the result type
//! with the final metadata entries.

use vstd::prelude::*;

verus! {

/// Identity of the contract whose public key anchors synthesized entries.
pub struct MetaContract {
    pub token_key: String,
    pub meta_contract_id: String,
    pub public_key: String,
}

/// One previously recorded metadata fact; the flows only use how many
/// of these exist.
pub struct Metadata {
    pub data_key: String,
    pub alias: String,
    pub cid: String,
    pub public_key: String,
}

/// An incoming transaction. `data` is an opaque payload: raw text for
/// the execute flow, a hexadecimal-encoded tuple for the encoded mint flow.
pub struct Transaction {
    pub hash: String,
    pub token_key: String,
    pub data_key: String,
    pub nonce: i64,
    pub from_peer_id: String,
    pub host_id: String,
    pub status: i64,
    pub data: String,
    pub public_key: String,
    pub alias: String,
    pub timestamp: u64,
    pub meta_contract_id: String,
    pub method: String,
    pub error_text: String,
    pub token_id: String,
}

/// One ownership record parsed from fetched content: which key owns
/// which piece of content. The owning key is carried in the `owner`
/// field; this crate treats that bare identifier as the canonical name
/// of the field in the fetched records.
pub struct DataStructFork {
    pub owner: String,
    pub data_key: String,
    pub cid: String,
}

/// The atomic unit of output; the order of these entries in a result is
/// significant.
pub struct FinalMetadata {
    pub public_key: String,
    pub alias: String,
    pub content: String,
}

/// Outcome of one call: either a success with an ordered entry list, or
/// a failure with a reason and no entries.
pub struct MetaContractResult {
    pub result: bool,
    pub metadatas: Vec<FinalMetadata>,
    pub error_string: String,
}

/// Mathematical model of one final metadata entry.
pub struct EntryModel {
    pub public_key: Seq<char>,
    pub alias: Seq<char>,
    pub content: Seq<char>,
}

/// Mathematical model of one ownership record.
pub struct ForkModel {
    pub owner: Seq<char>,
    pub data_key: Seq<char>,
    pub cid: Seq<char>,
}

/// Mathematical model of a call result.
pub struct ResultModel {
    pub result: bool,
    pub metadatas: Seq<EntryModel>,
    pub error_string: Seq<char>,
}

impl View for FinalMetadata {
    type V = EntryModel;

    open spec fn view(&self) -> EntryModel {
        EntryModel {
            public_key: self.public_key@,
            alias: self.alias@,
            content: self.content@,
        }
    }
}

impl View for DataStructFork {
    type V = ForkModel;

    open spec fn view(&self) -> ForkModel {
        ForkModel { owner: self.owner@, data_key: self.data_key@, cid: self.cid@ }
    }
}

impl View for MetaContractResult {
    type V = ResultModel;

    open spec fn view(&self) -> ResultModel {
        ResultModel {
            result: self.result,
            metadatas: self.metadatas@.map_values(|e: FinalMetadata| e@),
            error_string: self.error_string@,
        }
    }
}

/// Invariant of every result this crate produces: a failure carries no
/// entries and a non-empty reason; a success carries no reason.
pub open spec fn result_wf(r: ResultModel) -> bool {
    if r.result {
        r.error_string.len() == 0
    } else {
        r.metadatas.len() == 0 && r.error_string.len() > 0
    }
}

} // verus!
