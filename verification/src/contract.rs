//! The entry points: the execute flow (incremental metadata update for
//! an existing beat) and the mint flow (initial metadata for a new
//! beat). The external content fetch cannot run here, so the mint flow
//! is split in two steps: `mint_step` either completes at once or asks
//! the caller to run one fetch command, and `complete_mint` turns the
//! fetched text into the final result. Results are all-or-nothing: any
//! failure yields an empty entry list with a reason.

use vstd::prelude::*;
use vstd::string::StringExecFns;
use vstd::string::StrSliceExecFns;
use crate::command::fetch_command;
use crate::command::fetch_command_model;
use crate::payload::decode_mint_payload;
use crate::payload::decoded_payload;
use crate::payload::payload_failure_text;
use crate::records::json_fork_records;
use crate::records::parse_fork_records;
use crate::types::EntryModel;
use crate::types::FinalMetadata;
use crate::types::MetaContract;
use crate::types::MetaContractResult;
use crate::types::Metadata;
use crate::types::Transaction;
use crate::types::result_wf;

verus! {

/// The ceiling on how many history entries a beat may already have.
pub const MAX_BEAT_HISTORY: usize = 13;

/// The default name of a beat, derived from its token identifier.
pub open spec fn name_content(token_id: Seq<char>) -> Seq<char> {
    "Collabeat #"@ + token_id
}

/// One modelled entry.
pub open spec fn entry_model(pk: Seq<char>, alias: Seq<char>, content: Seq<char>) -> EntryModel {
    EntryModel { public_key: pk, alias: alias, content: content }
}

/// The synthesized name entry.
pub open spec fn name_entry(pk: Seq<char>, name: Seq<char>) -> EntryModel {
    entry_model(pk, "name"@, name)
}

/// The synthesized description entry.
pub open spec fn description_entry(pk: Seq<char>) -> EntryModel {
    entry_model(pk, "description"@, "Co-Create, Collaborate and Own The Beat"@)
}

/// The synthesized image entry.
pub open spec fn image_entry(pk: Seq<char>) -> EntryModel {
    entry_model(pk, "image"@, "ipfs://"@)
}

/// The entry derived from a transaction's own fields.
pub open spec fn tx_entry(t: Transaction) -> EntryModel {
    entry_model(t.public_key@, t.alias@, t.data@)
}

/// The output of a successful execute call: on an empty history the
/// three base entries come first, and the transaction-derived entry is
/// always last.
pub open spec fn execute_entries(pk: Seq<char>, n_history: nat, t: Transaction) -> Seq<
    EntryModel,
> {
    if n_history == 0 {
        seq![
            name_entry(pk, name_content(t.token_id@)),
            description_entry(pk),
            image_entry(pk),
            tx_entry(t),
        ]
    } else {
        seq![tx_entry(t)]
    }
}

/// The output of a mint that imported ownership records: description
/// and image first, one entry per record (owning key, empty alias, the
/// record's content identifier), and the name entry last.
pub open spec fn mint_import_entries(
    pk: Seq<char>,
    name: Seq<char>,
    rs: Seq<(Seq<char>, Seq<char>, Seq<char>)>,
) -> Seq<EntryModel> {
    seq![description_entry(pk), image_entry(pk)] + rs.map_values(
        |t: (Seq<char>, Seq<char>, Seq<char>)| entry_model(t.0, ""@, t.2),
    ) + seq![name_entry(pk, name)]
}

/// An import of any number of ownership records yields exactly that
/// many record entries plus the three synthesized ones, the record
/// entries in order with an empty alias, and the name entry last.
pub proof fn lemma_mint_import_shape(
    pk: Seq<char>,
    name: Seq<char>,
    rs: Seq<(Seq<char>, Seq<char>, Seq<char>)>,
)
    ensures
        mint_import_entries(pk, name, rs).len() == rs.len() + 3,
        mint_import_entries(pk, name, rs).last() == name_entry(pk, name),
        mint_import_entries(pk, name, rs)[0] == description_entry(pk),
        mint_import_entries(pk, name, rs)[1] == image_entry(pk),
        forall|i: int|
            0 <= i < rs.len() ==> mint_import_entries(pk, name, rs)[2 + i] == entry_model(
                rs[i].0,
                ""@,
                rs[i].2,
            ),
{
}

/// Acknowledges a transaction against an existing beat: rejects it when
/// the history already exceeds the ceiling, otherwise appends the
/// transaction-derived entry, preceded by the three base entries when
/// the history is empty.
pub fn on_execute(
    contract: MetaContract,
    metadatas: Vec<Metadata>,
    transaction: Transaction,
) -> (r: MetaContractResult)
    ensures
        result_wf(r@),
        metadatas@.len() > MAX_BEAT_HISTORY ==> !r.result && r@.error_string
            == "Can not be more than 10 beats"@,
        metadatas@.len() <= MAX_BEAT_HISTORY ==> r.result && r@.metadatas == execute_entries(
            contract.public_key@,
            metadatas@.len(),
            transaction,
        ),
{
    let mut finals: Vec<FinalMetadata> = Vec::new();
    if metadatas.len() > MAX_BEAT_HISTORY {
        proof {
            reveal_strlit("Can not be more than 10 beats");
        }
        return MetaContractResult {
            result: false,
            metadatas: finals,
            error_string: String::from_str("Can not be more than 10 beats"),
        };
    }
    if metadatas.len() == 0 {
        finals.push(
            FinalMetadata {
                public_key: contract.public_key.clone(),
                alias: String::from_str("name"),
                content: String::from_str("Collabeat #").concat(transaction.token_id.as_str()),
            },
        );
        finals.push(
            FinalMetadata {
                public_key: contract.public_key.clone(),
                alias: String::from_str("description"),
                content: String::from_str("Co-Create, Collaborate and Own The Beat"),
            },
        );
        finals.push(
            FinalMetadata {
                public_key: contract.public_key.clone(),
                alias: String::from_str("image"),
                content: String::from_str("ipfs://"),
            },
        );
    }
    finals.push(
        FinalMetadata {
            public_key: transaction.public_key,
            alias: transaction.alias,
            content: transaction.data,
        },
    );
    let r = MetaContractResult { result: true, metadatas: finals, error_string: String::new() };
    proof {
        assert(r@.metadatas =~= execute_entries(
            contract.public_key@,
            metadatas@.len(),
            transaction,
        ));
    }
    r
}

/// How a caller supplies the mint payload: an already resolved address
/// and content identifier, one hexadecimal-encoded payload, or a full
/// transaction whose fields are echoed.
pub enum MintRequest {
    PlainCid { ipfs_multiaddr: String, cid: String },
    EncodedPayload { hex_data: String },
    TransactionEcho { transaction: Transaction },
}

/// A mint waiting for one content fetch: the command to run, and what
/// is needed to finish once the content is here.
pub struct PendingMint {
    pub public_key: String,
    pub name: String,
    pub cmd: Vec<String>,
}

/// The outcome of one mint step: a final result, or a fetch to run.
pub enum MintStep {
    Complete(MetaContractResult),
    Fetch(PendingMint),
}

/// What `mint_step` promises, by request kind. A request that needs no
/// fetch completes at once; one with a content identifier asks for
/// exactly one fetch with the resolved command.
pub open spec fn mint_step_post(
    pk: Seq<char>,
    token_id: Seq<char>,
    request: MintRequest,
    r: MintStep,
) -> bool {
    let def = name_content(token_id);
    match request {
        MintRequest::PlainCid { ipfs_multiaddr, cid } => {
            if cid@.len() == 0 {
                r matches MintStep::Complete(res) && res.result && result_wf(res@)
                    && res@.metadatas == seq![
                    name_entry(pk, def),
                    description_entry(pk),
                    image_entry(pk),
                ]
            } else {
                r matches MintStep::Fetch(p) && p.public_key@ == pk && p.name@ == def
                    && p.cmd.deep_view() == fetch_command_model(cid@, ipfs_multiaddr@, 0)
            }
        },
        MintRequest::EncodedPayload { hex_data } => {
            if hex_data@.len() == 0 {
                r matches MintStep::Complete(res) && res.result && result_wf(res@)
                    && res@.metadatas == seq![
                    description_entry(pk),
                    image_entry(pk),
                    name_entry(pk, def),
                ]
            } else {
                match decoded_payload(hex_data@) {
                    Err(f) => r matches MintStep::Complete(res) && !res.result && result_wf(res@)
                        && res@.error_string == payload_failure_text(f),
                    Ok(t) => {
                        let name = if t.0.len() > 0 {
                            t.0
                        } else {
                            def
                        };
                        if t.2.len() == 0 {
                            r matches MintStep::Complete(res) && res.result && result_wf(res@)
                                && res@.metadatas == seq![
                                description_entry(pk),
                                image_entry(pk),
                                name_entry(pk, name),
                            ]
                        } else {
                            r matches MintStep::Fetch(p) && p.public_key@ == pk && p.name@ == name
                                && p.cmd.deep_view() == fetch_command_model(t.2, t.1, 0)
                        }
                    },
                }
            }
        },
        MintRequest::TransactionEcho { transaction } => {
            r matches MintStep::Complete(res) && res.result && result_wf(res@) && res@.metadatas
                == seq![
                name_entry(pk, def),
                description_entry(pk),
                image_entry(pk),
                tx_entry(transaction),
            ]
        },
    }
}

/// Builds one final metadata entry.
fn make_entry(public_key: String, alias: &str, content: String) -> (r: FinalMetadata)
    ensures
        r@ == entry_model(public_key@, alias@, content@),
{
    FinalMetadata { public_key, alias: String::from_str(alias), content }
}

/// A successful result with the given entries.
fn success(finals: Vec<FinalMetadata>) -> (r: MetaContractResult)
    ensures
        r.result,
        result_wf(r@),
        r@.metadatas == finals@.map_values(|e: FinalMetadata| e@),
{
    MetaContractResult { result: true, metadatas: finals, error_string: String::new() }
}

/// A successful result holding the three synthesized entries, with the
/// name entry first or last.
fn base_triple(public_key: String, name: String, name_first: bool) -> (r: MetaContractResult)
    ensures
        r.result,
        result_wf(r@),
        name_first ==> r@.metadatas == seq![
            name_entry(public_key@, name@),
            description_entry(public_key@),
            image_entry(public_key@),
        ],
        !name_first ==> r@.metadatas == seq![
            description_entry(public_key@),
            image_entry(public_key@),
            name_entry(public_key@, name@),
        ],
{
    let mut finals: Vec<FinalMetadata> = Vec::new();
    let ghost name_view = name@;
    let ghost pk_view = public_key@;
    if name_first {
        finals.push(make_entry(public_key.clone(), "name", name));
        finals.push(
            make_entry(
                public_key.clone(),
                "description",
                String::from_str("Co-Create, Collaborate and Own The Beat"),
            ),
        );
        finals.push(make_entry(public_key, "image", String::from_str("ipfs://")));
        let res = success(finals);
        proof {
            assert(res@.metadatas =~= seq![
                name_entry(pk_view, name_view),
                description_entry(pk_view),
                image_entry(pk_view),
            ]);
        }
        res
    } else {
        finals.push(
            make_entry(
                public_key.clone(),
                "description",
                String::from_str("Co-Create, Collaborate and Own The Beat"),
            ),
        );
        finals.push(make_entry(public_key.clone(), "image", String::from_str("ipfs://")));
        finals.push(make_entry(public_key, "name", name));
        let res = success(finals);
        proof {
            assert(res@.metadatas =~= seq![
                description_entry(pk_view),
                image_entry(pk_view),
                name_entry(pk_view, name_view),
            ]);
        }
        res
    }
}

/// The result of an echoed-transaction mint: the three synthesized
/// entries, then the transaction-derived entry.
fn mint_echo(public_key: String, name: String, transaction: Transaction) -> (r: MetaContractResult)
    ensures
        r.result,
        result_wf(r@),
        r@.metadatas == seq![
            name_entry(public_key@, name@),
            description_entry(public_key@),
            image_entry(public_key@),
            tx_entry(transaction),
        ],
{
    let ghost name_view = name@;
    let ghost pk_view = public_key@;
    let ghost tx_view = tx_entry(transaction);
    let mut finals: Vec<FinalMetadata> = Vec::new();
    finals.push(make_entry(public_key.clone(), "name", name));
    finals.push(
        make_entry(
            public_key.clone(),
            "description",
            String::from_str("Co-Create, Collaborate and Own The Beat"),
        ),
    );
    finals.push(make_entry(public_key, "image", String::from_str("ipfs://")));
    finals.push(
        FinalMetadata {
            public_key: transaction.public_key,
            alias: transaction.alias,
            content: transaction.data,
        },
    );
    let res = success(finals);
    proof {
        assert(res@.metadatas =~= seq![
            name_entry(pk_view, name_view),
            description_entry(pk_view),
            image_entry(pk_view),
            tx_view,
        ]);
    }
    res
}

/// Resolves an encoded-payload mint once the payload is known to be
/// non-empty: decodes it and completes, fails, or asks for the fetch.
fn mint_encoded(public_key: String, default_name: String, hex_data: String) -> (r: MintStep)
    requires
        hex_data@.len() > 0,
    ensures
        match decoded_payload(hex_data@) {
            Err(f) => r matches MintStep::Complete(res) && !res.result && result_wf(res@)
                && res@.error_string == payload_failure_text(f),
            Ok(t) => {
                let name = if t.0.len() > 0 {
                    t.0
                } else {
                    default_name@
                };
                if t.2.len() == 0 {
                    r matches MintStep::Complete(res) && res.result && result_wf(res@)
                        && res@.metadatas == seq![
                        description_entry(public_key@),
                        image_entry(public_key@),
                        name_entry(public_key@, name),
                    ]
                } else {
                    r matches MintStep::Fetch(p) && p.public_key@ == public_key@ && p.name@ == name
                        && p.cmd.deep_view() == fetch_command_model(t.2, t.1, 0)
                }
            },
        },
{
    match decode_mint_payload(hex_data.as_str()) {
        Err(e) => {
            proof {
                reveal_strlit("Invalid data structure: the payload is not hexadecimal");
                reveal_strlit(
                    "Invalid data structure: the payload is not a tuple of three strings",
                );
                reveal_strlit("Invalid data structure: a payload field is not valid text");
            }
            MintStep::Complete(
                MetaContractResult { result: false, metadatas: Vec::new(), error_string: e },
            )
        },
        Ok((decoded_name, ipfs_multiaddr, cid)) => {
            let name = if decoded_name.as_str().is_empty() {
                default_name
            } else {
                decoded_name
            };
            if cid.as_str().is_empty() {
                MintStep::Complete(base_triple(public_key, name, false))
            } else {
                MintStep::Fetch(
                    PendingMint {
                        public_key,
                        name,
                        cmd: fetch_command(cid, ipfs_multiaddr, 0),
                    },
                )
            }
        },
    }
}

/// Resolves one mint request: it either completes at once, or hands
/// back the one fetch command to run and the state to finish with.
pub fn mint_step(contract: MetaContract, token_id: String, request: MintRequest) -> (r: MintStep)
    ensures
        mint_step_post(contract.public_key@, token_id@, request, r),
{
    let default_name = String::from_str("Collabeat #").concat(token_id.as_str());
    match request {
        MintRequest::PlainCid { ipfs_multiaddr, cid } => {
            if cid.as_str().is_empty() {
                MintStep::Complete(base_triple(contract.public_key, default_name, true))
            } else {
                MintStep::Fetch(
                    PendingMint {
                        public_key: contract.public_key,
                        name: default_name,
                        cmd: fetch_command(cid, ipfs_multiaddr, 0),
                    },
                )
            }
        },
        MintRequest::EncodedPayload { hex_data } => {
            if hex_data.as_str().is_empty() {
                MintStep::Complete(base_triple(contract.public_key, default_name, false))
            } else {
                mint_encoded(contract.public_key, default_name, hex_data)
            }
        },
        MintRequest::TransactionEcho { transaction } => {
            MintStep::Complete(mint_echo(contract.public_key, default_name, transaction))
        },
    }
}

/// The mint entry point for a hexadecimal-encoded payload: validates
/// and decodes the payload, and either completes at once or asks for
/// one content fetch.
pub fn on_mint(contract: MetaContract, token_id: String, data: String) -> (r: MintStep)
    ensures
        mint_step_post(
            contract.public_key@,
            token_id@,
            MintRequest::EncodedPayload { hex_data: data },
            r,
        ),
{
    mint_step(contract, token_id, MintRequest::EncodedPayload { hex_data: data })
}

/// Finishes a mint once the fetched content is here: parses it into
/// ownership records and assembles the final entries, or rejects the
/// whole mint with a reason — never a partial list.
pub fn complete_mint(pending: PendingMint, content: &str) -> (r: MetaContractResult)
    ensures
        result_wf(r@),
        match json_fork_records(content@) {
            Ok(rs) => r.result && r@.metadatas == mint_import_entries(
                pending.public_key@,
                pending.name@,
                rs,
            ),
            Err(m) => !r.result && r@.error_string == "Invalid data structure: "@ + m,
        },
{
    let records = match parse_fork_records(content) {
        Err(e) => {
            proof {
                reveal_strlit("Invalid data structure: ");
            }
            return MetaContractResult {
                result: false,
                metadatas: Vec::new(),
                error_string: String::from_str("Invalid data structure: ").concat(e.as_str()),
            };
        },
        Ok(records) => records,
    };
    let ghost rs = json_fork_records(content@)->Ok_0;
    let mut finals: Vec<FinalMetadata> = Vec::new();
    finals.push(
        make_entry(
            pending.public_key.clone(),
            "description",
            String::from_str("Co-Create, Collaborate and Own The Beat"),
        ),
    );
    finals.push(
        make_entry(pending.public_key.clone(), "image", String::from_str("ipfs://")),
    );
    let mut i: usize = 0;
    while i < records.len()
        invariant
            i <= records@.len(),
            records@.len() == rs.len(),
            forall|k: int|
                0 <= k < records@.len() ==> (#[trigger] records@[k])@.owner == rs[k].0
                    && records@[k]@.data_key == rs[k].1 && records@[k]@.cid == rs[k].2,
            finals@.len() == 2 + i,
            finals@[0]@ == description_entry(pending.public_key@),
            finals@[1]@ == image_entry(pending.public_key@),
            forall|k: int|
                0 <= k < i ==> (#[trigger] finals@[2 + k])@ == entry_model(rs[k].0, ""@, rs[k].2),
        decreases records@.len() - i,
    {
        finals.push(
            FinalMetadata {
                public_key: records[i].owner.clone(),
                alias: String::new(),
                content: records[i].cid.clone(),
            },
        );
        proof {
            reveal_strlit("");
            assert(""@ =~= Seq::<char>::empty());
            assert(finals@[2 + i as int]@ == entry_model(rs[i as int].0, ""@, rs[i as int].2));
        }
        i = i + 1;
    }
    finals.push(make_entry(pending.public_key, "name", pending.name));
    let res = success(finals);
    proof {
        let want = mint_import_entries(pending.public_key@, pending.name@, rs);
        assert(res@.metadatas.len() == want.len());
        assert forall|k: int| 0 <= k < want.len() implies res@.metadatas[k] == want[k] by {
            if 2 <= k < 2 + rs.len() {
                let j = k - 2;
                assert(finals@[2 + j]@ == entry_model(rs[j].0, ""@, rs[j].2));
            }
        }
        assert(res@.metadatas =~= want);
    }
    res
}

} // verus!
