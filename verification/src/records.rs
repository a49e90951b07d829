//! Parsing fetched content into ownership records. The fetched text must
//! be a JSON array of records; each record is an object whose `owner`,
//! `data_key` and `cid` members are strings (other members are
//! tolerated and ignored). Anything else is a parse failure with a
//! reason.

use vstd::prelude::*;
use crate::types::DataStructFork;

verus! {

/// What a fetched text parses to: the ownership records, each as an
/// (owning key, data key, content identifier) triple, or the reason the
/// text was rejected. The parse depends on the text alone.
pub uninterp spec fn json_fork_records(s: Seq<char>) -> Result<
    Seq<(Seq<char>, Seq<char>, Seq<char>)>,
    Seq<char>,
>;

/// Relies on serde_json::from_str and serde_json::Value: the text is
/// parsed as a JSON array of values, and each value must carry string
/// members `owner`, `data_key` and `cid`; the first failure is reported
/// as text. Both the records and the reason depend on the input alone.
#[verifier::external_body]
pub(crate) fn parse_fork_records(s: &str) -> (r: Result<Vec<DataStructFork>, String>)
    ensures
        match r {
            Ok(v) => json_fork_records(s@) matches Ok(rs) && rs.len() == v@.len() && (forall|
                i: int,
            |
                0 <= i < v@.len() ==> (#[trigger] v@[i])@.owner == rs[i].0 && v@[i]@.data_key
                    == rs[i].1 && v@[i]@.cid == rs[i].2),
            Err(e) => json_fork_records(s@) matches Err(m) && e@ == m,
        },
{
    let vals: Vec<serde_json::Value> = match serde_json::from_str(s) {
        Ok(v) => v,
        Err(e) => return Err(e.to_string()),
    };
    let mut out: Vec<DataStructFork> = Vec::new();
    for v in vals {
        match (v["owner"].as_str(), v["data_key"].as_str(), v["cid"].as_str()) {
            (Some(o), Some(d), Some(c)) => out.push(
                DataStructFork { owner: o.to_string(), data_key: d.to_string(), cid: c.to_string() },
            ),
            _ => return Err(String::from("a record field is missing or not a string")),
        }
    }
    Ok(out)
}

} // verus!
