//! A run over many asset files: every file yields its record, or the run
//! stops at the first file that does not.

use vstd::prelude::*;
use crate::document::Node;
use crate::extract::{ExtractError, documents_spec, name_node};
use crate::record::SalvageRewardData;

verus! {

/// The records of a run in file order, or the position and error of the first
/// file that gave no record.
pub open spec fn run_result(outcomes: Seq<Result<SalvageRewardData, ExtractError>>) -> Result<
    Seq<SalvageRewardData>,
    (int, ExtractError),
>
    decreases outcomes.len(),
{
    if outcomes.len() == 0 {
        Ok(Seq::empty())
    } else {
        match run_result(outcomes.drop_last()) {
            Err(failure) => Err(failure),
            Ok(records) => match outcomes.last() {
                Ok(record) => Ok(records.push(record)),
                Err(e) => Err((outcomes.len() - 1, e)),
            },
        }
    }
}

/// Collects the per-file outcomes of a run: all records when every file gave
/// one, else the first failure with its position.
pub fn gather(outcomes: Vec<Result<SalvageRewardData, ExtractError>>) -> (r: Result<
    Vec<SalvageRewardData>,
    (usize, ExtractError),
>)
    ensures
        match r {
            Ok(records) => run_result(outcomes@) == Ok::<Seq<SalvageRewardData>, (int, ExtractError)>(records@),
            Err((i, e)) => run_result(outcomes@) == Err::<Seq<SalvageRewardData>, (int, ExtractError)>((i as int, e)),
        },
{
    let ghost all = outcomes@;
    let n: usize = outcomes.len();
    let mut rest = outcomes;
    let mut records: Vec<SalvageRewardData> = Vec::new();
    let mut i: usize = 0;
    while rest.len() > 0
        invariant
            i <= all.len(),
            all.len() == n,
            all == outcomes@,
            rest@ == all.subrange(i as int, all.len() as int),
            run_result(all.take(i as int)) == Ok::<Seq<SalvageRewardData>, (int, ExtractError)>(records@),
        decreases rest@.len(),
    {
        let outcome = rest.remove(0);
        assert(all.take(i + 1).drop_last() =~= all.take(i as int));
        assert(outcome == all[i as int]);
        match outcome {
            Ok(record) => records.push(record),
            Err(e) => {
                proof {
                    lemma_first_failure_stays(all, i as int + 1);
                }
                return Err((i, e));
            },
        }
        i = i + 1;
    }
    assert(all.take(i as int) =~= all);
    Ok(records)
}

/// A failure among the first `n` outcomes is the failure of the whole run.
proof fn lemma_first_failure_stays(outcomes: Seq<Result<SalvageRewardData, ExtractError>>, n: int)
    requires
        0 <= n <= outcomes.len(),
        run_result(outcomes.take(n)) is Err,
    ensures
        run_result(outcomes) == run_result(outcomes.take(n)),
    decreases outcomes.len() - n,
{
    if n < outcomes.len() {
        assert(outcomes.take(n + 1).drop_last() =~= outcomes.take(n));
        lemma_first_failure_stays(outcomes, n + 1);
    } else {
        assert(outcomes.take(n) =~= outcomes);
    }
}

/// A run over no files succeeds with no records, so nothing is printed.
pub proof fn lemma_empty_run(outcomes: Seq<Result<SalvageRewardData, ExtractError>>)
    requires
        outcomes.len() == 0,
    ensures
        run_result(outcomes) == Ok::<Seq<SalvageRewardData>, (int, ExtractError)>(Seq::empty()),
{
}

/// A run in which any file fails gives no records at all.
pub proof fn lemma_failure_aborts_run(outcomes: Seq<Result<SalvageRewardData, ExtractError>>, k: int)
    requires
        0 <= k < outcomes.len(),
        outcomes[k] is Err,
    ensures
        run_result(outcomes) is Err,
    decreases outcomes.len(),
{
    if k < outcomes.len() - 1 {
        lemma_failure_aborts_run(outcomes.drop_last(), k);
    }
}

/// A file whose first document has no string `m_Name` fails with
/// `MissingOrWrongTypeName`, and the run it belongs to yields no records,
/// whatever the other files hold and wherever the file stands among them.
pub proof fn lemma_bad_name_aborts_run(
    outcomes: Seq<Result<SalvageRewardData, ExtractError>>,
    k: int,
    docs: Seq<Node>,
)
    requires
        0 <= k < outcomes.len(),
        outcomes[k] == documents_spec(docs),
        docs.len() > 0,
        !(name_node(docs[0]) matches Some(Node::Text(_))),
    ensures
        documents_spec(docs) == Err::<SalvageRewardData, ExtractError>(ExtractError::MissingOrWrongTypeName),
        run_result(outcomes) is Err,
{
    lemma_failure_aborts_run(outcomes, k);
}

} // verus!
