use vstd::prelude::*;

verus! {

/// Every per-item result succeeded.
pub open spec fn all_ok<T>(s: Seq<Result<T, String>>) -> bool {
    forall|i: int| 0 <= i < s.len() ==> #[trigger] s[i] is Ok
}

/// The successful values, position by position.
pub open spec fn ok_values<T>(s: Seq<Result<T, String>>) -> Seq<T> {
    s.map_values(|r: Result<T, String>| r->Ok_0)
}

/// `k` is the lowest position whose result is an error.
pub open spec fn is_first_failure<T>(s: Seq<Result<T, String>>, k: int) -> bool {
    &&& 0 <= k < s.len()
    &&& s[k] is Err
    &&& forall|j: int| 0 <= j < k ==> #[trigger] s[j] is Ok
}

/// The error of the lowest failing position.
pub open spec fn first_failure<T>(s: Seq<Result<T, String>>) -> String {
    s[choose|k: int| is_first_failure(s, k)]->Err_0
}

proof fn lemma_first_failure_at<T>(s: Seq<Result<T, String>>, k: int)
    requires
        is_first_failure(s, k),
    ensures
        first_failure(s) == s[k]->Err_0,
{
    let c = choose|c: int| is_first_failure(s, c);
    assert(is_first_failure(s, c));
    if c < k {
        assert(s[c] is Ok);
    } else if k < c {
        assert(s[k] is Ok);
    }
}

/// Joins the results of conversions run one per item, in item order: the
/// values in the position of their inputs when every conversion succeeded,
/// else the error of the first failing position, with no partial list.
pub fn join_ordered<T>(results: Vec<Result<T, String>>) -> (r: Result<Vec<T>, String>)
    ensures
        r is Ok <==> all_ok(results@),
        r matches Ok(v) ==> v@ == ok_values(results@),
        r matches Err(e) ==> e == first_failure(results@),
{
    let ghost s = results@;
    let mut out: Vec<T> = Vec::new();
    for x in it: results.into_iter()
        invariant
            it.seq() == s,
            out@ == ok_values(s.take(it.index() as int)),
            forall|j: int| 0 <= j < it.index() ==> #[trigger] s[j] is Ok,
    {
        let ghost i = it.index() as int;
        match x {
            Ok(v) => {
                out.push(v);
                assert(ok_values(s.take(i + 1)) =~= ok_values(s.take(i)).push(v));
            },
            Err(e) => {
                proof {
                    assert(is_first_failure(s, i));
                    lemma_first_failure_at(s, i);
                }
                return Err(e);
            },
        }
    }
    assert(s.take(s.len() as int) =~= s);
    Ok(out)
}

} // verus!
