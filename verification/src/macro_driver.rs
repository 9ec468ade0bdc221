use vstd::prelude::*;
use crate::string_util::{spec_match_at, str_eq, str_starts_with};

verus! {

/// Whether generated query code should take the row-fetching path: the
/// statement text opens with a select keyword, bare or behind a quote.
pub open spec fn spec_is_select_sql(s: Seq<char>) -> bool {
    ||| spec_match_at(s, "select "@, 0)
    ||| spec_match_at(s, "SELECT "@, 0)
    ||| spec_match_at(s, "\"select "@, 0)
    ||| spec_match_at(s, "\"SELECT "@, 0)
}

/// Decide the execution path for a statement a macro wraps: selects
/// fetch rows, everything else executes.
pub fn is_select_sql(sql: &str) -> (r: bool)
    ensures
        r == spec_is_select_sql(sql@),
{
    str_starts_with(sql, "select ") || str_starts_with(sql, "SELECT ") || str_starts_with(
        sql,
        "\"select ",
    ) || str_starts_with(sql, "\"SELECT ")
}

/// The argument names a generated function serializes, in order: every
/// name except the driver handle's own and the `tx_id` marker.
pub open spec fn spec_kept_args(names: Seq<Seq<char>>, handle: Seq<char>) -> Seq<Seq<char>>
    decreases names.len(),
{
    if names.len() == 0 {
        Seq::empty()
    } else {
        let rest = spec_kept_args(names.drop_first(), handle);
        if names[0] == handle || names[0] == "tx_id"@ {
            rest
        } else {
            seq![names[0]] + rest
        }
    }
}

/// Whether some argument carries the `tx_id` marker (the handle's own
/// name never counts, even when it is spelled `tx_id`).
pub open spec fn spec_has_tx_id(names: Seq<Seq<char>>, handle: Seq<char>) -> bool {
    exists|j: int| 0 <= j < names.len() && names[j] != handle && #[trigger] names[j] == "tx_id"@
}

/// Split a generated function's argument names: which are serialized as
/// statement arguments, in order, and whether one of them carries the
/// transaction-identifier marker.
pub fn filter_args_tx_id(rbatis_name: &str, fn_arg_name_vec: &Vec<String>) -> (r: (
    Vec<String>,
    bool,
))
    ensures
        r.0@.map_values(|s: String| s@) == spec_kept_args(
            fn_arg_name_vec@.map_values(|s: String| s@),
            rbatis_name@,
        ),
        r.1 == spec_has_tx_id(fn_arg_name_vec@.map_values(|s: String| s@), rbatis_name@),
{
    let ghost names = fn_arg_name_vec@.map_values(|s: String| s@);
    let mut kept: Vec<String> = Vec::new();
    let mut has_tx = false;
    let mut i: usize = 0;
    proof {
        lemma_kept_args_split(names, rbatis_name@);
        assert(kept@.map_values(|s: String| s@) + spec_kept_args_from(names, rbatis_name@, 0)
            =~= spec_kept_args_from(names, rbatis_name@, 0));
    }
    while i < fn_arg_name_vec.len()
        invariant
            names == fn_arg_name_vec@.map_values(|s: String| s@),
            i <= names.len(),
            kept@.map_values(|s: String| s@) + spec_kept_args_from(names, rbatis_name@, i as int)
                == spec_kept_args(names, rbatis_name@),
            has_tx == exists|j: int|
                0 <= j < i && names[j] != rbatis_name@ && #[trigger] names[j] == "tx_id"@,
        decreases names.len() - i,
    {
        let ghost pre = kept@.map_values(|s: String| s@);
        let item = &fn_arg_name_vec[i];
        if str_eq(item.as_str(), rbatis_name) {
        } else if str_eq(item.as_str(), "tx_id") {
            has_tx = true;
        } else {
            kept.push(item.clone());
            proof {
                assert(kept@.map_values(|s: String| s@) =~= pre.push(names[i as int]));
                assert(pre.push(names[i as int]) + spec_kept_args_from(
                    names,
                    rbatis_name@,
                    i + 1,
                ) =~= pre + (seq![names[i as int]] + spec_kept_args_from(
                    names,
                    rbatis_name@,
                    i + 1,
                )));
            }
        }
        i = i + 1;
    }
    proof {
        assert(kept@.map_values(|s: String| s@) + spec_kept_args_from(
            names,
            rbatis_name@,
            names.len() as int,
        ) =~= kept@.map_values(|s: String| s@));
    }
    (kept, has_tx)
}

/// The kept arguments from index `i` on.
pub open spec fn spec_kept_args_from(names: Seq<Seq<char>>, handle: Seq<char>, i: int) -> Seq<
    Seq<char>,
>
    decreases names.len() - i when 0 <= i <= names.len()
{
    if i >= names.len() {
        Seq::empty()
    } else {
        let rest = spec_kept_args_from(names, handle, i + 1);
        if names[i] == handle || names[i] == "tx_id"@ {
            rest
        } else {
            seq![names[i]] + rest
        }
    }
}

/// Scanning from the front computes the same kept arguments as the
/// recursive definition.
proof fn lemma_kept_args_split(names: Seq<Seq<char>>, handle: Seq<char>)
    ensures
        spec_kept_args_from(names, handle, 0) == spec_kept_args(names, handle),
    decreases names.len(),
{
    if names.len() > 0 {
        lemma_kept_args_from_drop(names, handle, 1);
        lemma_kept_args_split(names.drop_first(), handle);
    }
}

/// Dropping the first name shifts the scan by one.
proof fn lemma_kept_args_from_drop(names: Seq<Seq<char>>, handle: Seq<char>, i: int)
    requires
        1 <= i <= names.len(),
    ensures
        spec_kept_args_from(names, handle, i) == spec_kept_args_from(
            names.drop_first(),
            handle,
            i - 1,
        ),
    decreases names.len() - i,
{
    if i < names.len() {
        lemma_kept_args_from_drop(names, handle, i + 1);
        assert(names.drop_first()[i - 1] == names[i]);
    }
}

} // verus!
