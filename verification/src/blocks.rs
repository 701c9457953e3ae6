//! Which terminal blocks a block request reads, and how much of their output.
use vstd::prelude::*;
use vstd::string::*;
use crate::control::{ControlError, ErrorCode};
use crate::text::{owned, str_eq};

verus! {

/// How many blocks a block listing holds when the request names no limit.
pub const DEFAULT_BLOCK_LIST_LIMIT: usize = 50;

/// How many characters of a block's output a request gets when it names no
/// limit.
pub const DEFAULT_MAX_OUTPUT_CHARS: usize = 100_000;

/// The number of blocks a listing holds.
pub fn block_list_limit(limit: Option<u32>) -> (n: usize)
    ensures
        n == match limit {
            Some(l) => l as usize,
            None => DEFAULT_BLOCK_LIST_LIMIT,
        },
{
    match limit {
        Some(l) => l as usize,
        None => DEFAULT_BLOCK_LIST_LIMIT,
    }
}

/// The number of output characters a request gets.
pub fn max_output_chars_or_default(max_output_chars: Option<usize>) -> (n: usize)
    ensures
        n == match max_output_chars {
            Some(m) => m,
            None => DEFAULT_MAX_OUTPUT_CHARS,
        },
{
    match max_output_chars {
        Some(m) => m,
        None => DEFAULT_MAX_OUTPUT_CHARS,
    }
}

/// The number of characters kept of a text of `len` characters.
pub open spec fn kept_chars(len: nat, max_chars: nat) -> nat {
    if len <= max_chars {
        len
    } else {
        max_chars
    }
}

/// Keeps at most the last `max_chars` characters of `text`, and says whether
/// any were dropped.
pub fn truncate_from_start(text: String, max_chars: usize) -> (r: (String, bool))
    ensures
        r.0@ == text@.skip(text@.len() - kept_chars(text@.len(), max_chars as nat)),
        r.1 == (text@.len() > max_chars),
{
    let char_count = text.as_str().unicode_len();
    if char_count <= max_chars {
        assert(text@.skip(0) =~= text@);
        return (text, false);
    }
    let kept = text.as_str().substring_char(char_count - max_chars, char_count);
    (owned(kept), true)
}

/// The output fields of a block's JSON: the block's output, kept to at most
/// `max_output_chars` characters from its end, and whether any were dropped.
/// `full_output` is present exactly where output is included; where it is
/// absent there is no output and nothing was dropped.
pub fn block_output(full_output: Option<String>, max_output_chars: usize) -> (r: (
    Option<String>,
    bool,
))
    ensures
        match full_output {
            Some(text) => r.0 matches Some(out) && out@ == text@.skip(
                text@.len() - kept_chars(text@.len(), max_output_chars as nat),
            ) && r.1 == (text@.len() > max_output_chars),
            None => r.0 is None && !r.1,
        },
{
    match full_output {
        Some(text) => {
            let (output, truncated) = truncate_from_start(text, max_output_chars);
            (Some(output), truncated)
        },
        None => (None, false),
    }
}

/// The indices of the blocks a listing may show, in order: all of them, or
/// those not hidden.
pub open spec fn eligible_block_indices(hidden: Seq<bool>, include_hidden: bool) -> Seq<usize> {
    Seq::new(hidden.len(), |i: int| i as usize).filter(
        |i: usize| include_hidden || !hidden[i as int],
    )
}

/// The blocks a listing shows: the last `limit` of the eligible blocks, oldest
/// first.
pub open spec fn spec_block_list_indices(hidden: Seq<bool>, include_hidden: bool, limit: nat) -> Seq<
    usize,
> {
    let eligible = eligible_block_indices(hidden, include_hidden);
    eligible.skip(eligible.len() - kept_chars(eligible.len(), limit))
}

/// The indices of the blocks a listing shows, oldest first: the last `limit`
/// blocks that are not hidden (or of all blocks, with `include_hidden`).
pub fn block_list_indices(hidden: &Vec<bool>, include_hidden: bool, limit: usize) -> (indices: Vec<
    usize,
>)
    ensures
        indices@ == spec_block_list_indices(hidden@, include_hidden, limit as nat),
{
    let ghost all = Seq::new(hidden@.len(), |i: int| i as usize);
    let ghost pred = |i: usize| include_hidden || !hidden@[i as int];
    let mut eligible: Vec<usize> = Vec::new();
    let mut i: usize = 0;
    while i < hidden.len()
        invariant
            i <= hidden@.len(),
            all == Seq::new(hidden@.len(), |i: int| i as usize),
            pred == (|i: usize| include_hidden || !hidden@[i as int]),
            eligible@ == all.take(i as int).filter(pred),
        decreases hidden.len() - i,
    {
        proof {
            reveal_with_fuel(Seq::<_>::filter, 1);
            assert(all.take(i + 1).drop_last() =~= all.take(i as int));
            assert(all.take(i + 1).last() == i);
        }
        if include_hidden || !hidden[i] {
            eligible.push(i);
        }
        i = i + 1;
    }
    assert(all.take(hidden@.len() as int) =~= all);
    assert(eligible@ == eligible_block_indices(hidden@, include_hidden));
    let n = eligible.len();
    let start = if n <= limit {
        0
    } else {
        n - limit
    };
    let mut indices: Vec<usize> = Vec::new();
    let mut j: usize = start;
    while j < n
        invariant
            n == eligible@.len(),
            start <= j <= n,
            indices@ == eligible@.subrange(start as int, j as int),
        decreases n - j,
    {
        indices.push(eligible[j]);
        j = j + 1;
        assert(indices@ =~= eligible@.subrange(start as int, j as int));
    }
    assert(indices@ =~= eligible@.skip(start as int));
    indices
}

/// The message of a block read that resolves no block.
pub open spec fn unresolved_block_message() -> Seq<char> {
    "block.read could not resolve the requested block"@
}

/// The index of the first block whose id is `id`, if any.
pub open spec fn spec_first_block_with_id(ids: Seq<Seq<char>>, id: Seq<char>) -> Option<int> {
    if exists|i: int| 0 <= i < ids.len() && ids[i] == id {
        Some(choose|i: int| 0 <= i < ids.len() && ids[i] == id && forall|j: int| 0 <= j < i ==> ids[j] != id)
    } else {
        None
    }
}

/// The index of the last block that is not hidden, if any.
pub open spec fn spec_last_visible_block(hidden: Seq<bool>) -> Option<int> {
    if exists|i: int| 0 <= i < hidden.len() && !hidden[i] {
        Some(choose|i: int| 0 <= i < hidden.len() && !hidden[i] && forall|j: int| i < j < hidden.len() ==> hidden[j])
    } else {
        None
    }
}

/// The ids of blocks, as character sequences.
pub open spec fn id_views(ids: Seq<String>) -> Seq<Seq<char>> {
    ids.map_values(|s: String| s@)
}

/// The block a block read selects: the first with the requested id; else the
/// one at the requested index, if it exists; else the last visible block.
pub open spec fn spec_selected_block(
    ids: Seq<Seq<char>>,
    hidden: Seq<bool>,
    block_id: Option<Seq<char>>,
    index: Option<u32>,
) -> Option<int> {
    match block_id {
        Some(id) => spec_first_block_with_id(ids, id),
        None => match index {
            Some(ix) => if ix < hidden.len() {
                Some(ix as int)
            } else {
                None
            },
            None => spec_last_visible_block(hidden),
        },
    }
}

/// The first index of `id` among `ids`.
fn first_block_with_id(ids: &Vec<String>, id: &String) -> (r: Option<usize>)
    ensures
        match spec_first_block_with_id(id_views(ids@), id@) {
            Some(i) => r matches Some(j) && j as int == i,
            None => r is None,
        },
        match r {
            Some(i) => i < ids@.len() && ids@[i as int]@ == id@ && forall|j: int|
                0 <= j < i ==> #[trigger] ids@[j]@ != id@,
            None => forall|j: int| 0 <= j < ids@.len() ==> #[trigger] ids@[j]@ != id@,
        },
{
    let ghost views = id_views(ids@);
    assert forall|j: int| 0 <= j < ids@.len() implies #[trigger] views[j] == ids@[j]@ by {}
    let mut i: usize = 0;
    while i < ids.len()
        invariant
            views == id_views(ids@),
            views.len() == ids@.len(),
            forall|j: int| 0 <= j < ids@.len() ==> #[trigger] views[j] == ids@[j]@,
            i <= ids@.len(),
            forall|j: int| 0 <= j < i ==> #[trigger] ids@[j]@ != id@,
        decreases ids.len() - i,
    {
        if str_eq(ids[i].as_str(), id.as_str()) {
            proof {
                assert(views[i as int] == id@);
                assert forall|j: int| 0 <= j < i implies views[j] != id@ by {
                    assert(views[j] == ids@[j]@);
                }
                let c = choose|k: int|
                    0 <= k < views.len() && views[k] == id@ && forall|j: int|
                        0 <= j < k ==> views[j] != id@;
                assert(c == i as int);
            }
            return Some(i);
        }
        i = i + 1;
    }
    assert forall|j: int| 0 <= j < views.len() implies views[j] != id@ by {
        assert(views[j] == ids@[j]@);
    }
    assert(!exists|j: int| 0 <= j < views.len() && views[j] == id@);
    None
}

/// The last index of a block that is not hidden.
fn last_visible_block(hidden: &Vec<bool>) -> (r: Option<usize>)
    ensures
        match spec_last_visible_block(hidden@) {
            Some(i) => r matches Some(j) && j as int == i,
            None => r is None,
        },
        match r {
            Some(i) => i < hidden@.len() && !hidden@[i as int] && forall|j: int|
                i < j < hidden@.len() ==> #[trigger] hidden@[j],
            None => forall|j: int| 0 <= j < hidden@.len() ==> #[trigger] hidden@[j],
        },
{
    let n = hidden.len();
    let mut i: usize = n;
    while i > 0
        invariant
            n == hidden@.len(),
            i <= n,
            forall|j: int| i <= j < n ==> hidden@[j],
        decreases i,
    {
        if !hidden[i - 1] {
            proof {
                let c = choose|k: int|
                    0 <= k < hidden@.len() && !hidden@[k] && forall|j: int|
                        k < j < hidden@.len() ==> hidden@[j];
                assert(c == i - 1);
            }
            return Some(i - 1);
        }
        i = i - 1;
    }
    None
}

/// The index of the block a block read selects (see `spec_selected_block`),
/// or an error where it selects none.
pub fn select_block_to_read(
    ids: &Vec<String>,
    hidden: &Vec<bool>,
    block_id: Option<&String>,
    index: Option<u32>,
) -> (r: Result<usize, ControlError>)
    requires
        ids@.len() == hidden@.len(),
    ensures
        match spec_selected_block(
            id_views(ids@),
            hidden@,
            match block_id {
                Some(id) => Some(id@),
                None => None,
            },
            index,
        ) {
            Some(i) => r matches Ok(j) && j == i,
            None => r matches Err(e) && e.code == ErrorCode::MissingTarget && e.message@
                == unresolved_block_message() && e.details is None,
        },
        match block_id {
            Some(id) => match r {
                Ok(i) => i < ids@.len() && ids@[i as int]@ == id@ && forall|j: int|
                    0 <= j < i ==> #[trigger] ids@[j]@ != id@,
                Err(_) => forall|j: int| 0 <= j < ids@.len() ==> #[trigger] ids@[j]@ != id@,
            },
            None => match index {
                Some(ix) => match r {
                    Ok(i) => i == ix && i < hidden@.len(),
                    Err(_) => ix >= hidden@.len(),
                },
                None => match r {
                    Ok(i) => i < hidden@.len() && !hidden@[i as int] && forall|j: int|
                        i < j < hidden@.len() ==> #[trigger] hidden@[j],
                    Err(_) => forall|j: int| 0 <= j < hidden@.len() ==> #[trigger] hidden@[j],
                },
            },
        },
{
    let n = hidden.len();
    let selected: Option<usize> = match block_id {
        Some(id) => first_block_with_id(ids, id),
        None => match index {
            Some(ix) => {
                if (ix as usize) < n {
                    Some(ix as usize)
                } else {
                    None
                }
            },
            None => last_visible_block(hidden),
        },
    };
    let ghost block_id_view: Option<Seq<char>> = match block_id {
        Some(id) => Some(id@),
        None => None,
    };
    assert(match spec_selected_block(id_views(ids@), hidden@, block_id_view, index) {
        Some(i) => selected matches Some(j) && j as int == i,
        None => selected is None,
    });
    match selected {
        Some(i) => Ok(i),
        None => Err(
            ControlError::new(
                ErrorCode::MissingTarget,
                owned("block.read could not resolve the requested block"),
            ),
        ),
    }
}

/// The eligible indices among the first `m` blocks.
pub open spec fn eligible_prefix(hidden: Seq<bool>, include_hidden: bool, m: nat) -> Seq<usize> {
    Seq::new(m, |i: int| i as usize).filter(|i: usize| include_hidden || !hidden[i as int])
}

proof fn lemma_eligible_prefix(hidden: Seq<bool>, include_hidden: bool, m: nat)
    requires
        m <= hidden.len(),
        hidden.len() <= usize::MAX,
    ensures
        forall|k: int|
            0 <= k < eligible_prefix(hidden, include_hidden, m).len() ==> {
                let b = #[trigger] eligible_prefix(hidden, include_hidden, m)[k];
                &&& b < m
                &&& include_hidden || !hidden[b as int]
            },
        forall|k1: int, k2: int|
            0 <= k1 < k2 < eligible_prefix(hidden, include_hidden, m).len() ==> #[trigger] eligible_prefix(
                hidden,
                include_hidden,
                m,
            )[k1] < #[trigger] eligible_prefix(hidden, include_hidden, m)[k2],
        forall|i: int|
            0 <= i < m && (include_hidden || !hidden[i]) ==> #[trigger] eligible_prefix(
                hidden,
                include_hidden,
                m,
            ).contains(i as usize),
    decreases m,
{
    let pred = |i: usize| include_hidden || !hidden[i as int];
    let all = Seq::new(m, |i: int| i as usize);
    reveal_with_fuel(Seq::<_>::filter, 1);
    if m > 0 {
        let prev = (m - 1) as nat;
        lemma_eligible_prefix(hidden, include_hidden, prev);
        assert(all.drop_last() =~= Seq::new(prev, |i: int| i as usize));
        assert(all.last() == prev as usize);
        let e = eligible_prefix(hidden, include_hidden, m);
        let ep = eligible_prefix(hidden, include_hidden, prev);
        if pred(prev as usize) {
            assert(e == ep.push(prev as usize));
            assert forall|i: int| 0 <= i < m && (include_hidden || !hidden[i]) implies #[trigger] eligible_prefix(
                hidden,
                include_hidden,
                m,
            ).contains(i as usize) by {
                if i == prev {
                    assert(e[e.len() - 1] == i as usize);
                } else {
                    assert(ep.contains(i as usize));
                    let j = choose|j: int| 0 <= j < ep.len() && ep[j] == i as usize;
                    assert(e[j] == i as usize);
                }
            }
        } else {
            assert(e == ep);
            assert forall|i: int| 0 <= i < m && (include_hidden || !hidden[i]) implies #[trigger] eligible_prefix(
                hidden,
                include_hidden,
                m,
            ).contains(i as usize) by {
                assert(i != prev);
                assert(ep.contains(i as usize));
            }
        }
    }
}

/// A block listing shows the most recent eligible blocks, oldest first: it
/// holds `limit` blocks or all eligible ones where there are fewer; each is a
/// block that exists and is not hidden (unless hidden blocks are included);
/// they come in increasing order; and every eligible block newer than the
/// first one listed is listed too.
pub proof fn lemma_block_list_shows_latest_eligible(
    hidden: Seq<bool>,
    include_hidden: bool,
    limit: nat,
)
    requires
        hidden.len() <= usize::MAX,
    ensures
        ({
            let listed = spec_block_list_indices(hidden, include_hidden, limit);
            let eligible = eligible_block_indices(hidden, include_hidden);
            &&& listed.len() == kept_chars(eligible.len(), limit)
            &&& forall|k: int|
                0 <= k < listed.len() ==> #[trigger] listed[k] < hidden.len() && (include_hidden
                    || !hidden[listed[k] as int])
            &&& forall|k1: int, k2: int|
                0 <= k1 < k2 < listed.len() ==> #[trigger] listed[k1] < #[trigger] listed[k2]
            &&& forall|i: int|
                0 <= i < hidden.len() && (include_hidden || !hidden[i]) && listed.len() > 0
                    && listed[0] <= i ==> #[trigger] listed.contains(i as usize)
        }),
{
    lemma_eligible_prefix(hidden, include_hidden, hidden.len());
    let eligible = eligible_block_indices(hidden, include_hidden);
    assert(eligible == eligible_prefix(hidden, include_hidden, hidden.len()));
    let start = eligible.len() - kept_chars(eligible.len(), limit);
    let listed = spec_block_list_indices(hidden, include_hidden, limit);
    assert(listed == eligible.skip(start));
    assert forall|k: int| 0 <= k < listed.len() implies #[trigger] listed[k] < hidden.len() && (
    include_hidden || !hidden[listed[k] as int]) by {
        assert(listed[k] == eligible[k + start]);
    }
    assert forall|k1: int, k2: int| 0 <= k1 < k2 < listed.len() implies #[trigger] listed[k1]
        < #[trigger] listed[k2] by {
        assert(listed[k1] == eligible[k1 + start]);
        assert(listed[k2] == eligible[k2 + start]);
    }
    assert forall|i: int|
        0 <= i < hidden.len() && (include_hidden || !hidden[i]) && listed.len() > 0 && listed[0]
            <= i implies #[trigger] listed.contains(i as usize) by {
        assert(eligible.contains(i as usize));
        let j = choose|j: int| 0 <= j < eligible.len() && eligible[j] == i as usize;
        assert(listed[0] == eligible[start]);
        if j < start {
            assert(eligible[j] < eligible[start]);
        }
        assert(listed[j - start] == i as usize);
    }
}

} // verus!
