use vstd::prelude::*;

verus! {

/// Character-for-character string equality, decided without trusting any
/// derived comparison.
pub fn str_eq(a: &str, b: &str) -> (r: bool)
    ensures
        r == (a@ == b@),
{
    let alen = a.unicode_len();
    let blen = b.unicode_len();
    if alen != blen {
        return false;
    }
    let mut i: usize = 0;
    while i < alen
        invariant
            alen == a@.len(),
            blen == b@.len(),
            alen == blen,
            i <= alen,
            forall|j: int| 0 <= j < i ==> a@[j] == b@[j],
        decreases alen - i,
    {
        if a.get_char(i) != b.get_char(i) {
            assert(a@[i as int] != b@[i as int]);
            return false;
        }
        i = i + 1;
    }
    proof {
        assert(a@ =~= b@);
    }
    true
}

/// Does `n` occur in `h` as a contiguous run of characters starting at `k`?
pub open spec fn spec_match_at(h: Seq<char>, n: Seq<char>, k: int) -> bool {
    0 <= k && k + n.len() <= h.len() && h.subrange(k, k + n.len() as int) == n
}

/// Does `n` occur anywhere in `h`?
pub open spec fn spec_contains_str(h: Seq<char>, n: Seq<char>) -> bool {
    exists|k: int| spec_match_at(h, n, k)
}

fn match_at(h: &str, n: &str, k: usize, hlen: usize, nlen: usize) -> (r: bool)
    requires
        hlen == h@.len(),
        nlen == n@.len(),
        k + nlen <= hlen,
    ensures
        r == spec_match_at(h@, n@, k as int),
{
    let mut i: usize = 0;
    while i < nlen
        invariant
            hlen == h@.len(),
            nlen == n@.len(),
            k + nlen <= hlen,
            i <= nlen,
            forall|j: int| 0 <= j < i ==> h@[k + j] == n@[j],
        decreases nlen - i,
    {
        if h.get_char(k + i) != n.get_char(i) {
            assert(h@[k + i as int] != n@[i as int]);
            assert(!spec_match_at(h@, n@, k as int)) by {
                if h@.subrange(k as int, k + n@.len() as int) == n@ {
                    assert(h@.subrange(k as int, k + n@.len() as int)[i as int] == n@[i as int]);
                }
            }
            return false;
        }
        i = i + 1;
    }
    proof {
        assert(h@.subrange(k as int, k + n@.len() as int) =~= n@);
    }
    true
}

/// Substring search: true exactly when `n` occurs contiguously in `h`.
pub fn str_contains(h: &str, n: &str) -> (r: bool)
    ensures
        r == spec_contains_str(h@, n@),
{
    let hlen = h.unicode_len();
    let nlen = n.unicode_len();
    if nlen > hlen {
        proof {
            assert(!spec_contains_str(h@, n@)) by {
                if exists|k: int| spec_match_at(h@, n@, k) {
                    let k = choose|k: int| spec_match_at(h@, n@, k);
                }
            }
        }
        return false;
    }
    if nlen == 0 {
        proof {
            assert(h@.subrange(0, 0) =~= n@);
            assert(spec_match_at(h@, n@, 0));
        }
        return true;
    }
    let mut k: usize = 0;
    while k <= hlen - nlen
        invariant
            hlen == h@.len(),
            nlen == n@.len(),
            nlen <= hlen,
            1 <= nlen,
            k <= hlen - nlen + 1,
            forall|j: int| 0 <= j < k ==> !spec_match_at(h@, n@, j),
        decreases hlen - nlen - k + 1,
    {
        if match_at(h, n, k, hlen, nlen) {
            return true;
        }
        k = k + 1;
    }
    proof {
        assert(!spec_contains_str(h@, n@)) by {
            if exists|j: int| spec_match_at(h@, n@, j) {
                let j = choose|j: int| spec_match_at(h@, n@, j);
                assert(j < k);
            }
        }
    }
    false
}

/// The raw scan behind `find_convert_string`: walk the text left to right;
/// a `#` or `$` directly followed by `{` opens a marker, the next `}`
/// closes it, and each closed marker yields the pair
/// (text between the braces, whole marker including the leading sigil).
pub open spec fn spec_scan_markers(s: Seq<char>, i: int, last: Option<int>) -> Seq<
    (Seq<char>, Seq<char>),
>
    decreases s.len() - i when 0 <= i <= s.len()
{
    if i >= s.len() {
        Seq::empty()
    } else if last is None {
        if (s[i] == '#' || s[i] == '$') && i + 1 < s.len() && s[i + 1] == '{' {
            spec_scan_markers(s, i + 1, Some(i))
        } else {
            spec_scan_markers(s, i + 1, None)
        }
    } else {
        if s[i] == '}' {
            seq![(s.subrange(last->0 + 2, i), s.subrange(last->0, i + 1))] + spec_scan_markers(
                s,
                i + 1,
                None,
            )
        } else {
            spec_scan_markers(s, i + 1, last)
        }
    }
}

/// Keep only the first pair for each distinct inner text.
pub open spec fn spec_dedup_keys(
    pairs: Seq<(Seq<char>, Seq<char>)>,
    seen: Set<Seq<char>>,
) -> Seq<(Seq<char>, Seq<char>)>
    decreases pairs.len(),
{
    if pairs.len() == 0 {
        Seq::empty()
    } else if seen.contains(pairs[0].0) {
        spec_dedup_keys(pairs.drop_first(), seen)
    } else {
        seq![pairs[0]] + spec_dedup_keys(pairs.drop_first(), seen.insert(pairs[0].0))
    }
}

/// What `find_convert_string` returns, as pairs of character sequences.
pub open spec fn spec_find_convert_string(s: Seq<char>) -> Seq<(Seq<char>, Seq<char>)> {
    spec_dedup_keys(spec_scan_markers(s, 0, None), Set::empty())
}

/// The views of the pairs held in the result vector.
pub open spec fn pairs_view(v: Seq<(String, String)>) -> Seq<(Seq<char>, Seq<char>)> {
    v.map_values(|p: (String, String)| (p.0@, p.1@))
}

/// The set of inner texts already collected.
pub open spec fn keys_of(v: Seq<(Seq<char>, Seq<char>)>) -> Set<Seq<char>> {
    Set::new(|k: Seq<char>| exists|j: int| 0 <= j < v.len() && v[j].0 == k)
}

/// Find every `#{name}` and `${name}` marker in `arg`, left to right,
/// keeping the first occurrence of each distinct `name`. Each returned
/// pair holds the inner text and the whole marker.
pub fn find_convert_string(arg: &str) -> (list: Vec<(String, String)>)
    ensures
        pairs_view(list@) == spec_find_convert_string(arg@),
{
    let len = arg.unicode_len();
    let mut list: Vec<(String, String)> = Vec::new();
    let mut i: usize = 0;
    let mut last: usize = 0;
    let mut open = false;
    proof {
        assert(keys_of(pairs_view(list@)) =~= Set::<Seq<char>>::empty());
        assert(pairs_view(list@) + spec_dedup_keys(
            spec_scan_markers(arg@, 0, None),
            Set::empty(),
        ) =~= spec_dedup_keys(spec_scan_markers(arg@, 0, None), Set::empty()));
    }
    while i < len
        invariant
            len == arg@.len(),
            i <= len,
            open ==> last < i && last + 1 < len && arg@[last as int + 1] == '{' && (arg@[last as int] == '#' || arg@[last as int] == '$'),
            pairs_view(list@).len() == list@.len(),
            forall|a: int, b: int|
                0 <= a < b < list@.len() ==> #[trigger] list@[a].0@ != #[trigger] list@[b].0@,
            spec_find_convert_string(arg@) == pairs_view(list@) + spec_dedup_keys(
                spec_scan_markers(arg@, i as int, if open { Some(last as int) } else { None }),
                keys_of(pairs_view(list@)),
            ),
        decreases len - i,
    {
        let c = arg.get_char(i);
        if !open && (c == '#' || c == '$') {
            if i + 1 < len && arg.get_char(i + 1) == '{' {
                last = i;
                open = true;
            }
        } else if c == '}' && open {
            let item = arg.substring_char(last + 2, i).to_owned();
            let value = arg.substring_char(last, i + 1).to_owned();
            let mut dup = false;
            let mut j: usize = 0;
            while j < list.len()
                invariant
                    j <= list@.len(),
                    dup == exists|a: int| 0 <= a < j && list@[a].0@ == item@,
                decreases list@.len() - j,
            {
                if str_eq(list[j].0.as_str(), item.as_str()) {
                    dup = true;
                }
                j = j + 1;
            }
            proof {
                assert(dup == keys_of(pairs_view(list@)).contains(item@)) by {
                    if dup {
                        let a = choose|a: int| 0 <= a < list@.len() && list@[a].0@ == item@;
                        assert(pairs_view(list@)[a].0 == item@);
                    }
                    if keys_of(pairs_view(list@)).contains(item@) {
                        let a = choose|a: int|
                            0 <= a < pairs_view(list@).len() && pairs_view(list@)[a].0 == item@;
                        assert(list@[a].0@ == item@);
                    }
                }
                let p = (item@, value@);
                let rest = spec_scan_markers(arg@, i + 1, None);
                assert((seq![p] + rest)[0] == p);
                assert((seq![p] + rest).drop_first() =~= rest);
            }
            if !dup {
                let ghost old_list = list@;
                list.push((item, value));
                proof {
                    assert(pairs_view(list@) =~= pairs_view(old_list) + seq![(item@, value@)]);
                    let newkeys = keys_of(pairs_view(list@));
                    let oldkeys = keys_of(pairs_view(old_list));
                    assert(newkeys =~= oldkeys.insert(item@)) by {
                        assert forall|k: Seq<char>| newkeys.contains(k) implies oldkeys.insert(
                            item@,
                        ).contains(k) by {
                            let j = choose|j: int|
                                0 <= j < pairs_view(list@).len() && pairs_view(list@)[j].0 == k;
                            if j < old_list.len() {
                                assert(pairs_view(old_list)[j].0 == k);
                            } else {
                                assert(k == item@);
                            }
                        }
                        assert forall|k: Seq<char>|
                            oldkeys.insert(item@).contains(k) implies newkeys.contains(k) by {
                            if k == item@ {
                                assert(pairs_view(list@)[old_list.len() as int].0 == k);
                            } else {
                                let j = choose|j: int|
                                    0 <= j < pairs_view(old_list).len() && pairs_view(old_list)[j].0
                                        == k;
                                assert(pairs_view(list@)[j].0 == k);
                            }
                        }
                    }
                    assert(pairs_view(old_list) + seq![(item@, value@)] + spec_dedup_keys(
                        spec_scan_markers(arg@, i + 1, None),
                        keys_of(pairs_view(list@)),
                    ) =~= pairs_view(old_list) + (seq![(item@, value@)] + spec_dedup_keys(
                        spec_scan_markers(arg@, i + 1, None),
                        keys_of(pairs_view(list@)),
                    )));
                }
            }
            open = false;
        }
        i = i + 1;
    }
    proof {
        assert(pairs_view(list@) + Seq::<(Seq<char>, Seq<char>)>::empty() =~= pairs_view(list@));
    }
    list
}

/// Number of occurrences of `c` in `s`.
pub open spec fn spec_count_char(s: Seq<char>, c: char) -> nat
    decreases s.len(),
{
    if s.len() == 0 {
        0
    } else {
        spec_count_char(s.drop_last(), c) + if s.last() == c {
            1nat
        } else {
            0nat
        }
    }
}

/// Count how many times character `c` occurs in `s`.
pub fn count_string_num(s: &String, c: char) -> (num: usize)
    ensures
        num == spec_count_char(s@, c),
{
    let slice = s.as_str();
    let len = slice.unicode_len();
    let mut num: usize = 0;
    let mut i: usize = 0;
    while i < len
        invariant
            len == slice@.len(),
            slice@ == s@,
            i <= len,
            num <= i,
            num == spec_count_char(s@.subrange(0, i as int), c),
        decreases len - i,
    {
        proof {
            assert(s@.subrange(0, i + 1).drop_last() =~= s@.subrange(0, i as int));
        }
        if slice.get_char(i) == c {
            num = num + 1;
        }
        i = i + 1;
    }
    proof {
        assert(s@.subrange(0, s@.len() as int) =~= s@);
    }
    num
}

/// What `un_packing_string` strips: one matching pair of `'`, backtick or
/// `"` quotes around the whole text, if present.
pub open spec fn spec_un_packing(s: Seq<char>) -> Seq<char> {
    if s.len() >= 2 && ((s.first() == '\'' && s.last() == '\'') || (s.first() == '`' && s.last()
        == '`') || (s.first() == '"' && s.last() == '"')) {
        s.subrange(1, s.len() - 1)
    } else {
        s
    }
}

/// Strip one pair of enclosing quotes from a column name, if present.
pub fn un_packing_string(column: &str) -> (r: &str)
    ensures
        r@ == spec_un_packing(column@),
{
    let len = column.unicode_len();
    if len >= 2 {
        let first = column.get_char(0);
        let last = column.get_char(len - 1);
        if (first == '\'' && last == '\'') || (first == '`' && last == '`') || (first == '"' && last
            == '"') {
            return column.substring_char(1, len - 1);
        }
    }
    column
}


/// Does `h` begin with `n`?
pub fn str_starts_with(h: &str, n: &str) -> (r: bool)
    ensures
        r == spec_match_at(h@, n@, 0),
{
    let hlen = h.unicode_len();
    let nlen = n.unicode_len();
    if nlen > hlen {
        return false;
    }
    match_at(h, n, 0, hlen, nlen)
}

/// Does `h` end with `n`?
pub fn str_ends_with(h: &str, n: &str) -> (r: bool)
    ensures
        r == (n@.len() <= h@.len() && spec_match_at(h@, n@, h@.len() - n@.len())),
{
    let hlen = h.unicode_len();
    let nlen = n.unicode_len();
    if nlen > hlen {
        return false;
    }
    match_at(h, n, hlen - nlen, hlen, nlen)
}

} // verus!
