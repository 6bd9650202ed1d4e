//! Fractional-indexing ordering keys.
//!
//! List members carry string keys whose lexicographic order is their display
//! order.  Inserting or moving a member only ever computes one fresh key that
//! falls strictly between its two neighbours, so no other key is rewritten.
//! Keys are lowercase `a`..`z` strings; the empty string stands for "no
//! bound" (minus infinity as a lower bound, plus infinity as an upper one).

use vstd::prelude::*;

verus! {

/// Characters admitted in ordering keys: lowercase ASCII letters.
pub open spec fn key_char(c: char) -> bool {
    97 <= (c as u32) && (c as u32) <= 122
}

/// Every character of `s` is a key character.
pub open spec fn key_chars(s: Seq<char>) -> bool {
    forall|i: int| 0 <= i < s.len() ==> key_char(#[trigger] s[i])
}

/// A key that may serve as an upper bound for later insertions: non-empty,
/// over the key alphabet, and not ending in `a` (a key ending in the lowest
/// letter leaves no room for a key strictly below it with the same prefix).
pub open spec fn valid_key(s: Seq<char>) -> bool {
    key_chars(s) && s.len() > 0 && (s[s.len() - 1] as u32) != 97
}

/// Strict lexicographic order on character sequences.
pub open spec fn lex_lt(a: Seq<char>, b: Seq<char>) -> bool
    decreases a.len(),
{
    if b.len() == 0 {
        false
    } else if a.len() == 0 {
        true
    } else if (a[0] as u32) < (b[0] as u32) {
        true
    } else if (b[0] as u32) < (a[0] as u32) {
        false
    } else {
        lex_lt(a.skip(1), b.skip(1))
    }
}

/// Lexicographic order is transitive.
pub proof fn lemma_lex_lt_trans(a: Seq<char>, b: Seq<char>, c: Seq<char>)
    requires
        lex_lt(a, b),
        lex_lt(b, c),
    ensures
        lex_lt(a, c),
    decreases a.len() + b.len() + c.len(),
{
    if c.len() == 0 || b.len() == 0 {
        // lex_lt(b, c) forces c non-empty, and lex_lt(a, b) forces b non-empty
    } else if a.len() == 0 {
    } else {
        if (a[0] as u32) < (b[0] as u32) {
            if (b[0] as u32) <= (c[0] as u32) {
            }
        } else if (a[0] as u32) == (b[0] as u32) {
            if (b[0] as u32) < (c[0] as u32) {
            } else {
                lemma_lex_lt_trans(a.skip(1), b.skip(1), c.skip(1));
            }
        }
    }
}

/// Law: appending a key strictly above the current last key keeps the
/// key sequence strictly increasing, so repeated appends against an open
/// upper bound produce an ever-growing strictly increasing sequence.
pub proof fn lemma_append_keeps_sorted(ks: Seq<Seq<char>>, k: Seq<char>)
    requires
        forall|i: int, j: int| 0 <= i < j < ks.len() ==> lex_lt(#[trigger] ks[i], #[trigger] ks[j]),
        ks.len() > 0 ==> lex_lt(ks[ks.len() - 1], k),
    ensures
        forall|i: int, j: int|
            0 <= i < j < ks.push(k).len() ==> lex_lt(
                #[trigger] ks.push(k)[i],
                #[trigger] ks.push(k)[j],
            ),
{
    assert forall|i: int, j: int| 0 <= i < j < ks.push(k).len() implies lex_lt(
        ks.push(k)[i],
        ks.push(k)[j],
    ) by {
        if j == ks.len() {
            if i < ks.len() - 1 {
                lemma_lex_lt_trans(ks[i], ks[ks.len() - 1], k);
            }
        }
    }
}

/// The bounds that `midpoint` accepts: both strings over the key alphabet,
/// and either no upper bound at all, or an upper bound that leaves room and
/// lies strictly above the lower bound.
pub open spec fn midpoint_inputs_ok(low: Seq<char>, high: Seq<char>) -> bool {
    &&& key_chars(low)
    &&& key_chars(high)
    &&& (high.len() == 0 || (valid_key(high) && lex_lt(low, high)))
}

/// The key that midstring computes strictly between two bounds.
pub uninterp spec fn mid_of(low: Seq<char>, high: Seq<char>) -> Seq<char>;

/// Relies on midstring::mid_string: for lowercase `a`..`z` inputs with
/// `low < high` (or `high` empty, meaning unbounded above, with `high` never
/// ending in `a`), it returns a lowercase string strictly between the two in
/// lexicographic order; the result is non-empty, never ends in `a`, and
/// depends on the two bounds alone (no hidden counter or other state), so
/// concurrent callers converge on the same key for the same bounds.
#[verifier::external_body]
fn mid_string_between(low: &str, high: &str) -> (r: String)
    requires
        midpoint_inputs_ok(low@, high@),
    ensures
        r@ == mid_of(low@, high@),
        lex_lt(low@, r@),
        high@.len() > 0 ==> lex_lt(r@, high@),
        valid_key(r@),
{
    midstring::mid_string(low, high)
}

/// Whether every character of `s` is a key character, decided at run time.
pub fn is_key_str(s: &str) -> (r: bool)
    ensures
        r == key_chars(s@),
{
    let n = s.unicode_len();
    let mut i: usize = 0;
    while i < n
        invariant
            0 <= i <= n,
            n == s@.len(),
            forall|j: int| 0 <= j < i ==> key_char(#[trigger] s@[j]),
        decreases n - i,
    {
        let c = s.get_char(i);
        if (c as u32) < 97 || (c as u32) > 122 {
            return false;
        }
        i += 1;
    }
    true
}

proof fn lemma_skip_one_more(s: Seq<char>, i: int)
    requires
        0 <= i < s.len(),
    ensures
        s.skip(i).skip(1) =~= s.skip(i + 1),
        s.skip(i).len() == s.len() - i,
        s.skip(i)[0] == s[i],
{
}

/// Strict lexicographic comparison of two strings, decided at run time.
pub fn str_lt(a: &str, b: &str) -> (r: bool)
    ensures
        r == lex_lt(a@, b@),
{
    let na = a.unicode_len();
    let nb = b.unicode_len();
    proof {
        assert(a@.skip(0) =~= a@);
        assert(b@.skip(0) =~= b@);
    }
    let mut i: usize = 0;
    while i < na && i < nb
        invariant
            0 <= i <= na,
            0 <= i <= nb,
            na == a@.len(),
            nb == b@.len(),
            lex_lt(a@, b@) == lex_lt(a@.skip(i as int), b@.skip(i as int)),
        decreases na - i,
    {
        let ca = a.get_char(i);
        let cb = b.get_char(i);
        proof {
            lemma_skip_one_more(a@, i as int);
            lemma_skip_one_more(b@, i as int);
        }
        if (ca as u32) < (cb as u32) {
            return true;
        }
        if (cb as u32) < (ca as u32) {
            return false;
        }
        i += 1;
    }
    proof {
        if i < nb {
            lemma_skip_one_more(b@, i as int);
        }
        if i < na {
            lemma_skip_one_more(a@, i as int);
        }
    }
    i < nb
}

/// Fractional-indexing primitive: a key strictly between `low` and `high`.
///
/// An empty `low` means "no lower bound" and an empty `high` means "no upper
/// bound".  Malformed or inverted bounds are rejected rather than silently
/// producing an unordered key.
pub fn midpoint(low: &str, high: &str) -> (r: Result<String, String>)
    ensures
        r is Ok <==> midpoint_inputs_ok(low@, high@),
        r matches Ok(k) ==> k@ == mid_of(low@, high@) && lex_lt(low@, k@) && (high@.len() > 0
            ==> lex_lt(k@, high@)) && valid_key(k@),
{
    if !is_key_str(low) {
        return Err(String::from_str("invalid lower bound key"));
    }
    let nh = high.unicode_len();
    if nh > 0 {
        if !is_key_str(high) {
            return Err(String::from_str("invalid upper bound key"));
        }
        let last = high.get_char(nh - 1);
        if (last as u32) == 97 {
            return Err(String::from_str("upper bound key leaves no room"));
        }
        if !str_lt(low, high) {
            return Err(String::from_str("inverted ordering bounds"));
        }
    }
    Ok(mid_string_between(low, high))
}

/// The key stored at position `i`, with a missing key read as the empty
/// string (the implicit "no bound" sentinel).
pub open spec fn key_view_at(keys: Seq<Option<String>>, i: int) -> Seq<char> {
    match keys[i] {
        Some(s) => s@,
        None => Seq::empty(),
    }
}

/// Whether position `j` holds exactly the key `k`.
pub open spec fn entry_matches(keys: Seq<Option<String>>, j: int, k: Seq<char>) -> bool {
    match keys[j] {
        Some(s) => s@ == k,
        None => false,
    }
}

/// No position of `keys` holds the key `k`.
pub open spec fn no_key_match(keys: Seq<Option<String>>, k: Seq<char>) -> bool {
    forall|j: int| 0 <= j < keys.len() ==> !entry_matches(keys, j, k)
}

/// `p` is the first position of `keys` holding the key `k`.
pub open spec fn is_first_match(keys: Seq<Option<String>>, k: Seq<char>, p: int) -> bool {
    &&& 0 <= p < keys.len()
    &&& entry_matches(keys, p, k)
    &&& forall|j: int| 0 <= j < p ==> !entry_matches(keys, j, k)
}

/// First position holding exactly the key `key`, if any.
pub fn position_of_key(keys: &Vec<Option<String>>, key: &String) -> (r: Option<usize>)
    ensures
        r matches Some(i) ==> is_first_match(keys@, key@, i as int),
        r is None ==> no_key_match(keys@, key@),
{
    let n = keys.len();
    let mut i: usize = 0;
    while i < n
        invariant
            0 <= i <= n,
            n == keys@.len(),
            forall|j: int| 0 <= j < i ==> !entry_matches(keys@, j, key@),
        decreases n - i,
    {
        let hit = match &keys[i] {
            Some(s) => s.eq(key),
            None => false,
        };
        if hit {
            return Some(i);
        }
        i += 1;
    }
    None
}

/// The key at position `i` as a string, with a missing key read as empty.
fn bound_at(keys: &Vec<Option<String>>, i: usize) -> (r: String)
    requires
        i < keys@.len(),
    ensures
        r@ == key_view_at(keys@, i as int),
{
    match &keys[i] {
        Some(s) => s.clone(),
        None => String::new(),
    }
}

/// True when some member of the list is missing its ordering key, so the
/// whole list needs renormalization.
pub fn needs_reordering(keys: &Vec<Option<String>>) -> (r: bool)
    ensures
        r == exists|i: int| 0 <= i < keys@.len() && keys@[i] is None,
{
    let n = keys.len();
    let mut i: usize = 0;
    while i < n
        invariant
            0 <= i <= n,
            n == keys@.len(),
            forall|j: int| 0 <= j < i ==> keys@[j] is Some,
        decreases n - i,
    {
        if keys[i].is_none() {
            return true;
        }
        i += 1;
    }
    false
}

/// The key that renormalization assigns to position `i`: the first fresh
/// key is the midpoint of the open interval, and each further one the
/// midpoint above its predecessor.
pub open spec fn nth_renormalized_key(i: int) -> Seq<char>
    decreases i,
{
    if i <= 0 {
        mid_of(Seq::empty(), Seq::empty())
    } else {
        mid_of(nth_renormalized_key(i - 1), Seq::empty())
    }
}

/// Renormalization: assign every position a fresh key, in current sequence
/// order, via repeated midpoints against an open upper bound.  The list is
/// resequenced, never resorted: position `i` keeps the member it had, only
/// its key changes, and the fresh keys are strictly increasing and the
/// same on every run.
pub fn new_ordering(keys: &mut Vec<Option<String>>)
    ensures
        final(keys)@.len() == old(keys)@.len(),
        forall|i: int| 0 <= i < final(keys)@.len() ==> final(keys)@[i] is Some,
        forall|i: int| 0 <= i < final(keys)@.len() ==> valid_key(key_view_at(final(keys)@, i)),
        forall|i: int|
            0 <= i < final(keys)@.len() ==> key_view_at(final(keys)@, i)
                == nth_renormalized_key(i),
        forall|i: int, j: int|
            0 <= i < j < final(keys)@.len() ==> lex_lt(
                key_view_at(final(keys)@, i),
                key_view_at(final(keys)@, j),
            ),
{
    proof {
        reveal_strlit("");
        assert(""@ =~= Seq::<char>::empty());
    }
    let n = keys.len();
    let mut top = String::new();
    let mut i: usize = 0;
    while i < n
        invariant
            0 <= i <= n,
            n == keys@.len(),
            key_chars(top@),
            i == 0 ==> top@ == Seq::<char>::empty(),
            i > 0 ==> top@ == key_view_at(keys@, i - 1),
            i > 0 ==> top@ == nth_renormalized_key(i - 1),
            forall|j: int| 0 <= j < i ==> keys@[j] is Some,
            forall|j: int| 0 <= j < i ==> valid_key(key_view_at(keys@, j)),
            forall|j: int| 0 <= j < i ==> key_view_at(keys@, j) == nth_renormalized_key(j),
            forall|j1: int, j2: int|
                0 <= j1 < j2 < i ==> lex_lt(key_view_at(keys@, j1), key_view_at(keys@, j2)),
        decreases n - i,
    {
        proof {
            reveal_strlit("");
            assert(""@ =~= Seq::<char>::empty());
        }
        let new_key = match midpoint(top.as_str(), "") {
            Ok(k) => k,
            Err(_) => vstd::pervasive::unreached(),
        };
        let ghost prev = keys@;
        keys.set(i, Some(new_key.clone()));
        proof {
            assert(new_key@ == nth_renormalized_key(i as int));
            assert forall|j: int| 0 <= j < i + 1 implies valid_key(key_view_at(keys@, j)) by {
                if j < i {
                    assert(key_view_at(prev, j) == key_view_at(keys@, j));
                }
            }
            assert forall|j: int|
                0 <= j < i + 1 implies key_view_at(keys@, j) == nth_renormalized_key(j) by {
                if j < i {
                    assert(key_view_at(prev, j) == key_view_at(keys@, j));
                }
            }
            assert forall|j1: int, j2: int| 0 <= j1 < j2 < i + 1 implies lex_lt(
                key_view_at(keys@, j1),
                key_view_at(keys@, j2),
            ) by {
                assert(key_view_at(prev, j1) == key_view_at(keys@, j1));
                if j2 < i {
                    assert(key_view_at(prev, j2) == key_view_at(keys@, j2));
                } else {
                    if j1 < i - 1 {
                        lemma_lex_lt_trans(
                            key_view_at(keys@, j1),
                            key_view_at(keys@, i - 1),
                            new_key@,
                        );
                    }
                }
            }
        }
        top = new_key;
        i += 1;
    }
}

/// The bounds that a move-up at position `p >= 1` inserts between: the keys
/// two above and one above, the former read as "no bound" for `p == 1`.
pub open spec fn move_up_bounds(keys: Seq<Option<String>>, p: int) -> (Seq<char>, Seq<char>) {
    if p == 1 {
        (Seq::empty(), key_view_at(keys, 0))
    } else {
        (key_view_at(keys, p - 2), key_view_at(keys, p - 1))
    }
}

/// What a move-up returns when the moved key sits at position `p`: the key
/// itself for the first position, else a key strictly between the move-up
/// bounds, or a rejection when those bounds are malformed or inverted.
pub open spec fn move_up_post(
    keys: Seq<Option<String>>,
    k: Seq<char>,
    p: int,
    r: Result<String, String>,
) -> bool {
    if p == 0 {
        r matches Ok(nk) && nk@ == k
    } else {
        let (lo, hi) = move_up_bounds(keys, p);
        &&& (r is Ok <==> midpoint_inputs_ok(lo, hi))
        &&& (r matches Ok(nk) ==> nk@ == mid_of(lo, hi) && lex_lt(lo, nk@) && (hi.len() > 0
            ==> lex_lt(nk@, hi)) && valid_key(nk@))
    }
}

/// New key for moving the member with key `key` up one slot: strictly
/// between the keys two above and one above it, so the member lands just
/// above its former predecessor.  A first member keeps its own key.
pub fn generate_key_for_move_up_with_key(
    keys: &Vec<Option<String>>,
    key: &String,
) -> (r: Result<String, String>)
    ensures
        no_key_match(keys@, key@) ==> r is Err,
        forall|p: int| is_first_match(keys@, key@, p) ==> move_up_post(keys@, key@, p, r),
{
    proof {
        reveal_strlit("");
        assert(""@ =~= Seq::<char>::empty());
    }
    match position_of_key(keys, key) {
        None => Err(String::from_str("invalid key")),
        Some(pos) => {
            if pos == 0 {
                Ok(key.clone())
            } else if pos == 1 {
                let hi = bound_at(keys, 0);
                midpoint("", hi.as_str())
            } else {
                let lo = bound_at(keys, pos - 2);
                let hi = bound_at(keys, pos - 1);
                midpoint(lo.as_str(), hi.as_str())
            }
        },
    }
}

/// The bounds that a move-down at position `p <= len - 2` inserts between:
/// the keys one below and two below, the latter read as "no bound" for the
/// next-to-last position.
pub open spec fn move_down_bounds(keys: Seq<Option<String>>, p: int) -> (Seq<char>, Seq<char>) {
    if p == keys.len() - 2 {
        (key_view_at(keys, p + 1), Seq::empty())
    } else {
        (key_view_at(keys, p + 1), key_view_at(keys, p + 2))
    }
}

/// What a move-down returns when the moved key sits at position `p`.
pub open spec fn move_down_post(
    keys: Seq<Option<String>>,
    k: Seq<char>,
    p: int,
    r: Result<String, String>,
) -> bool {
    if p == keys.len() - 1 {
        r matches Ok(nk) && nk@ == k
    } else {
        let (lo, hi) = move_down_bounds(keys, p);
        &&& (r is Ok <==> midpoint_inputs_ok(lo, hi))
        &&& (r matches Ok(nk) ==> nk@ == mid_of(lo, hi) && lex_lt(lo, nk@) && (hi.len() > 0
            ==> lex_lt(nk@, hi)) && valid_key(nk@))
    }
}

/// New key for moving the member with key `key` down one slot: strictly
/// between the keys one below and two below it.  A last member keeps its
/// own key.
pub fn generate_key_for_move_down_with_key(
    keys: &Vec<Option<String>>,
    key: &String,
) -> (r: Result<String, String>)
    ensures
        no_key_match(keys@, key@) ==> r is Err,
        forall|p: int| is_first_match(keys@, key@, p) ==> move_down_post(keys@, key@, p, r),
{
    proof {
        reveal_strlit("");
        assert(""@ =~= Seq::<char>::empty());
    }
    let length = keys.len();
    match position_of_key(keys, key) {
        None => Err(String::from_str("invalid key")),
        Some(pos) => {
            if pos == length - 1 {
                Ok(key.clone())
            } else if pos == length - 2 {
                let lo = bound_at(keys, pos + 1);
                midpoint(lo.as_str(), "")
            } else {
                let lo = bound_at(keys, pos + 1);
                let hi = bound_at(keys, pos + 2);
                midpoint(lo.as_str(), hi.as_str())
            }
        },
    }
}

/// What inserting directly after the member with key `k` at position `p`
/// returns: a key strictly between `k` and the key below it, the latter
/// read as "no bound" below the last member; a missing key below is
/// rejected.
pub open spec fn after_key_post(
    keys: Seq<Option<String>>,
    k: Seq<char>,
    p: int,
    r: Result<String, String>,
) -> bool {
    if p < keys.len() - 1 && keys[p + 1] is None {
        r is Err
    } else {
        let hi = if p == keys.len() - 1 {
            Seq::<char>::empty()
        } else {
            key_view_at(keys, p + 1)
        };
        &&& (r is Ok <==> midpoint_inputs_ok(k, hi))
        &&& (r matches Ok(nk) ==> nk@ == mid_of(k, hi) && lex_lt(k, nk@) && (hi.len() > 0
            ==> lex_lt(nk@, hi)) && valid_key(nk@))
    }
}

/// New key for inserting a member directly after the member with key `key`.
pub fn generate_key_for_after_key(
    keys: &Vec<Option<String>>,
    key: &String,
) -> (r: Result<String, String>)
    ensures
        no_key_match(keys@, key@) ==> r is Err,
        forall|p: int| is_first_match(keys@, key@, p) ==> after_key_post(keys@, key@, p, r),
{
    proof {
        reveal_strlit("");
        assert(""@ =~= Seq::<char>::empty());
    }
    let length = keys.len();
    match position_of_key(keys, key) {
        None => Err(String::from_str("invalid id or key")),
        Some(pos) => {
            if pos == length - 1 {
                midpoint(key.as_str(), "")
            } else {
                match &keys[pos + 1] {
                    None => Err(String::from_str("invalid key")),
                    Some(next) => {
                        let hi = next.clone();
                        midpoint(key.as_str(), hi.as_str())
                    },
                }
            }
        },
    }
}

/// New key for appending a member after the current last member; the last
/// key is read as "no bound below anything" when the list is empty, and a
/// missing last key as the empty string.
pub fn generate_append_key(keys: &Vec<Option<String>>) -> (r: Result<String, String>)
    ensures
        ({
            let lo = if keys@.len() == 0 {
                Seq::<char>::empty()
            } else {
                key_view_at(keys@, keys@.len() - 1)
            };
            &&& (r is Ok <==> key_chars(lo))
            &&& (r matches Ok(nk) ==> nk@ == mid_of(lo, Seq::empty()) && lex_lt(lo, nk@)
                && valid_key(nk@))
        }),
{
    proof {
        reveal_strlit("");
        assert(""@ =~= Seq::<char>::empty());
    }
    let n = keys.len();
    if n == 0 {
        midpoint("", "")
    } else {
        let lo = bound_at(keys, n - 1);
        midpoint(lo.as_str(), "")
    }
}

/// What reordering a member from `src` to `dest` returns, for in-range and
/// distinct indices: a key strictly between the two keys adjacent to the
/// destination slot, with the empty sentinel at either end of the list; a
/// missing key at a needed position is rejected.
pub open spec fn reorder_post(
    keys: Seq<Option<String>>,
    src: int,
    dest: int,
    r: Result<String, String>,
) -> bool {
    if dest == 0 {
        if keys[0] is None {
            r is Err
        } else {
            let hi = key_view_at(keys, 0);
            &&& (r is Ok <==> midpoint_inputs_ok(Seq::empty(), hi))
            &&& (r matches Ok(nk) ==> nk@ == mid_of(Seq::empty(), hi) && (hi.len() > 0
                ==> lex_lt(nk@, hi)) && valid_key(nk@))
        }
    } else if dest == keys.len() - 1 {
        if keys[dest] is None {
            r is Err
        } else {
            let lo = key_view_at(keys, dest);
            &&& (r is Ok <==> key_chars(lo))
            &&& (r matches Ok(nk) ==> nk@ == mid_of(lo, Seq::empty()) && lex_lt(lo, nk@)
                && valid_key(nk@))
        }
    } else {
        let lo_i = if dest < src { dest - 1 } else { dest };
        let hi_i = if dest < src { dest } else { dest + 1 };
        if keys[lo_i] is None || keys[hi_i] is None {
            r is Err
        } else {
            let lo = key_view_at(keys, lo_i);
            let hi = key_view_at(keys, hi_i);
            &&& (r is Ok <==> midpoint_inputs_ok(lo, hi))
            &&& (r matches Ok(nk) ==> nk@ == mid_of(lo, hi) && lex_lt(lo, nk@) && (hi.len() > 0
                ==> lex_lt(nk@, hi)) && valid_key(nk@))
        }
    }
}

/// New key for dragging the member at index `src` to index `dest` of the
/// current key-ordered sequence.  Out-of-range indices and `src == dest`
/// are rejected.
pub fn generate_key_for_reordering_item_index(
    keys: &Vec<Option<String>>,
    src_index: usize,
    dest_index: usize,
) -> (r: Result<String, String>)
    ensures
        src_index >= keys@.len() || dest_index >= keys@.len() || src_index == dest_index
            ==> r is Err,
        src_index < keys@.len() && dest_index < keys@.len() && src_index != dest_index
            ==> reorder_post(keys@, src_index as int, dest_index as int, r),
{
    proof {
        reveal_strlit("");
        assert(""@ =~= Seq::<char>::empty());
    }
    let n = keys.len();
    if src_index >= n || dest_index >= n {
        return Err(String::from_str("index out of bounds"));
    }
    if src_index == dest_index {
        return Err(String::from_str("source and destination indices are the same"));
    }
    if dest_index == 0 {
        // moving to the very top
        return match &keys[0] {
            None => Err(String::from_str("invalid key at first index")),
            Some(next) => {
                let hi = next.clone();
                midpoint("", hi.as_str())
            },
        };
    }
    if dest_index == n - 1 {
        // moving to the very bottom
        return match &keys[dest_index] {
            None => Err(String::from_str("invalid key at last index")),
            Some(prev) => {
                let lo = prev.clone();
                midpoint(lo.as_str(), "")
            },
        };
    }
    let lo_i = if dest_index < src_index {
        dest_index - 1
    } else {
        dest_index
    };
    let hi_i = if dest_index < src_index {
        dest_index
    } else {
        dest_index + 1
    };
    let lo = match &keys[lo_i] {
        None => {
            return Err(String::from_str("invalid previous key"));
        },
        Some(s) => s.clone(),
    };
    let hi = match &keys[hi_i] {
        None => {
            return Err(String::from_str("invalid next key"));
        },
        Some(s) => s.clone(),
    };
    midpoint(lo.as_str(), hi.as_str())
}

/// The key sequence after the member at position `p` is reassigned key `k1`
/// and thereby moves one slot up: positions `p - 1` and `p` now hold `k1`
/// and the previous occupant of `p - 1`.
pub open spec fn moved_up(ks: Seq<Seq<char>>, p: int, k1: Seq<char>) -> Seq<Seq<char>> {
    ks.update(p, ks[p - 1]).update(p - 1, k1)
}

/// Law: moving a member up one slot and then down one slot puts it back
/// strictly between its original neighbours' keys; the key itself may
/// differ, but the relative order is restored.
///
/// `ks` is the strictly increasing key sequence before the two moves, with
/// the moved member at position `p` (not the first).  `k1` is any key the
/// move-up may assign, after which the member sits at position `p - 1` of
/// the reordered sequence; `k2` is any key the move-down may then assign to
/// it there.  Then `k2` lies strictly between the member's original
/// neighbours at `p - 1` and `p + 1`.
pub proof fn lemma_move_up_then_down_restores_order(
    ks: Seq<Seq<char>>,
    p: int,
    k1: Seq<char>,
    k2: Seq<char>,
)
    requires
        forall|i: int, j: int| 0 <= i < j < ks.len() ==> lex_lt(#[trigger] ks[i], #[trigger] ks[j]),
        1 <= p < ks.len(),
        lex_lt(k1, ks[p - 1]),
        p >= 2 ==> lex_lt(ks[p - 2], k1),
        lex_lt(moved_up(ks, p, k1)[p], k2),
        p + 1 < ks.len() ==> lex_lt(k2, moved_up(ks, p, k1)[p + 1]),
    ensures
        lex_lt(ks[p - 1], k2),
        p + 1 < ks.len() ==> lex_lt(k2, ks[p + 1]),
{
    assert(moved_up(ks, p, k1)[p] == ks[p - 1]);
    if p + 1 < ks.len() {
        assert(moved_up(ks, p, k1)[p + 1] == ks[p + 1]);
    }
}

/// What the key appended after the current last member is, read over a
/// plain string result: the empty string stands for a rejection, which
/// happens exactly when the last key is malformed.
pub open spec fn append_key_result(keys: Seq<Option<String>>, r: Seq<char>) -> bool {
    let lo = if keys.len() == 0 {
        Seq::<char>::empty()
    } else {
        key_view_at(keys, keys.len() - 1)
    };
    if key_chars(lo) {
        r == mid_of(lo, Seq::empty()) && lex_lt(lo, r) && valid_key(r)
    } else {
        r.len() == 0
    }
}

/// What the key inserted after the member at position `p` is, read over a
/// plain string result with the empty string standing for a rejection.
pub open spec fn after_key_result(
    keys: Seq<Option<String>>,
    k: Seq<char>,
    p: int,
    r: Seq<char>,
) -> bool {
    if p < keys.len() - 1 && keys[p + 1] is None {
        r.len() == 0
    } else {
        let hi = if p == keys.len() - 1 {
            Seq::<char>::empty()
        } else {
            key_view_at(keys, p + 1)
        };
        if midpoint_inputs_ok(k, hi) {
            r == mid_of(k, hi) && lex_lt(k, r) && (hi.len() > 0 ==> lex_lt(r, hi)) && valid_key(r)
        } else {
            r.len() == 0
        }
    }
}

} // verus!
