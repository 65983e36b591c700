//! Ordering rows by text columns, as the store's listings do: texts compare character
//! by character (by code point, a shorter prefix first), a key of several columns
//! compares column by column, and a listing is a rearrangement of the selected rows
//! sorted by its key, ascending or descending.
use vstd::prelude::*;
use vstd::string::StrSliceExecFns;

verus! {

/// The order of two texts: -1, 0 or 1 as `a` comes before, equals or comes after `b`.
pub open spec fn text_order(a: Seq<char>, b: Seq<char>) -> int
    decreases a.len(),
{
    if a.len() == 0 {
        if b.len() == 0 {
            0
        } else {
            -1
        }
    } else if b.len() == 0 {
        1
    } else if (a[0] as u32) < (b[0] as u32) {
        -1
    } else if (a[0] as u32) > (b[0] as u32) {
        1
    } else {
        text_order(a.drop_first(), b.drop_first())
    }
}

/// The order of two keys of text columns, column by column.
pub open spec fn keys_order(a: Seq<Seq<char>>, b: Seq<Seq<char>>) -> int
    decreases a.len(),
{
    if a.len() == 0 {
        if b.len() == 0 {
            0
        } else {
            -1
        }
    } else if b.len() == 0 {
        1
    } else if text_order(a[0], b[0]) != 0 {
        text_order(a[0], b[0])
    } else {
        keys_order(a.drop_first(), b.drop_first())
    }
}

/// The order of two keys in the listing's direction.
pub open spec fn dir_order(a: Seq<Seq<char>>, b: Seq<Seq<char>>, descending: bool) -> int {
    if descending {
        keys_order(b, a)
    } else {
        keys_order(a, b)
    }
}

/// The texts of a row of strings.
pub open spec fn texts(v: Seq<String>) -> Seq<Seq<char>> {
    v.map_values(|s: String| s@)
}

/// `p` lists each of `0 .. n` exactly once.
pub open spec fn is_permutation(p: Seq<int>, n: int) -> bool {
    &&& p.len() == n
    &&& forall|j: int| 0 <= j < n ==> 0 <= #[trigger] p[j] < n
    &&& forall|i: int, j: int| 0 <= i < j < n ==> #[trigger] p[i] != #[trigger] p[j]
    &&& forall|m: int| 0 <= m < n ==> #[trigger] occurs(p, m)
}

/// `m` is one of the entries of `p`.
pub open spec fn occurs(p: Seq<int>, m: int) -> bool {
    exists|j: int| 0 <= j < p.len() && #[trigger] p[j] == m
}

/// `s` holds the rows of `rows`, each once, in some order.
pub open spec fn rearranges<T>(s: Seq<T>, rows: Seq<T>) -> bool {
    exists|p: Seq<int>|
        #[trigger] is_permutation(p, rows.len() as int) && s.len() == rows.len() && forall|j: int|
            0 <= j < s.len() ==> s[j] == rows[p[j]]
}

/// `s` is sorted by `key` in the given direction.
pub open spec fn sorted_by<T>(s: Seq<T>, key: spec_fn(T) -> Seq<Seq<char>>, descending: bool) -> bool {
    forall|i: int, j: int| 0 <= i < j < s.len() ==> dir_order(key(#[trigger] s[i]), key(#[trigger] s[j]), descending) <= 0
}

/// The rows of `rows` that `keep` holds of, in their order.
pub open spec fn select<T>(rows: Seq<T>, keep: spec_fn(T) -> bool) -> Seq<T>
    decreases rows.len(),
{
    if rows.len() == 0 {
        Seq::empty()
    } else if keep(rows.last()) {
        select(rows.drop_last(), keep).push(rows.last())
    } else {
        select(rows.drop_last(), keep)
    }
}

/// `s` lists the rows of `rows` that `keep` holds of, sorted by `key` in the given
/// direction.
pub open spec fn listing<T>(s: Seq<T>, rows: Seq<T>, keep: spec_fn(T) -> bool,
    key: spec_fn(T) -> Seq<Seq<char>>, descending: bool) -> bool {
    rearranges(s, select(rows, keep)) && sorted_by(s, key, descending)
}

/// Text order is antisymmetric and takes the values -1, 0 and 1.
pub proof fn lemma_text_order_antisymmetric(a: Seq<char>, b: Seq<char>)
    ensures
        text_order(a, b) == -text_order(b, a),
        -1 <= text_order(a, b) <= 1,
    decreases a.len(),
{
    if a.len() > 0 && b.len() > 0 && (a[0] as u32) == (b[0] as u32) {
        lemma_text_order_antisymmetric(a.drop_first(), b.drop_first());
    }
}

/// Text order is transitive.
pub proof fn lemma_text_order_transitive(a: Seq<char>, b: Seq<char>, c: Seq<char>)
    requires
        text_order(a, b) <= 0,
        text_order(b, c) <= 0,
    ensures
        text_order(a, c) <= 0,
        text_order(a, b) < 0 || text_order(b, c) < 0 ==> text_order(a, c) < 0,
    decreases a.len(),
{
    if a.len() > 0 && b.len() > 0 && c.len() > 0 && (a[0] as u32) == (b[0] as u32) && (b[0] as u32)
        == (c[0] as u32) {
        lemma_text_order_transitive(a.drop_first(), b.drop_first(), c.drop_first());
    }
}

/// Equal texts compare equal.
pub proof fn lemma_text_order_reflexive(a: Seq<char>)
    ensures
        text_order(a, a) == 0,
    decreases a.len(),
{
    if a.len() > 0 {
        lemma_text_order_reflexive(a.drop_first());
    }
}

/// Key order is antisymmetric and takes the values -1, 0 and 1.
pub proof fn lemma_keys_order_antisymmetric(a: Seq<Seq<char>>, b: Seq<Seq<char>>)
    ensures
        keys_order(a, b) == -keys_order(b, a),
        -1 <= keys_order(a, b) <= 1,
    decreases a.len(),
{
    if a.len() > 0 && b.len() > 0 {
        lemma_text_order_antisymmetric(a[0], b[0]);
        if text_order(a[0], b[0]) == 0 {
            lemma_keys_order_antisymmetric(a.drop_first(), b.drop_first());
        }
    }
}

/// Key order is transitive.
pub proof fn lemma_keys_order_transitive(a: Seq<Seq<char>>, b: Seq<Seq<char>>, c: Seq<Seq<char>>)
    requires
        keys_order(a, b) <= 0,
        keys_order(b, c) <= 0,
    ensures
        keys_order(a, c) <= 0,
        keys_order(a, b) < 0 || keys_order(b, c) < 0 ==> keys_order(a, c) < 0,
    decreases a.len(),
{
    if a.len() > 0 && b.len() > 0 && c.len() > 0 {
        lemma_text_order_antisymmetric(a[0], b[0]);
        lemma_text_order_antisymmetric(b[0], c[0]);
        lemma_text_order_antisymmetric(a[0], c[0]);
        let ab = text_order(a[0], b[0]);
        let bc = text_order(b[0], c[0]);
        assert(ab <= 0 && bc <= 0);
        lemma_text_order_transitive(a[0], b[0], c[0]);
        if ab == 0 && bc == 0 {
            lemma_keys_order_transitive(a.drop_first(), b.drop_first(), c.drop_first());
        }
    }
}

/// Direction order is antisymmetric and transitive.
pub proof fn lemma_dir_order(a: Seq<Seq<char>>, b: Seq<Seq<char>>, c: Seq<Seq<char>>, descending: bool)
    ensures
        dir_order(a, b, descending) == -dir_order(b, a, descending),
        dir_order(a, b, descending) <= 0 && dir_order(b, c, descending) <= 0 ==> dir_order(a, c, descending) <= 0,
        dir_order(a, b, descending) < 0 && dir_order(b, c, descending) <= 0 ==> dir_order(a, c, descending) < 0,
{
    lemma_keys_order_antisymmetric(a, b);
    if dir_order(a, b, descending) <= 0 && dir_order(b, c, descending) <= 0 {
        if descending {
            lemma_keys_order_transitive(c, b, a);
        } else {
            lemma_keys_order_transitive(a, b, c);
        }
    }
}

/// The order of two texts, as `text_order` gives it.
pub fn compare_text(a: &str, b: &str) -> (r: i8)
    ensures
        r as int == text_order(a@, b@),
{
    let la = a.unicode_len();
    let lb = b.unicode_len();
    let mut i: usize = 0;
    assert(a@.skip(0) =~= a@);
    assert(b@.skip(0) =~= b@);
    while i < la && i < lb
        invariant
            i <= la,
            i <= lb,
            la == a@.len(),
            lb == b@.len(),
            text_order(a@, b@) == text_order(a@.skip(i as int), b@.skip(i as int)),
        decreases la - i,
    {
        let ca = a.get_char(i);
        let cb = b.get_char(i);
        assert(a@.skip(i as int)[0] == ca);
        assert(b@.skip(i as int)[0] == cb);
        if (ca as u32) < (cb as u32) {
            return -1;
        }
        if (ca as u32) > (cb as u32) {
            return 1;
        }
        assert(a@.skip(i as int).drop_first() =~= a@.skip(i + 1));
        assert(b@.skip(i as int).drop_first() =~= b@.skip(i + 1));
        i = i + 1;
    }
    if i < la {
        1
    } else if i < lb {
        -1
    } else {
        0
    }
}

/// The order of two keys of text columns, as `keys_order` gives it.
pub fn compare_keys(a: &Vec<String>, b: &Vec<String>) -> (r: i8)
    ensures
        r as int == keys_order(texts(a@), texts(b@)),
{
    let la = a.len();
    let lb = b.len();
    let mut i: usize = 0;
    assert(texts(a@).skip(0) =~= texts(a@));
    assert(texts(b@).skip(0) =~= texts(b@));
    while i < la && i < lb
        invariant
            i <= la,
            i <= lb,
            la == a@.len(),
            lb == b@.len(),
            keys_order(texts(a@), texts(b@)) == keys_order(texts(a@).skip(i as int), texts(b@).skip(
                i as int,
            )),
        decreases la - i,
    {
        let c = compare_text(a[i].as_str(), b[i].as_str());
        assert(texts(a@).skip(i as int)[0] == a@[i as int]@);
        assert(texts(b@).skip(i as int)[0] == b@[i as int]@);
        if c != 0 {
            return c;
        }
        assert(texts(a@).skip(i as int).drop_first() =~= texts(a@).skip(i + 1));
        assert(texts(b@).skip(i as int).drop_first() =~= texts(b@).skip(i + 1));
        i = i + 1;
    }
    if i < la {
        1
    } else if i < lb {
        -1
    } else {
        0
    }
}

/// Where a row with key `k` goes in rows sorted by their keys: after every row whose
/// key does not come after `k`, before the first whose key does.
fn insert_position(sorted: &Vec<Vec<String>>, k: &Vec<String>, descending: bool) -> (pos: usize)
    ensures
        pos <= sorted@.len(),
        forall|j: int| 0 <= j < pos ==> dir_order(texts(#[trigger] sorted@[j]@), texts(k@), descending) <= 0,
        pos < sorted@.len() ==> dir_order(texts(k@), texts(sorted@[pos as int]@), descending) < 0,
{
    let n = sorted.len();
    let mut pos: usize = 0;
    while pos < n
        invariant
            pos <= n,
            n == sorted@.len(),
            forall|j: int| 0 <= j < pos ==> dir_order(texts(#[trigger] sorted@[j]@), texts(k@), descending) <= 0,
        decreases n - pos,
    {
        let c = if descending {
            compare_keys(&sorted[pos], k)
        } else {
            compare_keys(k, &sorted[pos])
        };
        proof {
            lemma_dir_order(texts(k@), texts(sorted@[pos as int]@), texts(k@), descending);
        }
        if c < 0 {
            return pos;
        }
        pos = pos + 1;
    }
    pos
}

/// Sorts `rows` by their keys, moving each row into place; `keys` holds each row's
/// key columns, and `key` says what they are.
pub(crate) fn sort_rows<T>(
    rows: Vec<T>,
    keys: Vec<Vec<String>>,
    descending: bool,
    Ghost(key): Ghost<spec_fn(T) -> Seq<Seq<char>>>,
) -> (r: Vec<T>)
    requires
        rows@.len() == keys@.len(),
        forall|j: int| 0 <= j < rows@.len() ==> texts(#[trigger] keys@[j]@) == key(rows@[j]),
    ensures
        rearranges(r@, rows@),
        sorted_by(r@, key, descending),
{
    let ghost orig = rows@;
    let ghost korig = keys@;
    let ghost n = orig.len() as int;
    let mut rows = rows;
    let mut keys = keys;
    let mut out: Vec<T> = Vec::new();
    let mut out_keys: Vec<Vec<String>> = Vec::new();
    let ghost mut perm: Seq<int> = Seq::empty();
    while rows.len() > 0
        invariant
            n == orig.len() == korig.len(),
            forall|j: int| 0 <= j < n ==> texts(#[trigger] korig[j]@) == key(orig[j]),
            rows@.len() == keys@.len(),
            rows@.len() <= n,
            rows@ == orig.take(rows@.len() as int),
            keys@ == korig.take(keys@.len() as int),
            out@.len() == out_keys@.len() == perm.len() == n - rows@.len(),
            forall|j: int| 0 <= j < out@.len() ==> rows@.len() <= #[trigger] perm[j] < n,
            forall|j: int| 0 <= j < out@.len() ==> #[trigger] out@[j] == orig[perm[j]],
            forall|j: int| 0 <= j < out@.len() ==> texts(#[trigger] out_keys@[j]@) == key(out@[j]),
            forall|i: int, j: int| 0 <= i < j < perm.len() ==> #[trigger] perm[i] != #[trigger] perm[j],
            forall|m: int| rows@.len() <= m < n ==> #[trigger] occurs(perm, m),
            forall|i: int, j: int| 0 <= i < j < out@.len() ==> dir_order(key(#[trigger] out@[i]),
                key(#[trigger] out@[j]), descending) <= 0,
        decreases rows@.len(),
    {
        let ghost idx = rows@.len() - 1;
        let x = rows.pop().unwrap();
        let kx = keys.pop().unwrap();
        assert(x == orig[idx] && kx == korig[idx]);
        let pos = insert_position(&out_keys, &kx, descending);
        let ghost before = out@;
        proof {
            assert forall|i: int, j: int| 0 <= i < j < before.len() + 1 implies dir_order(
                key(#[trigger] before.insert(pos as int, x)[i]),
                key(#[trigger] before.insert(pos as int, x)[j]),
                descending,
            ) <= 0 by {
                let s = before.insert(pos as int, x);
                if j < pos {
                } else if j == pos {
                    assert(texts(out_keys@[i]@) == key(before[i]));
                } else if i < pos {
                    assert(texts(out_keys@[i]@) == key(before[i]));
                    assert(texts(out_keys@[pos as int]@) == key(before[pos as int]));
                    lemma_dir_order(key(before[i]), key(x), key(before[pos as int]), descending);
                    if pos < j - 1 {
                        lemma_dir_order(key(before[i]), key(before[pos as int]), key(before[j - 1]), descending);
                    }
                } else if i == pos {
                    assert(texts(out_keys@[pos as int]@) == key(before[pos as int]));
                    if pos < j - 1 {
                        lemma_dir_order(key(x), key(before[pos as int]), key(before[j - 1]), descending);
                    }
                } else {
                }
            }
        }
        out.insert(pos, x);
        out_keys.insert(pos, kx);
        proof {
            let old_perm = perm;
            perm = perm.insert(pos as int, idx);
            assert forall|m: int| rows@.len() <= m < n implies #[trigger] occurs(perm, m) by {
                if m == idx {
                    assert(perm[pos as int] == m);
                } else {
                    assert(occurs(old_perm, m));
                    let j = choose|j: int| 0 <= j < old_perm.len() && #[trigger] old_perm[j] == m;
                    if j < pos {
                        assert(perm[j] == m);
                    } else {
                        assert(perm[j + 1] == m);
                    }
                }
            }
            assert forall|j: int| 0 <= j < out@.len() implies texts(#[trigger] out_keys@[j]@) == key(out@[j]) by {
                if j < pos {
                }
            }
        }
    }
    proof {
        assert(is_permutation(perm, n));
    }
    out
}

/// Selecting from one more row adds that row when it is kept.
pub proof fn lemma_select_step<T>(rows: Seq<T>, keep: spec_fn(T) -> bool, i: int)
    requires
        0 <= i < rows.len(),
    ensures
        select(rows.take(i + 1), keep) == if keep(rows[i]) {
            select(rows.take(i), keep).push(rows[i])
        } else {
            select(rows.take(i), keep)
        },
{
    assert(rows.take(i + 1).drop_last() =~= rows.take(i));
}

/// Every selected row is a kept row of the table.
pub proof fn lemma_select_kept<T>(rows: Seq<T>, keep: spec_fn(T) -> bool)
    ensures
        forall|j: int| 0 <= j < select(rows, keep).len() ==> #[trigger] keep(select(rows, keep)[j]),
        select(rows, keep).len() <= rows.len(),
    decreases rows.len(),
{
    if rows.len() > 0 {
        lemma_select_kept(rows.drop_last(), keep);
    }
}

/// Mapping both sides keeps a rearrangement.
pub proof fn lemma_rearranges_map<A, B>(s: Seq<A>, rows: Seq<A>, f: spec_fn(A) -> B)
    requires
        rearranges(s, rows),
    ensures
        rearranges(s.map_values(f), rows.map_values(f)),
{
    let p = choose|p: Seq<int>|
        #[trigger] is_permutation(p, rows.len() as int) && s.len() == rows.len() && forall|j: int|
            0 <= j < s.len() ==> s[j] == rows[p[j]];
    assert(is_permutation(p, rows.map_values(f).len() as int));
    assert forall|j: int| 0 <= j < s.map_values(f).len() implies s.map_values(f)[j] == rows.map_values(
        f,
    )[p[j]] by {
        assert(s[j] == rows[p[j]]);
    }
}

/// Rows sorted by a key read through `f` are, once mapped by `f`, sorted by the key.
pub proof fn lemma_sorted_map<A, B>(
    s: Seq<A>,
    f: spec_fn(A) -> B,
    key_a: spec_fn(A) -> Seq<Seq<char>>,
    key_b: spec_fn(B) -> Seq<Seq<char>>,
    descending: bool,
)
    requires
        sorted_by(s, key_a, descending),
        forall|a: A| #[trigger] key_a(a) == key_b(f(a)),
    ensures
        sorted_by(s.map_values(f), key_b, descending),
{
    assert forall|i: int, j: int| 0 <= i < j < s.map_values(f).len() implies dir_order(
        key_b(#[trigger] s.map_values(f)[i]),
        key_b(#[trigger] s.map_values(f)[j]),
        descending,
    ) <= 0 by {
        assert(key_a(s[i]) == key_b(f(s[i])));
        assert(key_a(s[j]) == key_b(f(s[j])));
    }
}

/// A key of one text column.
pub fn key1(a: &String) -> (r: Vec<String>)
    ensures
        texts(r@) == seq![a@],
{
    let mut r: Vec<String> = Vec::new();
    r.push(a.clone());
    assert(texts(r@) =~= seq![a@]);
    r
}

/// A key of two text columns.
pub fn key2(a: &String, b: &String) -> (r: Vec<String>)
    ensures
        texts(r@) == seq![a@, b@],
{
    let mut r: Vec<String> = Vec::new();
    r.push(a.clone());
    r.push(b.clone());
    assert(texts(r@) =~= seq![a@, b@]);
    r
}

/// A key of four text columns.
pub fn key4(a: &String, b: &String, c: &String, d: &String) -> (r: Vec<String>)
    ensures
        texts(r@) == seq![a@, b@, c@, d@],
{
    let mut r: Vec<String> = Vec::new();
    r.push(a.clone());
    r.push(b.clone());
    r.push(c.clone());
    r.push(d.clone());
    assert(texts(r@) =~= seq![a@, b@, c@, d@]);
    r
}

/// Each row of a rearrangement is one of the rows it rearranges.
pub proof fn lemma_rearranges_member<T>(s: Seq<T>, rows: Seq<T>, j: int)
    requires
        rearranges(s, rows),
        0 <= j < s.len(),
    ensures
        exists|k: int| 0 <= k < rows.len() && s[j] == rows[k],
{
    let p = choose|p: Seq<int>|
        #[trigger] is_permutation(p, rows.len() as int) && s.len() == rows.len() && forall|i: int|
            0 <= i < s.len() ==> s[i] == rows[p[i]];
    assert(s[j] == rows[p[j]]);
}

/// A selected row is a row of the table.
pub proof fn lemma_selected_in<T>(rows: Seq<T>, keep: spec_fn(T) -> bool, m: int)
    requires
        0 <= m < select(rows, keep).len(),
    ensures
        exists|k: int| 0 <= k < rows.len() && rows[k] == select(rows, keep)[m],
    decreases rows.len(),
{
    let rest = select(rows.drop_last(), keep);
    if m < rest.len() {
        lemma_selected_in(rows.drop_last(), keep, m);
        let k = choose|k: int| 0 <= k < rows.drop_last().len() && rows.drop_last()[k] == rest[m];
        assert(rows[k] == select(rows, keep)[m]);
    } else {
        assert(rows[rows.len() - 1] == select(rows, keep)[m]);
    }
}

/// A kept row of the table is selected.
pub proof fn lemma_kept_selected<T>(rows: Seq<T>, keep: spec_fn(T) -> bool, k: int)
    requires
        0 <= k < rows.len(),
        keep(rows[k]),
    ensures
        exists|m: int| 0 <= m < select(rows, keep).len() && select(rows, keep)[m] == rows[k],
    decreases rows.len(),
{
    if k < rows.len() - 1 {
        lemma_kept_selected(rows.drop_last(), keep, k);
        let m = choose|m: int| 0 <= m < select(rows.drop_last(), keep).len() && select(rows.drop_last(), keep)[m]
            == rows.drop_last()[k];
        assert(select(rows, keep)[m] == rows[k]);
    } else {
        let m = select(rows, keep).len() - 1;
        assert(select(rows, keep)[m] == rows[k]);
    }
}

/// A selection holds exactly the kept rows of the table.
pub proof fn lemma_select_rows<T>(rows: Seq<T>, keep: spec_fn(T) -> bool)
    ensures
        forall|j: int| 0 <= j < select(rows, keep).len() ==> #[trigger] keep(select(rows, keep)[j]),
        forall|j: int| 0 <= j < select(rows, keep).len() ==> exists|k: int| 0 <= k < rows.len() && rows[k]
            == #[trigger] select(rows, keep)[j],
        forall|k: int| 0 <= k < rows.len() && #[trigger] keep(rows[k]) ==> exists|j: int|
            0 <= j < select(rows, keep).len() && select(rows, keep)[j] == rows[k],
{
    lemma_select_kept(rows, keep);
    assert forall|j: int| 0 <= j < select(rows, keep).len() implies exists|k: int| 0 <= k < rows.len() && rows[k]
        == #[trigger] select(rows, keep)[j] by {
        lemma_selected_in(rows, keep, j);
    }
    assert forall|k: int| 0 <= k < rows.len() && #[trigger] keep(rows[k]) implies exists|j: int|
        0 <= j < select(rows, keep).len() && select(rows, keep)[j] == rows[k] by {
        lemma_kept_selected(rows, keep, k);
    }
}

/// A rearrangement of a selection holds exactly the kept rows of the table.
pub proof fn lemma_listing_rows<T>(s: Seq<T>, rows: Seq<T>, keep: spec_fn(T) -> bool)
    requires
        rearranges(s, select(rows, keep)),
    ensures
        forall|j: int| 0 <= j < s.len() ==> #[trigger] keep(s[j]),
        forall|j: int| 0 <= j < s.len() ==> exists|k: int| 0 <= k < rows.len() && rows[k] == #[trigger] s[j],
        forall|k: int| 0 <= k < rows.len() && #[trigger] keep(rows[k]) ==> exists|j: int| 0 <= j < s.len()
            && s[j] == rows[k],
{
    let sel = select(rows, keep);
    lemma_select_rows(rows, keep);
    let p = choose|p: Seq<int>|
        #[trigger] is_permutation(p, sel.len() as int) && s.len() == sel.len() && forall|j: int|
            0 <= j < s.len() ==> s[j] == sel[p[j]];
    assert forall|j: int| 0 <= j < s.len() implies #[trigger] keep(s[j]) && exists|k: int| 0 <= k < rows.len()
        && rows[k] == s[j] by {
        let m = p[j];
        assert(0 <= m < sel.len());
        assert(s[j] == sel[m]);
        assert(keep(sel[m]));
        let k = choose|k: int| 0 <= k < rows.len() && rows[k] == sel[m];
        assert(rows[k] == s[j]);
    }
    assert forall|k: int| 0 <= k < rows.len() && #[trigger] keep(rows[k]) implies exists|j: int| 0 <= j < s.len()
        && s[j] == rows[k] by {
        let m = choose|m: int| 0 <= m < sel.len() && sel[m] == rows[k];
        assert(occurs(p, m));
        let j = choose|j: int| 0 <= j < p.len() && #[trigger] p[j] == m;
        assert(s[j] == sel[m]);
    }
}

/// A key of one column orders as its text.
pub proof fn lemma_single_key_order(a: Seq<char>, b: Seq<char>)
    ensures
        keys_order(seq![a], seq![b]) == text_order(a, b),
{
    let ka = seq![a];
    let kb = seq![b];
    assert(ka[0] == a && kb[0] == b);
    assert(ka.drop_first() =~= Seq::<Seq<char>>::empty());
    assert(kb.drop_first() =~= Seq::<Seq<char>>::empty());
    assert(keys_order(Seq::<Seq<char>>::empty(), Seq::<Seq<char>>::empty()) == 0);
    lemma_text_order_antisymmetric(a, b);
}

} // verus!
