//! The list of roles that are always refused `COPY`: a comma-separated
//! text whose entries are compared, without surrounding white space, to the
//! name of the current role.

use vstd::prelude::*;
use crate::text::{chars_of, is_white_space, range_equals, trim, trim_end, trim_start, trimmed_bounds};

verus! {

/// The pieces of `s` between commas, as `str::split(',')` yields them: one
/// piece more than there are commas, empty pieces included.
pub open spec fn split_commas(s: Seq<char>) -> Seq<Seq<char>>
    decreases s.len(),
{
    if s.len() == 0 {
        seq![Seq::<char>::empty()]
    } else {
        let prev = split_commas(s.drop_last());
        if s.last() == ',' {
            prev.push(Seq::<char>::empty())
        } else {
            prev.update(prev.len() - 1, prev.last().push(s.last()))
        }
    }
}

/// Whether `role` is one of the entries of the comma-separated `list`, each
/// entry taken without leading and trailing white space.
pub open spec fn role_listed(list: Seq<char>, role: Seq<char>) -> bool {
    exists|i: int| 0 <= i < split_commas(list).len() && #[trigger] trim(split_commas(list)[i]) == role
}

/// `split_commas` always yields at least one piece.
pub proof fn lemma_split_commas_nonempty(s: Seq<char>)
    ensures
        split_commas(s).len() >= 1,
    decreases s.len(),
{
    if s.len() > 0 {
        lemma_split_commas_nonempty(s.drop_last());
    }
}


/// Appending one comma after `a` closes its last piece and opens an empty one.
proof fn lemma_split_after_comma(a: Seq<char>)
    ensures
        split_commas(a + seq![',']) == split_commas(a).push(Seq::<char>::empty()),
{
    assert((a + seq![',']).drop_last() =~= a);
}

/// Appending comma-free text `b` to `a` extends the last piece of `a` by `b`.
proof fn lemma_split_comma_free_suffix(a: Seq<char>, b: Seq<char>)
    requires
        forall|k: int| 0 <= k < b.len() ==> b[k] != ',',
    ensures
        split_commas(a + b) == split_commas(a).update(
            split_commas(a).len() - 1,
            split_commas(a).last() + b,
        ),
    decreases b.len(),
{
    lemma_split_commas_nonempty(a);
    if b.len() == 0 {
        assert(a + b =~= a);
        assert(split_commas(a).last() + b =~= split_commas(a).last());
        assert(split_commas(a).update(split_commas(a).len() - 1, split_commas(a).last())
            =~= split_commas(a));
    } else {
        let b0 = b.drop_last();
        lemma_split_comma_free_suffix(a, b0);
        assert((a + b).drop_last() =~= a + b0);
        assert((a + b).last() == b.last());
        assert(split_commas(a).last() + b =~= (split_commas(a).last() + b0).push(b.last()));
        let s = split_commas(a);
        let s0 = s.update(s.len() - 1, s.last() + b0);
        assert(s0.last() == s.last() + b0);
        assert(s0.update(s0.len() - 1, s0.last().push(b.last())) =~= s.update(
            s.len() - 1,
            s.last() + b,
        ));
    }
}

/// Adding an entry at the end of the list keeps every role that was listed,
/// adds the new entry (without its surrounding white space), and adds nothing
/// else.
pub proof fn law_appended_entry_is_listed(list: Seq<char>, entry: Seq<char>, role: Seq<char>)
    requires
        forall|k: int| 0 <= k < entry.len() ==> entry[k] != ',',
    ensures
        role_listed(list + seq![','] + entry, role) <==> (role_listed(list, role) || trim(entry)
            == role),
{
    let a = list + seq![','];
    lemma_split_after_comma(list);
    lemma_split_comma_free_suffix(a, entry);
    lemma_split_commas_nonempty(list);
    let s = split_commas(list);
    let t = split_commas(a + entry);
    assert(Seq::<char>::empty() + entry =~= entry);
    assert(t =~= s.push(entry));
    if role_listed(list, role) {
        let i = choose|i: int| 0 <= i < s.len() && #[trigger] trim(s[i]) == role;
        assert(t[i] == s[i]);
        assert(trim(t[i]) == role);
    }
    if trim(entry) == role {
        assert(t[s.len() as int] == entry);
        assert(trim(t[s.len() as int]) == role);
    }
    if role_listed(a + entry, role) {
        let i = choose|i: int| 0 <= i < t.len() && #[trigger] trim(t[i]) == role;
        if i < s.len() {
            assert(t[i] == s[i]);
        }
    }
}

/// `t` appears in `s` as a contiguous run of characters.
pub open spec fn occurs_in(t: Seq<char>, s: Seq<char>) -> bool {
    exists|a: int, b: int| 0 <= a <= b <= s.len() && s.subrange(a, b) == t
}

/// Every piece of `split_commas(s)` is a comma-free run of `s`, and the last
/// piece runs to the end of `s`.
proof fn lemma_split_pieces(s: Seq<char>)
    ensures
        split_commas(s).len() >= 1,
        forall|j: int| 0 <= j < split_commas(s).len() ==> occurs_in(#[trigger] split_commas(s)[j], s),
        forall|j: int, k: int|
            0 <= j < split_commas(s).len() && 0 <= k < split_commas(s)[j].len() ==> #[trigger] split_commas(s)[j][k]
                != ',',
        exists|a: int| 0 <= a <= s.len() && split_commas(s).last() == s.subrange(a, s.len() as int),
    decreases s.len(),
{
    if s.len() == 0 {
        assert(s.subrange(0, 0) =~= Seq::<char>::empty());
        assert(occurs_in(split_commas(s)[0], s));
    } else {
        let t = s.drop_last();
        let c = s.last();
        lemma_split_pieces(t);
        let prev = split_commas(t);
        let cur = split_commas(s);
        let a0 = choose|a: int| 0 <= a <= t.len() && prev.last() == t.subrange(a, t.len() as int);
        assert forall|j: int| 0 <= j < prev.len() - 1 implies occurs_in(#[trigger] cur[j], s) by {
            assert(cur[j] == prev[j]);
            assert(occurs_in(prev[j], t));
            let (a, b) = choose|a: int, b: int| 0 <= a <= b <= t.len() && t.subrange(a, b) == prev[j];
            assert(s.subrange(a, b) =~= t.subrange(a, b));
        }
        if c == ',' {
            assert(cur == prev.push(Seq::<char>::empty()));
            assert(occurs_in(cur[prev.len() - 1], s)) by {
                assert(s.subrange(a0, t.len() as int) =~= t.subrange(a0, t.len() as int));
            }
            assert(s.subrange(s.len() as int, s.len() as int) =~= Seq::<char>::empty());
            assert(occurs_in(cur[prev.len() as int], s));
            assert(cur.last() == s.subrange(s.len() as int, s.len() as int));
        } else {
            assert(cur == prev.update(prev.len() - 1, prev.last().push(c)));
            assert(s.subrange(a0, s.len() as int) =~= t.subrange(a0, t.len() as int).push(c));
            assert(occurs_in(cur[prev.len() - 1], s));
            assert(cur.last() == s.subrange(a0, s.len() as int));
            assert forall|j: int, k: int|
                0 <= j < cur.len() && 0 <= k < cur[j].len() implies #[trigger] cur[j][k] != ',' by {
                if j < prev.len() - 1 {
                    assert(cur[j] == prev[j]);
                } else if k < prev.last().len() {
                    assert(cur[j][k] == prev[prev.len() - 1][k]);
                }
            }
        }
    }
}

/// `trim_start(p)` is a suffix of `p` that starts, if at all, with a
/// character that is not white space.
proof fn lemma_trim_start(p: Seq<char>)
    ensures
        exists|a: int| 0 <= a <= p.len() && trim_start(p) == p.subrange(a, p.len() as int),
        trim_start(p).len() > 0 ==> !is_white_space(trim_start(p)[0]),
    decreases p.len(),
{
    if p.len() > 0 && is_white_space(p[0]) {
        lemma_trim_start(p.drop_first());
        let a = choose|a: int|
            0 <= a <= p.drop_first().len() && trim_start(p.drop_first()) == p.drop_first().subrange(
                a,
                p.drop_first().len() as int,
            );
        assert(p.drop_first().subrange(a, p.drop_first().len() as int) =~= p.subrange(
            a + 1,
            p.len() as int,
        ));
    } else {
        assert(p.subrange(0, p.len() as int) =~= p);
    }
}

/// `trim_end(p)` is a prefix of `p` that ends, if at all, with a character
/// that is not white space.
proof fn lemma_trim_end(p: Seq<char>)
    ensures
        exists|b: int| 0 <= b <= p.len() && trim_end(p) == p.subrange(0, b),
        trim_end(p).len() > 0 ==> !is_white_space(trim_end(p).last()),
    decreases p.len(),
{
    if p.len() > 0 && is_white_space(p.last()) {
        lemma_trim_end(p.drop_last());
        let b = choose|b: int|
            0 <= b <= p.drop_last().len() && trim_end(p.drop_last()) == p.drop_last().subrange(0, b);
        assert(p.drop_last().subrange(0, b) =~= p.subrange(0, b));
    } else {
        assert(p.subrange(0, p.len() as int) =~= p);
    }
}

/// `trim(p)` is a run of `p` that neither starts nor ends with white space.
proof fn lemma_trim(p: Seq<char>)
    ensures
        exists|a: int, b: int| 0 <= a <= b <= p.len() && p.subrange(a, b) == trim(p),
        trim(p).len() > 0 ==> !is_white_space(trim(p)[0]) && !is_white_space(trim(p).last()),
{
    lemma_trim_start(p);
    let q = trim_start(p);
    let a = choose|a: int| 0 <= a <= p.len() && q == p.subrange(a, p.len() as int);
    lemma_trim_end(q);
    let b = choose|b: int| 0 <= b <= q.len() && trim_end(q) == q.subrange(0, b);
    assert(q.subrange(0, b) =~= p.subrange(a, a + b));
    if trim(p).len() > 0 {
        assert(trim(p)[0] == q[0]);
    }
}

/// A listed role is one of the list's entries: it appears in the list as a
/// run of characters, holds no comma, and neither starts nor ends with white
/// space. So an empty or blank list names no non-empty role.
pub proof fn law_listed_role_appears_in_list(list: Seq<char>, role: Seq<char>)
    requires
        role_listed(list, role),
    ensures
        occurs_in(role, list),
        forall|k: int| 0 <= k < role.len() ==> #[trigger] role[k] != ',',
        role.len() > 0 ==> !is_white_space(role[0]) && !is_white_space(role.last()),
{
    lemma_split_pieces(list);
    let pieces = split_commas(list);
    let i = choose|i: int| 0 <= i < pieces.len() && #[trigger] trim(pieces[i]) == role;
    let p = pieces[i];
    lemma_trim(p);
    let (a, b) = choose|a: int, b: int| 0 <= a <= b <= p.len() && p.subrange(a, b) == trim(p);
    assert(occurs_in(p, list));
    let (c, d) = choose|c: int, d: int| 0 <= c <= d <= list.len() && list.subrange(c, d) == p;
    assert(list.subrange(c + a, c + b) =~= p.subrange(a, b));
    assert forall|k: int| 0 <= k < role.len() implies #[trigger] role[k] != ',' by {
        assert(role[k] == p[a + k]);
    }
}

/// A list made only of white space and commas (the empty list included)
/// names no non-empty role.
pub proof fn law_blank_list_lists_nobody(list: Seq<char>, role: Seq<char>)
    requires
        forall|k: int| 0 <= k < list.len() ==> is_white_space(#[trigger] list[k]) || list[k] == ',',
        role.len() > 0,
    ensures
        !role_listed(list, role),
{
    if role_listed(list, role) {
        law_listed_role_appears_in_list(list, role);
        let (a, b) = choose|a: int, b: int| 0 <= a <= b <= list.len() && list.subrange(a, b) == role;
        assert(role[0] == list[a]);
    }
}

/// A list that is exactly one role name (no comma in it, no white space at
/// its ends) lists that role.
pub proof fn law_single_entry_lists_itself(role: Seq<char>)
    requires
        forall|k: int| 0 <= k < role.len() ==> #[trigger] role[k] != ',',
        role.len() > 0 ==> !is_white_space(role[0]) && !is_white_space(role.last()),
    ensures
        role_listed(role, role),
{
    lemma_split_comma_free_suffix(Seq::<char>::empty(), role);
    assert(Seq::<char>::empty() + role =~= role);
    assert(split_commas(Seq::<char>::empty()) =~= seq![Seq::<char>::empty()]);
    assert(split_commas(role) =~= seq![role]);
    assert(trim_start(role) == role);
    assert(trim_end(role) == role);
    assert(trim(split_commas(role)[0]) == role);
}

/// Whether `role` is an entry of the comma-separated `list` (entries are
/// compared without their surrounding white space).
pub fn role_in_list(list: &str, role: &str) -> (b: bool)
    ensures
        b == role_listed(list@, role@),
{
    let v: Vec<char> = chars_of(list);
    let w: Vec<char> = chars_of(role);
    let n: usize = v.len();
    let mut found: bool = false;
    let mut start: usize = 0;
    let mut i: usize = 0;
    proof {
        assert(v@.subrange(0, 0) =~= Seq::<char>::empty());
    }
    while i < n
        invariant
            n == v@.len(),
            v@ == list@,
            w@ == role@,
            start <= i <= n,
            split_commas(v@.subrange(0, i as int)).len() >= 1,
            split_commas(v@.subrange(0, i as int)).last() == v@.subrange(start as int, i as int),
            found <==> exists|j: int|
                0 <= j < split_commas(v@.subrange(0, i as int)).len() - 1 && #[trigger] trim(
                    split_commas(v@.subrange(0, i as int))[j],
                ) == role@,
        decreases n - i,
    {
        let ghost prev = split_commas(v@.subrange(0, i as int));
        proof {
            assert(v@.subrange(0, i + 1).drop_last() =~= v@.subrange(0, i as int));
            assert(v@.subrange(0, i + 1).last() == v@[i as int]);
        }
        if v[i] == ',' {
            let (lo, hi) = trimmed_bounds(&v, start, i);
            let eq: bool = range_equals(&v, lo, hi, &w);
            let ghost old_found = found;
            found = found || eq;
            let ghost next = split_commas(v@.subrange(0, i + 1));
            proof {
                assert(next == prev.push(Seq::<char>::empty()));
                assert(v@.subrange(i + 1, i + 1) =~= Seq::<char>::empty());
                if found {
                    if old_found {
                        let j = choose|j: int|
                            0 <= j < prev.len() - 1 && #[trigger] trim(prev[j]) == role@;
                        assert(next[j] == prev[j]);
                        assert(trim(next[j]) == role@);
                    } else {
                        assert(next[prev.len() - 1] == prev.last());
                        assert(trim(next[prev.len() - 1]) == role@);
                    }
                } else {
                    assert forall|j: int| 0 <= j < next.len() - 1 implies #[trigger] trim(next[j])
                        != role@ by {
                        if j < prev.len() - 1 {
                            assert(next[j] == prev[j]);
                        } else {
                            assert(next[j] == prev.last());
                        }
                    }
                }
            }
            start = i + 1;
        } else {
            let ghost next = split_commas(v@.subrange(0, i + 1));
            proof {
                assert(next == prev.update(prev.len() - 1, prev.last().push(v@[i as int])));
                assert(v@.subrange(start as int, i + 1) =~= v@.subrange(start as int, i as int).push(
                    v@[i as int],
                ));
                assert forall|j: int| 0 <= j < next.len() - 1 implies next[j] == prev[j] by {}
                if found {
                    let j = choose|j: int|
                        0 <= j < prev.len() - 1 && #[trigger] trim(prev[j]) == role@;
                    assert(next[j] == prev[j]);
                }
            }
        }
        i = i + 1;
    }
    let (lo, hi) = trimmed_bounds(&v, start, n);
    let eq: bool = range_equals(&v, lo, hi, &w);
    proof {
        let all = split_commas(v@.subrange(0, n as int));
        assert(v@.subrange(0, n as int) =~= list@);
        if eq {
            assert(trim(all[all.len() - 1]) == role@);
        }
    }
    found || eq
}

} // verus!
