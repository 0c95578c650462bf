//! The statement builder: substitutes the column-list placeholder of a SQL
//! template with a table's field list. Pure string work, no I/O, safe to
//! call concurrently because it shares no state.

use vstd::prelude::*;

verus! {

/// The placeholder token that templates carry where a column list belongs.
pub open spec fn placeholder() -> Seq<char> {
    "$table_fields"@
}

/// `p` occurs at the front of `s`.
pub open spec fn begins_with(s: Seq<char>, p: Seq<char>) -> bool {
    p.len() <= s.len() && s.subrange(0, p.len() as int) == p
}

/// The template `t` with every occurrence of the token `p` replaced by `f`,
/// scanning left to right and never rescanning substituted text.
pub open spec fn replaced(t: Seq<char>, p: Seq<char>, f: Seq<char>) -> Seq<char>
    recommends
        p.len() > 0,
    decreases t.len(),
{
    if t.len() == 0 {
        Seq::empty()
    } else if p.len() > 0 && begins_with(t, p) {
        f + replaced(t.subrange(p.len() as int, t.len() as int), p, f)
    } else {
        seq![t[0]] + replaced(t.subrange(1, t.len() as int), p, f)
    }
}

/// `p` occurs in `t` at character position `i`.
fn occurs_at(t: &str, i: usize, p: &str, t_len: usize, p_len: usize) -> (r: bool)
    requires
        t_len == t@.len(),
        p_len == p@.len(),
        i <= t_len,
    ensures
        r == (i + p@.len() <= t@.len() && t@.subrange(i as int, i + p@.len() as int) == p@),
{
    if p_len > t_len - i {
        return false;
    }
    let mut j: usize = 0;
    while j < p_len
        invariant
            j <= p_len,
            i + p_len <= t_len,
            t_len == t@.len(),
            p_len == p@.len(),
            forall|k: int| 0 <= k < j ==> t@[i + k] == p@[k],
        decreases p_len - j,
    {
        let tc = t.get_char(i + j);
        let pc = p.get_char(j);
        if tc != pc {
            proof {
                assert(t@.subrange(i as int, i + p@.len() as int)[j as int] == t@[i + j]);
            }
            return false;
        }
        j = j + 1;
    }
    proof {
        assert(t@.subrange(i as int, i + p@.len() as int) =~= p@);
    }
    true
}

/// Replaces every occurrence of the token `p` in `t` with `f`, scanning
/// left to right.
pub fn replace_token(t: &str, p: &str, f: &str) -> (r: String)
    requires
        p@.len() > 0,
    ensures
        r@ == replaced(t@, p@, f@),
{
    let t_len = t.unicode_len();
    let p_len = p.unicode_len();
    let mut out = String::new();
    let mut i: usize = 0;
    proof {
        assert(t@.subrange(0, t_len as int) =~= t@);
        assert(out@ + replaced(t@, p@, f@) =~= replaced(t@, p@, f@));
    }
    while i < t_len
        invariant
            i <= t_len,
            t_len == t@.len(),
            p_len == p@.len(),
            p_len > 0,
            out@ + replaced(t@.subrange(i as int, t_len as int), p@, f@) == replaced(t@, p@, f@),
        decreases t_len - i,
    {
        let ghost suffix = t@.subrange(i as int, t_len as int);
        if occurs_at(t, i, p, t_len, p_len) {
            out.append(f);
            proof {
                assert(suffix.subrange(0, p@.len() as int) =~= t@.subrange(
                    i as int,
                    i + p@.len() as int,
                ));
                assert(begins_with(suffix, p@));
                assert(suffix.subrange(p@.len() as int, suffix.len() as int) =~= t@.subrange(
                    i + p_len as int,
                    t_len as int,
                ));
            }
            i = i + p_len;
        } else {
            let c = t.substring_char(i, i + 1);
            out.append(c);
            proof {
                if begins_with(suffix, p@) {
                    assert(suffix.subrange(0, p@.len() as int) =~= t@.subrange(
                        i as int,
                        i + p@.len() as int,
                    ));
                }
                assert(!begins_with(suffix, p@));
                assert(c@ =~= seq![suffix[0]]);
                assert(suffix.subrange(1, suffix.len() as int) =~= t@.subrange(
                    i + 1,
                    t_len as int,
                ));
            }
            i = i + 1;
        }
    }
    proof {
        assert(t@.subrange(t_len as int, t_len as int) =~= Seq::<char>::empty());
        assert(out@ + Seq::<char>::empty() =~= out@);
    }
    out
}

/// Builds a ready-to-prepare statement: the template with its single
/// placeholder token substituted by the comma-joined field list. No
/// validation of the template's well-formedness: a malformed result
/// surfaces as a prepare-time failure downstream.
pub fn build(template: &str, table_fields_list: &str) -> (r: String)
    ensures
        r@ == replaced(template@, placeholder(), table_fields_list@),
{
    proof {
        reveal_strlit("$table_fields");
    }
    replace_token(template, "$table_fields", table_fields_list)
}

/// The statement builder is deterministic and side-effect-free: built from
/// nothing but its two inputs, equal inputs give equal statements.
pub proof fn lemma_build_deterministic(
    t1: Seq<char>,
    f1: Seq<char>,
    t2: Seq<char>,
    f2: Seq<char>,
)
    requires
        t1 == t2,
        f1 == f2,
    ensures
        replaced(t1, placeholder(), f1) == replaced(t2, placeholder(), f2),
{
}

} // verus!
