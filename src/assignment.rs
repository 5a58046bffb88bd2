use vstd::prelude::*;
use vstd::string::*;
use crate::bind::Bind;
use crate::placeholder::{advance, has_room, token, GenView, PlaceholderGen};
use crate::statement::values_middle;

verus! {

/// The models of stored `(column, value)` pairs.
pub open spec fn pair_views(ps: Seq<(String, Bind)>) -> Seq<(Seq<char>, Bind)> {
    ps.map_values(|p: (String, Bind)| (p.0@, p.1))
}

/// The models of `(column, value)` pairs given by a caller.
pub open spec fn given_pairs<'a>(ps: Seq<(&'a str, Bind)>) -> Seq<(Seq<char>, Bind)> {
    ps.map_values(|p: (&'a str, Bind)| (p.0@, p.1))
}

/// The values of a list of pairs, in order.
pub open spec fn pair_values(ps: Seq<(Seq<char>, Bind)>) -> Seq<Bind> {
    ps.map_values(|p: (Seq<char>, Bind)| p.1)
}

pub open spec fn comma() -> Seq<char> {
    seq![',']
}

pub open spec fn equals_sign() -> Seq<char> {
    seq![' ', '=', ' ']
}

/// `c1 = ph1,c2 = ph2,...`, the placeholders drawn from `g` from its `k`-th on.
pub open spec fn set_list(ps: Seq<(Seq<char>, Bind)>, g: GenView, k: int) -> Seq<char>
    decreases ps.len(),
{
    if ps.len() == 0 {
        seq![]
    } else {
        let init = ps.drop_last();
        set_list(init, g, k) + (if init.len() == 0 {
            seq![]
        } else {
            comma()
        }) + ps.last().0 + equals_sign() + token(g, k + init.len())
    }
}

/// The columns of a list of pairs joined by `,`.
pub open spec fn column_list(ps: Seq<(Seq<char>, Bind)>) -> Seq<char>
    decreases ps.len(),
{
    if ps.len() == 0 {
        seq![]
    } else {
        let init = ps.drop_last();
        column_list(init) + (if init.len() == 0 {
            seq![]
        } else {
            comma()
        }) + ps.last().0
    }
}

/// `n` placeholders drawn from `g` from its `k`-th on, joined by `,`.
pub open spec fn token_list(n: nat, g: GenView, k: int) -> Seq<char>
    decreases n,
{
    if n == 0 {
        seq![]
    } else {
        token_list((n - 1) as nat, g, k) + (if n == 1 {
            seq![]
        } else {
            comma()
        }) + token(g, k + n - 1)
    }
}

/// Appends the pairs given by a caller to a stored list.
pub fn append_pairs(dst: &mut Vec<(String, Bind)>, src: &Vec<(&str, Bind)>)
    ensures
        pair_views(final(dst)@) == pair_views(old(dst)@) + given_pairs(src@),
{
    let ghost d0 = pair_views(dst@);
    let mut i: usize = 0;
    while i < src.len()
        invariant
            i <= src.len(),
            dst@.len() == d0.len() + i,
            pair_views(dst@) == d0 + given_pairs(src@).take(i as int),
        decreases src.len() - i,
    {
        let p = &src[i];
        let ghost before = dst@;
        dst.push((String::from_str(p.0), p.1.duplicate()));
        assert(pair_views(dst@) =~= pair_views(before).push(given_pairs(src@)[i as int]));
        assert(given_pairs(src@).take(i + 1) =~= given_pairs(src@).take(i as int).push(
            given_pairs(src@)[i as int],
        ));
        i = i + 1;
        assert(pair_views(dst@) =~= d0 + given_pairs(src@).take(i as int));
    }
    assert(given_pairs(src@).take(i as int) =~= given_pairs(src@));
}

/// Appends the SET list of the pairs and their values; the placeholders come
/// from `gen`.
pub fn render_set_list(
    ps: &Vec<(String, Bind)>,
    gen: &mut PlaceholderGen,
    sql: &mut String,
    binds: &mut Vec<Bind>,
)
    requires
        has_room(old(gen)@, ps@.len() as int),
    ensures
        final(sql)@ == old(sql)@ + set_list(pair_views(ps@), old(gen)@, 0),
        final(binds)@ == old(binds)@ + pair_values(pair_views(ps@)),
        final(gen)@ == advance(old(gen)@, ps@.len() as int),
{
    let ghost g0 = gen@;
    let ghost s0 = sql@;
    let ghost b0 = binds@;
    let ghost pv = pair_views(ps@);
    let mut i: usize = 0;
    assert(pv.take(0) =~= Seq::<(Seq<char>, Bind)>::empty());
    assert(s0 + set_list(pv.take(0), g0, 0) =~= s0);
    assert(b0 + pair_values(pv.take(0)) =~= b0);
    assert(advance(g0, 0) == g0);
    while i < ps.len()
        invariant
            i <= ps.len(),
            pv == pair_views(ps@),
            has_room(g0, ps@.len() as int),
            sql@ == s0 + set_list(pv.take(i as int), g0, 0),
            binds@ == b0 + pair_values(pv.take(i as int)),
            gen@ == advance(g0, i as int),
        decreases ps.len() - i,
    {
        proof {
            reveal_strlit(",");
            reveal_strlit(" = ");
        }
        let ghost next = pv.take(i + 1);
        assert(next.drop_last() =~= pv.take(i as int));
        if i > 0 {
            sql.append(",");
        }
        sql.append(ps[i].0.as_str());
        sql.append(" = ");
        let t = gen.next_token();
        sql.append(t.as_str());
        binds.push(ps[i].1.duplicate());
        i = i + 1;
        assert(sql@ =~= s0 + set_list(next, g0, 0));
        assert(binds@ =~= b0 + pair_values(next));
    }
    assert(pv.take(i as int) =~= pv);
}

/// Appends ` (<columns>) VALUES (<placeholders>)` for the pairs and their
/// values; the placeholders come from `gen`.
pub fn render_value_lists(
    ps: &Vec<(String, Bind)>,
    gen: &mut PlaceholderGen,
    sql: &mut String,
    binds: &mut Vec<Bind>,
)
    requires
        has_room(old(gen)@, ps@.len() as int),
    ensures
        final(sql)@ == old(sql)@ + seq![' ', '('] + column_list(pair_views(ps@)) + values_middle()
            + token_list(ps@.len(), old(gen)@, 0) + seq![')'],
        final(binds)@ == old(binds)@ + pair_values(pair_views(ps@)),
        final(gen)@ == advance(old(gen)@, ps@.len() as int),
{
    let ghost g0 = gen@;
    let ghost b0 = binds@;
    let ghost pv = pair_views(ps@);
    proof {
        reveal_strlit(" (");
        reveal_strlit("(");
    }
    let mut columns = String::from_str(" (");
    let mut values = String::from_str("(");
    let mut i: usize = 0;
    assert(pv.take(0) =~= Seq::<(Seq<char>, Bind)>::empty());
    assert(b0 + pair_values(pv.take(0)) =~= b0);
    assert(advance(g0, 0) == g0);
    assert(columns@ =~= seq![' ', '('] + column_list(pv.take(0)));
    assert(values@ =~= seq!['('] + token_list(0, g0, 0));
    while i < ps.len()
        invariant
            i <= ps.len(),
            pv == pair_views(ps@),
            has_room(g0, ps@.len() as int),
            columns@ == seq![' ', '('] + column_list(pv.take(i as int)),
            values@ == seq!['('] + token_list(i as nat, g0, 0),
            binds@ == b0 + pair_values(pv.take(i as int)),
            gen@ == advance(g0, i as int),
        decreases ps.len() - i,
    {
        proof {
            reveal_strlit(",");
        }
        let ghost next = pv.take(i + 1);
        assert(next.drop_last() =~= pv.take(i as int));
        if i > 0 {
            columns.append(",");
            values.append(",");
        }
        columns.append(ps[i].0.as_str());
        let t = gen.next_token();
        values.append(t.as_str());
        binds.push(ps[i].1.duplicate());
        i = i + 1;
        assert(columns@ =~= seq![' ', '('] + column_list(next));
        assert(values@ =~= seq!['('] + token_list(i as nat, g0, 0));
        assert(binds@ =~= b0 + pair_values(next));
    }
    assert(pv.take(i as int) =~= pv);
    proof {
        reveal_strlit(")");
        reveal_strlit(" VALUES ");
    }
    columns.append(")");
    sql.append(columns.as_str());
    sql.append(" VALUES ");
    sql.append(values.as_str());
    sql.append(")");
    assert(final(sql)@ =~= old(sql)@ + seq![' ', '('] + column_list(pv) + values_middle()
        + token_list(ps@.len(), g0, 0) + seq![')']);
}

} // verus!
