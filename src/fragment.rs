use vstd::prelude::*;
use vstd::string::*;
use crate::condition::{group_close, group_open, group_open_and, or_sep};
use crate::statement::{append_joined, joined_with, string_views};

verus! {

/// Each raw OR-group as ` ( a OR b)`. A group opens with ` AND (` when a group
/// stands before it: an earlier one of `gs`, or, with `opened`, one rendered
/// before all of `gs`.
pub open spec fn raw_groups_text(gs: Seq<Seq<Seq<char>>>, opened: bool) -> Seq<char>
    decreases gs.len(),
{
    if gs.len() == 0 {
        seq![]
    } else {
        let init = gs.drop_last();
        raw_groups_text(init, opened) + (if init.len() == 0 && !opened {
            group_open()
        } else {
            group_open_and()
        }) + joined_with(gs.last(), seq![' '], or_sep()) + group_close()
    }
}

/// The texts of each raw OR-group.
pub open spec fn raw_group_views(gs: Seq<Vec<String>>) -> Seq<Seq<Seq<char>>> {
    gs.map_values(|g: Vec<String>| string_views(g@))
}

/// Appends the raw OR-groups (see `raw_groups_text`).
pub fn render_raw_groups(gs: &Vec<Vec<String>>, opened: bool, sql: &mut String)
    ensures
        final(sql)@ == old(sql)@ + raw_groups_text(raw_group_views(gs@), opened),
{
    let ghost s0 = sql@;
    let ghost gv = raw_group_views(gs@);
    let mut i: usize = 0;
    assert(gv.take(0) =~= Seq::<Seq<Seq<char>>>::empty());
    assert(sql@ =~= s0 + raw_groups_text(gv.take(0), opened));
    while i < gs.len()
        invariant
            i <= gs.len(),
            gv == raw_group_views(gs@),
            sql@ == s0 + raw_groups_text(gv.take(i as int), opened),
        decreases gs.len() - i,
    {
        proof {
            reveal_strlit(" (");
            reveal_strlit(" AND (");
            reveal_strlit(" ");
            reveal_strlit(" OR");
            reveal_strlit(")");
        }
        let ghost next = gv.take(i + 1);
        assert(next.drop_last() =~= gv.take(i as int));
        assert(string_views(gs@[i as int]@) == gv[i as int]);
        if i == 0 && !opened {
            sql.append(" (");
        } else {
            sql.append(" AND (");
        }
        append_joined(sql, &gs[i], " ", " OR");
        sql.append(")");
        assert(" "@ =~= seq![' ']);
        assert(" OR"@ =~= or_sep());
        i = i + 1;
        assert(sql@ =~= s0 + raw_groups_text(next, opened));
    }
    assert(gv.take(i as int) =~= gv);
}

} // verus!
