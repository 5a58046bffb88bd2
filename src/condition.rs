use vstd::prelude::*;
use vstd::string::*;
use crate::bind::Bind;
use crate::fragment::{raw_group_views, raw_groups_text, render_raw_groups};
use crate::placeholder::{advance, has_room, token, GenView, PlaceholderGen};
use crate::statement::{append_joined, joined_with, string_views};
use crate::where_item::Or;

verus! {

/// One comparison `<column> <operator> <value>` of a WHERE section.
pub struct Condition {
    pub column: String,
    pub operator: String,
    pub value: Bind,
}

/// The model of a `Condition`.
pub struct CondView {
    pub column: Seq<char>,
    pub operator: Seq<char>,
    pub value: Bind,
}

impl View for Condition {
    type V = CondView;

    open spec fn view(&self) -> CondView {
        CondView { column: self.column@, operator: self.operator@, value: self.value }
    }
}

/// The models of a list of conditions.
pub open spec fn cond_views(cs: Seq<Condition>) -> Seq<CondView> {
    cs.map_values(|c: Condition| c@)
}

pub open spec fn space() -> Seq<char> {
    seq![' ']
}

pub open spec fn null_word() -> Seq<char> {
    seq!['N', 'U', 'L', 'L']
}

/// The separator between conjoined items: ` AND`.
pub open spec fn and_sep() -> Seq<char> {
    seq![' ', 'A', 'N', 'D']
}

/// The separator between the members of an OR-group: ` OR`.
pub open spec fn or_sep() -> Seq<char> {
    seq![' ', 'O', 'R']
}

pub open spec fn where_word() -> Seq<char> {
    seq![' ', 'W', 'H', 'E', 'R', 'E']
}

/// Opens the first OR-group: ` (`.
pub open spec fn group_open() -> Seq<char> {
    seq![' ', '(']
}

/// Opens each further OR-group: ` AND (`.
pub open spec fn group_open_and() -> Seq<char> {
    seq![' ', 'A', 'N', 'D', ' ', '(']
}

pub open spec fn group_close() -> Seq<char> {
    seq![')']
}

/// Whether a condition takes a placeholder. With `null_literal`, a `Null`
/// value is written as the word `NULL` and takes none.
pub open spec fn takes_slot(c: CondView, null_literal: bool) -> bool {
    !(null_literal && c.value is Null)
}

/// How many placeholders a list of conditions takes.
pub open spec fn slot_count(cs: Seq<CondView>, null_literal: bool) -> nat
    decreases cs.len(),
{
    if cs.len() == 0 {
        0
    } else {
        slot_count(cs.drop_last(), null_literal) + if takes_slot(cs.last(), null_literal) {
            1nat
        } else {
            0nat
        }
    }
}

/// ` <column> <operator> <placeholder>`, the placeholder being the `k`-th
/// drawn from `g` (or `NULL`, see `takes_slot`).
pub open spec fn condition_text(c: CondView, g: GenView, k: int, null_literal: bool) -> Seq<char> {
    space() + c.column + space() + c.operator + space() + if takes_slot(c, null_literal) {
        token(g, k)
    } else {
        null_word()
    }
}

/// The conditions in order, joined by `sep`, their placeholders drawn from
/// `g` starting at the `k`-th.
pub open spec fn conditions_text(
    cs: Seq<CondView>,
    sep: Seq<char>,
    g: GenView,
    k: int,
    null_literal: bool,
) -> Seq<char>
    decreases cs.len(),
{
    if cs.len() == 0 {
        seq![]
    } else {
        let init = cs.drop_last();
        conditions_text(init, sep, g, k, null_literal) + (if init.len() == 0 {
            seq![]
        } else {
            sep
        }) + condition_text(cs.last(), g, k + slot_count(init, null_literal), null_literal)
    }
}

/// The values bound by a list of conditions, in the order of their placeholders.
pub open spec fn conditions_binds(cs: Seq<CondView>, null_literal: bool) -> Seq<Bind>
    decreases cs.len(),
{
    if cs.len() == 0 {
        seq![]
    } else {
        conditions_binds(cs.drop_last(), null_literal) + if takes_slot(cs.last(), null_literal) {
            seq![cs.last().value]
        } else {
            seq![]
        }
    }
}

/// The contents of each OR-group.
pub open spec fn group_views(gs: Seq<Vec<Condition>>) -> Seq<Seq<CondView>> {
    gs.map_values(|v: Vec<Condition>| cond_views(v@))
}

/// How many placeholders a list of OR-groups takes.
pub open spec fn group_slots(gs: Seq<Seq<CondView>>, null_literal: bool) -> nat
    decreases gs.len(),
{
    if gs.len() == 0 {
        0
    } else {
        group_slots(gs.drop_last(), null_literal) + slot_count(gs.last(), null_literal)
    }
}

/// Each OR-group as ` ( a OR b)`, the groups after the first opened by ` AND (`.
pub open spec fn groups_text(gs: Seq<Seq<CondView>>, g: GenView, k: int, null_literal: bool) -> Seq<
    char,
>
    decreases gs.len(),
{
    if gs.len() == 0 {
        seq![]
    } else {
        let init = gs.drop_last();
        groups_text(init, g, k, null_literal) + (if init.len() == 0 {
            group_open()
        } else {
            group_open_and()
        }) + conditions_text(gs.last(), or_sep(), g, k + group_slots(init, null_literal), null_literal)
            + group_close()
    }
}

/// The values bound by a list of OR-groups, in order.
pub open spec fn groups_binds(gs: Seq<Seq<CondView>>, null_literal: bool) -> Seq<Bind>
    decreases gs.len(),
{
    if gs.len() == 0 {
        seq![]
    } else {
        groups_binds(gs.drop_last(), null_literal) + conditions_binds(gs.last(), null_literal)
    }
}

/// How many placeholders a WHERE section takes.
pub open spec fn where_slots(ands: Seq<CondView>, ors: Seq<Seq<CondView>>, null_literal: bool) -> nat {
    slot_count(ands, null_literal) + group_slots(ors, null_literal)
}

/// The WHERE section: nothing when there are no conditions; else ` WHERE`, the
/// AND-conditions joined by ` AND`, then the OR-groups, joined to the
/// AND-conditions by ` AND` when there are both.
pub open spec fn where_text(
    ands: Seq<CondView>,
    ors: Seq<Seq<CondView>>,
    g: GenView,
    null_literal: bool,
) -> Seq<char> {
    (if ands.len() > 0 || ors.len() > 0 {
        where_word()
    } else {
        seq![]
    }) + conditions_text(ands, and_sep(), g, 0, null_literal) + (if ands.len() > 0 && ors.len()
        > 0 {
        and_sep()
    } else {
        seq![]
    }) + groups_text(ors, g, slot_count(ands, null_literal) as int, null_literal)
}

/// The values bound by a WHERE section, in the order of their placeholders.
pub open spec fn where_binds(ands: Seq<CondView>, ors: Seq<Seq<CondView>>, null_literal: bool) -> Seq<
    Bind,
> {
    conditions_binds(ands, null_literal) + groups_binds(ors, null_literal)
}

/// The WHERE section with raw fragments beside the conditions: nothing when
/// there are none; else ` WHERE`, the AND-conditions and then the raw
/// AND-fragments, all joined by ` AND`, then the OR-groups and then the raw
/// OR-groups, joined to what stands before them by ` AND`.
pub open spec fn mixed_where_text(
    ands: Seq<CondView>,
    raw_ands: Seq<Seq<char>>,
    ors: Seq<Seq<CondView>>,
    raw_ors: Seq<Seq<Seq<char>>>,
    g: GenView,
    null_literal: bool,
) -> Seq<char> {
    let has_and = ands.len() > 0 || raw_ands.len() > 0;
    let has_or = ors.len() > 0 || raw_ors.len() > 0;
    (if has_and || has_or {
        where_word()
    } else {
        seq![]
    }) + conditions_text(ands, and_sep(), g, 0, null_literal) + (if ands.len() > 0 && raw_ands.len()
        > 0 {
        and_sep()
    } else {
        seq![]
    }) + joined_with(raw_ands, seq![' '], and_sep()) + (if has_and && has_or {
        and_sep()
    } else {
        seq![]
    }) + groups_text(ors, g, slot_count(ands, null_literal) as int, null_literal) + raw_groups_text(
        raw_ors,
        ors.len() > 0,
    )
}

proof fn lemma_conditions_align(
    cs: Seq<CondView>,
    sep: Seq<char>,
    g: GenView,
    k: int,
    null_literal: bool,
)
    ensures
        conditions_binds(cs, null_literal).len() == slot_count(cs, null_literal),
        forall|i: int|
            0 <= i < cs.len() ==> (#[trigger] conditions_text(
                cs.take(i + 1),
                sep,
                g,
                k,
                null_literal,
            )).is_prefix_of(conditions_text(cs, sep, g, k, null_literal)),
        forall|i: int|
            0 <= i < cs.len() && takes_slot(#[trigger] cs[i], null_literal) ==> slot_count(
                cs.take(i),
                null_literal,
            ) < slot_count(cs, null_literal) && conditions_binds(cs, null_literal)[slot_count(
                cs.take(i),
                null_literal,
            ) as int] == cs[i].value,
    decreases cs.len(),
{
    if cs.len() > 0 {
        let init = cs.drop_last();
        lemma_conditions_align(init, sep, g, k, null_literal);
        assert forall|i: int| 0 <= i < cs.len() implies (#[trigger] conditions_text(
            cs.take(i + 1),
            sep,
            g,
            k,
            null_literal,
        )).is_prefix_of(conditions_text(cs, sep, g, k, null_literal)) by {
            if i + 1 == cs.len() {
                assert(cs.take(i + 1) =~= cs);
            } else {
                assert(init.take(i + 1) =~= cs.take(i + 1));
                let whole = conditions_text(cs, sep, g, k, null_literal);
                let part = conditions_text(init, sep, g, k, null_literal);
                let pre = conditions_text(init.take(i + 1), sep, g, k, null_literal);
                assert(pre.is_prefix_of(part));
                assert(whole.subrange(0, part.len() as int) =~= part);
                assert(whole.subrange(0, pre.len() as int) =~= part.subrange(0, pre.len() as int));
            }
        }
        assert forall|i: int| 0 <= i < cs.len() && takes_slot(#[trigger] cs[i], null_literal) implies slot_count(
            cs.take(i),
            null_literal,
        ) < slot_count(cs, null_literal) && conditions_binds(cs, null_literal)[slot_count(
            cs.take(i),
            null_literal,
        ) as int] == cs[i].value by {
            if i + 1 == cs.len() {
                assert(cs.take(i) =~= init);
            } else {
                assert(init.take(i) =~= cs.take(i));
                assert(init[i] == cs[i]);
            }
        }
    }
}

/// The `m`-th value bound by the `j`-th group of `gs` stands in the values
/// bound by all of `gs` after those of the groups before it.
spec fn group_bind_at(gs: Seq<Seq<CondView>>, j: int, m: int, null_literal: bool) -> bool {
    &&& group_slots(gs.take(j), null_literal) + m < group_slots(gs, null_literal)
    &&& groups_binds(gs, null_literal)[group_slots(gs.take(j), null_literal) + m] == conditions_binds(
        gs[j],
        null_literal,
    )[m]
}

proof fn lemma_groups_align(gs: Seq<Seq<CondView>>, null_literal: bool)
    ensures
        groups_binds(gs, null_literal).len() == group_slots(gs, null_literal),
        forall|j: int, m: int|
            0 <= j < gs.len() && 0 <= m < slot_count(gs[j], null_literal) ==> #[trigger] group_bind_at(
                gs,
                j,
                m,
                null_literal,
            ),
    decreases gs.len(),
{
    if gs.len() > 0 {
        let init = gs.drop_last();
        lemma_groups_align(init, null_literal);
        lemma_conditions_align(gs.last(), seq![], GenView { pattern: seq![], cursor: None }, 0, null_literal);
        assert forall|j: int, m: int|
            0 <= j < gs.len() && 0 <= m < slot_count(gs[j], null_literal) implies #[trigger] group_bind_at(
                gs,
                j,
                m,
                null_literal,
            ) by {
            if j + 1 == gs.len() {
                assert(gs.take(j) =~= init);
                assert(gs[j] == gs.last());
                assert(groups_binds(gs, null_literal) == groups_binds(init, null_literal)
                    + conditions_binds(gs.last(), null_literal));
                assert(m < conditions_binds(gs.last(), null_literal).len());
            } else {
                assert(init.take(j) =~= gs.take(j));
                assert(init[j] == gs[j]);
                let idx = group_slots(gs.take(j), null_literal) + m;
                assert(group_bind_at(init, j, m, null_literal));
                assert(idx < groups_binds(init, null_literal).len());
                assert(groups_binds(gs, null_literal)[idx] == groups_binds(init, null_literal)[idx]);
            }
        }
    }
}

/// The number of the placeholder that the `i`-th member of the `j`-th
/// OR-group takes: those of the AND-list, of the groups before, and of the
/// members before come first.
pub open spec fn member_slot(
    ands: Seq<CondView>,
    ors: Seq<Seq<CondView>>,
    j: int,
    i: int,
    null_literal: bool,
) -> int {
    (slot_count(ands, null_literal) + group_slots(ors.take(j), null_literal) + slot_count(
        ors[j].take(i),
        null_literal,
    )) as int
}

/// Binding alignment of a WHERE section: it binds exactly as many values as it
/// draws placeholders, and the value of each condition that takes a
/// placeholder is bound at the position of that placeholder. The `i`-th
/// AND-condition's text, drawn with placeholder number
/// `slot_count(ands.take(i))`, stands in the rendered list after the text of
/// the conditions before it; the `i`-th member of the `j`-th OR-group takes
/// placeholder number `member_slot(ands, ors, j, i)`.
pub proof fn lemma_where_alignment(
    ands: Seq<CondView>,
    ors: Seq<Seq<CondView>>,
    g: GenView,
    null_literal: bool,
)
    ensures
        where_binds(ands, ors, null_literal).len() == where_slots(ands, ors, null_literal),
        forall|i: int|
            0 <= i < ands.len() ==> (#[trigger] conditions_text(
                ands.take(i + 1),
                and_sep(),
                g,
                0,
                null_literal,
            )).is_prefix_of(conditions_text(ands, and_sep(), g, 0, null_literal)),
        forall|i: int|
            0 <= i < ands.len() && takes_slot(#[trigger] ands[i], null_literal) ==> where_binds(
                ands,
                ors,
                null_literal,
            )[slot_count(ands.take(i), null_literal) as int] == ands[i].value,
        forall|j: int, i: int|
            0 <= j < ors.len() && 0 <= i < ors[j].len() && takes_slot(
                #[trigger] ors[j][i],
                null_literal,
            ) ==> where_binds(ands, ors, null_literal)[member_slot(ands, ors, j, i, null_literal)]
                == ors[j][i].value,
{
    lemma_conditions_align(ands, and_sep(), g, 0, null_literal);
    lemma_groups_align(ors, null_literal);
    let ab = conditions_binds(ands, null_literal);
    let gb = groups_binds(ors, null_literal);
    assert forall|j: int, i: int|
        0 <= j < ors.len() && 0 <= i < ors[j].len() && takes_slot(
            #[trigger] ors[j][i],
            null_literal,
        ) implies where_binds(ands, ors, null_literal)[member_slot(ands, ors, j, i, null_literal)]
        == ors[j][i].value by {
        lemma_conditions_align(ors[j], or_sep(), g, 0, null_literal);
        let m = slot_count(ors[j].take(i), null_literal) as int;
        assert(takes_slot(ors[j][i], null_literal));
        assert(m < slot_count(ors[j], null_literal));
        assert(conditions_binds(ors[j], null_literal)[m] == ors[j][i].value);
        assert(group_bind_at(ors, j, m, null_literal));
    }
}

/// Two OR-groups render as ` ( a OR b) AND ( c OR d)`: each group keeps its
/// own parentheses, the second is joined to the first by ` AND`, and the
/// placeholders of the second follow those of the first.
pub proof fn lemma_or_groups_chain(
    g1: Seq<CondView>,
    g2: Seq<CondView>,
    g: GenView,
    k: int,
    null_literal: bool,
)
    ensures
        groups_text(seq![g1, g2], g, k, null_literal) == group_open() + conditions_text(
            g1,
            or_sep(),
            g,
            k,
            null_literal,
        ) + group_close() + group_open_and() + conditions_text(
            g2,
            or_sep(),
            g,
            k + slot_count(g1, null_literal),
            null_literal,
        ) + group_close(),
{
    let gs = seq![g1, g2];
    assert(gs.drop_last() =~= seq![g1]);
    assert(seq![g1].drop_last() =~= Seq::<Seq<CondView>>::empty());
    assert(group_slots(seq![g1].drop_last(), null_literal) == 0);
    assert(group_slots(seq![g1], null_literal) == slot_count(g1, null_literal));
    assert(groups_text(seq![g1].drop_last(), g, k, null_literal) == Seq::<char>::empty());
    assert(groups_text(seq![g1], g, k, null_literal) =~= group_open() + conditions_text(
        g1,
        or_sep(),
        g,
        k,
        null_literal,
    ) + group_close());
    assert(groups_text(gs, g, k, null_literal) =~= group_open() + conditions_text(
        g1,
        or_sep(),
        g,
        k,
        null_literal,
    ) + group_close() + group_open_and() + conditions_text(
        g2,
        or_sep(),
        g,
        k + slot_count(g1, null_literal),
        null_literal,
    ) + group_close());
}

proof fn lemma_slot_count_prefix(cs: Seq<CondView>, i: int, null_literal: bool)
    requires
        0 <= i <= cs.len(),
    ensures
        slot_count(cs.take(i), null_literal) <= slot_count(cs, null_literal),
    decreases cs.len(),
{
    if i < cs.len() {
        assert(cs.drop_last().take(i) =~= cs.take(i));
        lemma_slot_count_prefix(cs.drop_last(), i, null_literal);
    } else {
        assert(cs.take(i) =~= cs);
    }
}

proof fn lemma_group_slots_prefix(gs: Seq<Seq<CondView>>, i: int, null_literal: bool)
    requires
        0 <= i <= gs.len(),
    ensures
        group_slots(gs.take(i), null_literal) <= group_slots(gs, null_literal),
    decreases gs.len(),
{
    if i < gs.len() {
        assert(gs.drop_last().take(i) =~= gs.take(i));
        lemma_group_slots_prefix(gs.drop_last(), i, null_literal);
    } else {
        assert(gs.take(i) =~= gs);
    }
}

/// The conditions that an OR-group given by the caller stands for.
pub open spec fn or_views<'a>(ws: Seq<Or<'a>>) -> Seq<CondView> {
    ws.map_values(|o: Or<'a>| CondView { column: o.column@, operator: o.operator@, value: o.value })
}

/// The conditions of an OR-group given by the caller, in its order.
pub fn conditions_of(wheres: &Vec<Or>) -> (r: Vec<Condition>)
    ensures
        cond_views(r@) == or_views(wheres@),
{
    let mut r: Vec<Condition> = Vec::new();
    let mut i: usize = 0;
    while i < wheres.len()
        invariant
            i <= wheres.len(),
            r@.len() == i,
            cond_views(r@) == or_views(wheres@).take(i as int),
        decreases wheres.len() - i,
    {
        let w = &wheres[i];
        r.push(
            Condition {
                column: String::from_str(w.column),
                operator: String::from_str(w.operator),
                value: w.value.duplicate(),
            },
        );
        assert(r@[i as int]@ == or_views(wheres@)[i as int]);
        i = i + 1;
        assert(cond_views(r@) =~= or_views(wheres@).take(i as int));
    }
    assert(or_views(wheres@).take(i as int) =~= or_views(wheres@));
    r
}

/// Appends one condition; draws a placeholder from `gen` when it takes one.
fn render_condition(
    c: &Condition,
    gen: &mut PlaceholderGen,
    null_literal: bool,
    sql: &mut String,
    binds: &mut Vec<Bind>,
)
    requires
        takes_slot(c@, null_literal) ==> has_room(old(gen)@, 1),
    ensures
        final(sql)@ == old(sql)@ + condition_text(c@, old(gen)@, 0, null_literal),
        final(binds)@ == old(binds)@ + if takes_slot(c@, null_literal) {
            seq![c.value]
        } else {
            seq![]
        },
        final(gen)@ == advance(old(gen)@, if takes_slot(c@, null_literal) {
            1int
        } else {
            0int
        }),
{
    proof {
        reveal_strlit(" ");
        reveal_strlit("NULL");
    }
    sql.append(" ");
    sql.append(c.column.as_str());
    sql.append(" ");
    sql.append(c.operator.as_str());
    sql.append(" ");
    if null_literal && c.value.is_null() {
        sql.append("NULL");
        assert(advance(old(gen)@, 0) == old(gen)@);
    } else {
        let t = gen.next_token();
        sql.append(t.as_str());
        binds.push(c.value.duplicate());
    }
    assert(final(sql)@ =~= old(sql)@ + condition_text(c@, old(gen)@, 0, null_literal));
}

/// Appends the conditions joined by `sep`; their placeholders continue the
/// run of `g0` from its `k0`-th, where `gen` stands.
fn render_conditions(
    cs: &Vec<Condition>,
    sep: &str,
    gen: &mut PlaceholderGen,
    null_literal: bool,
    sql: &mut String,
    binds: &mut Vec<Bind>,
    Ghost(g0): Ghost<GenView>,
    Ghost(k0): Ghost<int>,
)
    requires
        old(gen)@ == advance(g0, k0),
        has_room(g0, k0 + slot_count(cond_views(cs@), null_literal)),
    ensures
        final(sql)@ == old(sql)@ + conditions_text(cond_views(cs@), sep@, g0, k0, null_literal),
        final(binds)@ == old(binds)@ + conditions_binds(cond_views(cs@), null_literal),
        final(gen)@ == advance(g0, k0 + slot_count(cond_views(cs@), null_literal)),
{
    let ghost s0 = sql@;
    let ghost b0 = binds@;
    let ghost cv = cond_views(cs@);
    let mut i: usize = 0;
    assert(cv.take(0) =~= Seq::<CondView>::empty());
    assert(s0 + conditions_text(cv.take(0), sep@, g0, k0, null_literal) =~= s0);
    assert(b0 + conditions_binds(cv.take(0), null_literal) =~= b0);
    while i < cs.len()
        invariant
            i <= cs.len(),
            cv == cond_views(cs@),
            has_room(g0, k0 + slot_count(cond_views(cs@), null_literal)),
            sql@ == s0 + conditions_text(cv.take(i as int), sep@, g0, k0, null_literal),
            binds@ == b0 + conditions_binds(cv.take(i as int), null_literal),
            gen@ == advance(g0, k0 + slot_count(cv.take(i as int), null_literal)),
        decreases cs.len() - i,
    {
        let ghost pre = cv.take(i as int);
        let ghost next = cv.take(i + 1);
        assert(next.drop_last() =~= pre);
        assert(next.last() == cv[i as int]);
        proof {
            lemma_slot_count_prefix(cv, i + 1, null_literal);
        }
        if i > 0 {
            sql.append(sep);
        }
        render_condition(&cs[i], gen, null_literal, sql, binds);
        i = i + 1;
        assert(sql@ =~= s0 + conditions_text(next, sep@, g0, k0, null_literal));
        assert(binds@ =~= b0 + conditions_binds(next, null_literal));
    }
    assert(cv.take(i as int) =~= cv);
}

/// Appends the OR-groups; their placeholders continue the run of `g0` from
/// its `k0`-th, where `gen` stands.
fn render_groups(
    gs: &Vec<Vec<Condition>>,
    gen: &mut PlaceholderGen,
    null_literal: bool,
    sql: &mut String,
    binds: &mut Vec<Bind>,
    Ghost(g0): Ghost<GenView>,
    Ghost(k0): Ghost<int>,
)
    requires
        old(gen)@ == advance(g0, k0),
        has_room(g0, k0 + group_slots(group_views(gs@), null_literal)),
    ensures
        final(sql)@ == old(sql)@ + groups_text(group_views(gs@), g0, k0, null_literal),
        final(binds)@ == old(binds)@ + groups_binds(group_views(gs@), null_literal),
        final(gen)@ == advance(g0, k0 + group_slots(group_views(gs@), null_literal)),
{
    let ghost s0 = sql@;
    let ghost b0 = binds@;
    let ghost gv = group_views(gs@);
    let mut i: usize = 0;
    assert(gv.take(0) =~= Seq::<Seq<CondView>>::empty());
    assert(s0 + groups_text(gv.take(0), g0, k0, null_literal) =~= s0);
    assert(b0 + groups_binds(gv.take(0), null_literal) =~= b0);
    while i < gs.len()
        invariant
            i <= gs.len(),
            gv == group_views(gs@),
            has_room(g0, k0 + group_slots(group_views(gs@), null_literal)),
            sql@ == s0 + groups_text(gv.take(i as int), g0, k0, null_literal),
            binds@ == b0 + groups_binds(gv.take(i as int), null_literal),
            gen@ == advance(g0, k0 + group_slots(gv.take(i as int), null_literal)),
        decreases gs.len() - i,
    {
        let ghost pre = gv.take(i as int);
        let ghost next = gv.take(i + 1);
        assert(next.drop_last() =~= pre);
        assert(next.last() == gv[i as int]);
        proof {
            lemma_group_slots_prefix(gv, i + 1, null_literal);
            reveal_strlit(" (");
            reveal_strlit(" AND (");
            reveal_strlit(" OR");
            reveal_strlit(")");
        }
        assert(cond_views(gs@[i as int]@) == gv[i as int]);
        if i == 0 {
            sql.append(" (");
        } else {
            sql.append(" AND (");
        }
        assert(" OR"@ =~= or_sep());
        render_conditions(
            &gs[i],
            " OR",
            gen,
            null_literal,
            sql,
            binds,
            Ghost(g0),
            Ghost(k0 + group_slots(pre, null_literal)),
        );
        sql.append(")");
        i = i + 1;
        assert(sql@ =~= s0 + groups_text(next, g0, k0, null_literal));
        assert(binds@ =~= b0 + groups_binds(next, null_literal));
    }
    assert(gv.take(i as int) =~= gv);
}

/// Appends the WHERE section (see `where_text`) and the values it binds.
pub fn render_where(
    ands: &Vec<Condition>,
    ors: &Vec<Vec<Condition>>,
    gen: &mut PlaceholderGen,
    null_literal: bool,
    sql: &mut String,
    binds: &mut Vec<Bind>,
)
    requires
        has_room(old(gen)@, where_slots(cond_views(ands@), group_views(ors@), null_literal) as int),
    ensures
        final(sql)@ == old(sql)@ + where_text(
            cond_views(ands@),
            group_views(ors@),
            old(gen)@,
            null_literal,
        ),
        final(binds)@ == old(binds)@ + where_binds(cond_views(ands@), group_views(ors@), null_literal),
        final(gen)@ == advance(
            old(gen)@,
            where_slots(cond_views(ands@), group_views(ors@), null_literal) as int,
        ),
{
    let no_ands: Vec<String> = Vec::new();
    let no_ors: Vec<Vec<String>> = Vec::new();
    assert(string_views(no_ands@) =~= Seq::<Seq<char>>::empty());
    assert(raw_group_views(no_ors@) =~= Seq::<Seq<Seq<char>>>::empty());
    render_mixed_where(ands, &no_ands, ors, &no_ors, gen, null_literal, sql, binds);
    assert(joined_with(Seq::<Seq<char>>::empty(), seq![' '], and_sep()) == Seq::<char>::empty());
    assert(raw_groups_text(Seq::<Seq<Seq<char>>>::empty(), ors@.len() > 0) == Seq::<char>::empty());
    assert(mixed_where_text(
        cond_views(ands@),
        Seq::<Seq<char>>::empty(),
        group_views(ors@),
        Seq::<Seq<Seq<char>>>::empty(),
        old(gen)@,
        null_literal,
    ) =~= where_text(cond_views(ands@), group_views(ors@), old(gen)@, null_literal));
}

/// Appends the WHERE section with raw fragments (see `mixed_where_text`) and
/// the values that its conditions bind.
#[verifier::rlimit(60)]
pub fn render_mixed_where(
    ands: &Vec<Condition>,
    raw_ands: &Vec<String>,
    ors: &Vec<Vec<Condition>>,
    raw_ors: &Vec<Vec<String>>,
    gen: &mut PlaceholderGen,
    null_literal: bool,
    sql: &mut String,
    binds: &mut Vec<Bind>,
)
    requires
        has_room(old(gen)@, where_slots(cond_views(ands@), group_views(ors@), null_literal) as int),
    ensures
        final(sql)@ == old(sql)@ + mixed_where_text(
            cond_views(ands@),
            string_views(raw_ands@),
            group_views(ors@),
            raw_group_views(raw_ors@),
            old(gen)@,
            null_literal,
        ),
        final(binds)@ == old(binds)@ + where_binds(cond_views(ands@), group_views(ors@), null_literal),
        final(gen)@ == advance(
            old(gen)@,
            where_slots(cond_views(ands@), group_views(ors@), null_literal) as int,
        ),
{
    let ghost g0 = gen@;
    let ghost s0 = sql@;
    let ghost b0 = binds@;
    let ghost av = cond_views(ands@);
    let ghost rv = string_views(raw_ands@);
    let ghost ov = group_views(ors@);
    let ghost qv = raw_group_views(raw_ors@);
    proof {
        reveal_strlit(" WHERE");
        reveal_strlit(" AND");
        reveal_strlit(" ");
    }
    let has_and = ands.len() > 0 || raw_ands.len() > 0;
    let has_or = ors.len() > 0 || raw_ors.len() > 0;
    if has_and || has_or {
        sql.append(" WHERE");
    }
    let ghost p0 = if has_and || has_or {
        where_word()
    } else {
        seq![]
    };
    assert(sql@ =~= s0 + p0);
    assert(advance(g0, 0) == g0);
    assert(" AND"@ =~= and_sep());
    assert(" "@ =~= seq![' ']);
    render_conditions(ands, " AND", gen, null_literal, sql, binds, Ghost(g0), Ghost(0));
    let ghost s1 = sql@;
    if ands.len() > 0 && raw_ands.len() > 0 {
        sql.append(" AND");
    }
    let ghost p2 = if ands.len() > 0 && raw_ands.len() > 0 {
        and_sep()
    } else {
        seq![]
    };
    assert(sql@ =~= s1 + p2);
    append_joined(sql, raw_ands, " ", " AND");
    let ghost s3 = sql@;
    if has_and && has_or {
        sql.append(" AND");
    }
    let ghost p4 = if has_and && has_or {
        and_sep()
    } else {
        seq![]
    };
    assert(sql@ =~= s3 + p4);
    let ghost s4 = sql@;
    render_groups(
        ors,
        gen,
        null_literal,
        sql,
        binds,
        Ghost(g0),
        Ghost(slot_count(av, null_literal) as int),
    );
    let ghost s5 = sql@;
    render_raw_groups(raw_ors, ors.len() > 0, sql);
    let ghost whole = mixed_where_text(av, rv, ov, qv, g0, null_literal);
    assert(whole == p0 + conditions_text(av, and_sep(), g0, 0, null_literal) + p2 + joined_with(
        rv,
        seq![' '],
        and_sep(),
    ) + p4 + groups_text(ov, g0, slot_count(av, null_literal) as int, null_literal)
        + raw_groups_text(qv, ors@.len() > 0));
    assert(sql@ =~= s0 + whole);
    assert(binds@ =~= b0 + where_binds(av, ov, null_literal));
}

} // verus!
