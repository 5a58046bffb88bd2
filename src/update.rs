use vstd::prelude::*;
use vstd::string::*;
use crate::assignment::{
    append_pairs, given_pairs, pair_values, pair_views, render_set_list, set_list,
};
use crate::bind::{copy_binds, Bind};
use crate::condition::{
    cond_views, conditions_of, group_views, lemma_where_alignment, mixed_where_text, or_views,
    render_mixed_where, where_binds, where_slots, CondView, Condition,
};
use crate::fragment::raw_group_views;
use crate::placeholder::{advance, config_gen, config_ok, has_room, GenView, PlaceholderGen};
use crate::statement::{append_strs, copy_str, set_word, str_views, string_views, update_prefix};
use crate::update_item::UpdateConfig;
use crate::where_item::Or;

verus! {

/// The model of an `Update` builder.
pub struct UpdateView {
    pub table: Seq<char>,
    pub sets: Seq<(Seq<char>, Bind)>,
    pub ands: Seq<CondView>,
    pub raw_ands: Seq<Seq<char>>,
    pub ors: Seq<Seq<CondView>>,
    pub raw_ors: Seq<Seq<Seq<char>>>,
    pub raw_binds: Seq<Bind>,
    pub gen: GenView,
}

/// `UPDATE <table>`, then ` SET c1 = ph1,c2 = ph2` when there are assignments,
/// then the WHERE section (see `mixed_where_text`), whose placeholders follow
/// those of the assignments. Every value, `Null` included, takes a placeholder.
pub open spec fn update_text(v: UpdateView) -> Seq<char> {
    update_prefix() + v.table + (if v.sets.len() > 0 {
        set_word() + set_list(v.sets, v.gen, 0)
    } else {
        seq![]
    }) + mixed_where_text(
        v.ands,
        v.raw_ands,
        v.ors,
        v.raw_ors,
        advance(v.gen, v.sets.len() as int),
        false,
    )
}

/// The values that a render of `v` binds, in order: those of the assignments,
/// those of the conditions, then those given by `bind_raw`.
pub open spec fn update_binds(v: UpdateView) -> Seq<Bind> {
    pair_values(v.sets) + where_binds(v.ands, v.ors, false) + v.raw_binds
}

/// How many placeholders a render of `v` draws.
pub open spec fn update_slots(v: UpdateView) -> nat {
    v.sets.len() + where_slots(v.ands, v.ors, false)
}

/// A render with a static placeholder leaves the builder as it was, so a
/// second render gives the same text and the same values.
pub proof fn lemma_update_render_repeats(v: UpdateView)
    requires
        v.gen.cursor is None,
    ensures
        (UpdateView { gen: advance(v.gen, update_slots(v) as int), ..v }) == v,
        update_text(UpdateView { gen: advance(v.gen, update_slots(v) as int), ..v })
            == update_text(v),
        update_binds(UpdateView { gen: advance(v.gen, update_slots(v) as int), ..v })
            == update_binds(v),
{
}

/// A render binds one value per placeholder that it draws, and then the
/// values given by `bind_raw`: the `i`-th assignment, which takes placeholder
/// number `i`, binds the `i`-th value; the conditions' values follow (see
/// `lemma_where_alignment`), then the raw ones in call order.
pub proof fn lemma_update_alignment(v: UpdateView)
    ensures
        update_binds(v).len() == update_slots(v) + v.raw_binds.len(),
        forall|i: int| 0 <= i < v.sets.len() ==> #[trigger] update_binds(v)[i] == v.sets[i].1,
        update_binds(v).subrange(v.sets.len() as int, update_slots(v) as int) == where_binds(
            v.ands,
            v.ors,
            false,
        ),
        update_binds(v).skip(update_slots(v) as int) == v.raw_binds,
{
    lemma_where_alignment(v.ands, v.ors, advance(v.gen, v.sets.len() as int), false);
    assert(update_binds(v).subrange(v.sets.len() as int, update_slots(v) as int) =~= where_binds(
        v.ands,
        v.ors,
        false,
    ));
    assert(update_binds(v).skip(update_slots(v) as int) =~= v.raw_binds);
}

/// SQL update builder. Every value, `Null` included, takes a placeholder.
pub struct Update {
    pub table_name: String,
    gen: PlaceholderGen,
    set_values: Vec<(String, Bind)>,
    where_and: Vec<Condition>,
    where_and_raw: Vec<String>,
    where_or: Vec<Vec<Condition>>,
    where_or_raw: Vec<Vec<String>>,
    raw_binds: Vec<Bind>,
}

impl View for Update {
    type V = UpdateView;

    closed spec fn view(&self) -> UpdateView {
        UpdateView {
            table: self.table_name@,
            sets: pair_views(self.set_values@),
            ands: cond_views(self.where_and@),
            raw_ands: string_views(self.where_and_raw@),
            ors: group_views(self.where_or@),
            raw_ors: raw_group_views(self.where_or_raw@),
            raw_binds: self.raw_binds@,
            gen: self.gen@,
        }
    }
}

impl Update {
    /// A builder for `UPDATE <table_name>`; placeholders are `?` unless
    /// `config` says otherwise.
    pub fn new(table_name: &str, config: Option<UpdateConfig>) -> (r: Update)
        requires
            config_ok(config),
        ensures
            r@ == (UpdateView {
                table: table_name@,
                sets: seq![],
                ands: seq![],
                raw_ands: seq![],
                ors: seq![],
                raw_ors: seq![],
                raw_binds: seq![],
                gen: config_gen(config),
            }),
    {
        let r = Update {
            table_name: copy_str(table_name),
            gen: PlaceholderGen::new(config),
            set_values: Vec::new(),
            where_and: Vec::new(),
            where_and_raw: Vec::new(),
            where_or: Vec::new(),
            where_or_raw: Vec::new(),
            raw_binds: Vec::new(),
        };
        assert(r@.sets =~= seq![]);
        assert(r@.ands =~= seq![]);
        assert(r@.raw_ands =~= seq![]);
        assert(r@.ors =~= seq![]);
        assert(r@.raw_ors =~= seq![]);
        r
    }

    /// Appends `(column, value)` assignments after those given before.
    pub fn set(&mut self, value: Vec<(&str, Bind)>) -> (r: &mut Self)
        ensures
            r@ == (UpdateView { sets: old(self)@.sets + given_pairs(value@), ..old(self)@ }),
            *final(self) == *final(r),
    {
        append_pairs(&mut self.set_values, &value);
        self
    }

    /// Adds a condition to the AND-list.
    pub fn wheres(&mut self, column: &str, operator: &str, value: Bind) -> (r: &mut Self)
        ensures
            r@ == (UpdateView {
                ands: old(self)@.ands.push(
                    CondView { column: column@, operator: operator@, value },
                ),
                ..old(self)@
            }),
            *final(self) == *final(r),
    {
        self.where_and.push(Condition { column: copy_str(column), operator: copy_str(operator), value });
        assert(self@.ands =~= old(self)@.ands.push(
            CondView { column: column@, operator: operator@, value },
        ));
        self
    }

    /// Adds an OR-group, rendered after the AND-list and any earlier groups.
    pub fn where_or(&mut self, wheres: Vec<Or>) -> (r: &mut Self)
        ensures
            r@ == (UpdateView { ors: old(self)@.ors.push(or_views(wheres@)), ..old(self)@ }),
            *final(self) == *final(r),
    {
        let group = conditions_of(&wheres);
        self.where_or.push(group);
        assert(self@.ors =~= old(self)@.ors.push(or_views(wheres@)));
        self
    }

    /// Adds a raw fragment to the AND-list, after all structured conditions.
    pub fn where_raw(&mut self, raw: &str) -> (r: &mut Self)
        ensures
            r@ == (UpdateView { raw_ands: old(self)@.raw_ands.push(raw@), ..old(self)@ }),
            *final(self) == *final(r),
    {
        self.where_and_raw.push(copy_str(raw));
        assert(self@.raw_ands =~= old(self)@.raw_ands.push(raw@));
        self
    }

    /// Adds an OR-group of raw fragments, after all structured OR-groups.
    pub fn where_or_raw(&mut self, raw: Vec<&str>) -> (r: &mut Self)
        ensures
            r@ == (UpdateView { raw_ors: old(self)@.raw_ors.push(str_views(raw@)), ..old(self)@ }),
            *final(self) == *final(r),
    {
        let mut group: Vec<String> = Vec::new();
        append_strs(&mut group, &raw);
        assert(string_views(group@) =~= str_views(raw@));
        self.where_or_raw.push(group);
        assert(self@.raw_ors =~= old(self)@.raw_ors.push(str_views(raw@)));
        self
    }

    /// Adds a value for a placeholder that a raw fragment holds; such values
    /// are bound after all others, in call order.
    pub fn bind_raw(&mut self, value: Bind) -> (r: &mut Self)
        ensures
            r@ == (UpdateView { raw_binds: old(self)@.raw_binds.push(value), ..old(self)@ }),
            *final(self) == *final(r),
    {
        self.raw_binds.push(value);
        self
    }

    /// The statement's text; the placeholders it draws move an indexed
    /// generator on.
    pub fn to_sql(&mut self) -> (r: String)
        requires
            has_room(old(self)@.gen, update_slots(old(self)@) as int),
        ensures
            r@ == update_text(old(self)@),
            final(self)@ == (UpdateView {
                gen: advance(old(self)@.gen, update_slots(old(self)@) as int),
                ..old(self)@
            }),
    {
        let (sql, _binds) = self.to_sql_with_bind();
        sql
    }

    /// The statement's text and the values bound to its placeholders, in order.
    pub fn to_sql_with_bind(&mut self) -> (r: (String, Vec<Bind>))
        requires
            has_room(old(self)@.gen, update_slots(old(self)@) as int),
        ensures
            r.0@ == update_text(old(self)@),
            r.1@ == update_binds(old(self)@),
            final(self)@ == (UpdateView {
                gen: advance(old(self)@.gen, update_slots(old(self)@) as int),
                ..old(self)@
            }),
    {
        proof {
            reveal_strlit("UPDATE ");
            reveal_strlit(" SET ");
        }
        let ghost v = self@;
        let mut sql = String::from_str("UPDATE ");
        sql.append(self.table_name.as_str());
        let mut binds: Vec<Bind> = Vec::new();
        if self.set_values.len() > 0 {
            sql.append(" SET ");
            render_set_list(&self.set_values, &mut self.gen, &mut sql, &mut binds);
        } else {
            assert(advance(v.gen, 0) == v.gen);
        }
        assert(self.gen@ == advance(v.gen, v.sets.len() as int));
        let ghost s1 = sql@;
        assert(s1 =~= update_prefix() + v.table + (if v.sets.len() > 0 {
            set_word() + set_list(v.sets, v.gen, 0)
        } else {
            seq![]
        }));
        render_mixed_where(
            &self.where_and,
            &self.where_and_raw,
            &self.where_or,
            &self.where_or_raw,
            &mut self.gen,
            false,
            &mut sql,
            &mut binds,
        );
        let ghost structured = binds@;
        let mut extra = copy_binds(&self.raw_binds);
        binds.append(&mut extra);
        assert(sql@ =~= update_text(v));
        assert(binds@ =~= structured + v.raw_binds);
        assert(binds@ =~= update_binds(v));
        (sql, binds)
    }
}

} // verus!
