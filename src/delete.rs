use vstd::prelude::*;
use vstd::string::*;
use crate::bind::Bind;
use crate::condition::{
    cond_views, conditions_of, group_views, lemma_where_alignment, or_views, render_where,
    where_binds, where_slots, where_text, CondView, Condition,
};
use crate::delete_item::DeleteConfig;
use crate::placeholder::{advance, config_gen, config_ok, has_room, GenView, PlaceholderGen};
use crate::statement::{copy_str, delete_prefix};
use crate::where_item::Or;

verus! {

/// The model of a `Delete` builder.
pub struct DeleteView {
    pub table: Seq<char>,
    pub ands: Seq<CondView>,
    pub ors: Seq<Seq<CondView>>,
    pub gen: GenView,
}

/// `DELETE FROM <table>` followed by the WHERE section.
pub open spec fn delete_text(v: DeleteView) -> Seq<char> {
    delete_prefix() + v.table + where_text(v.ands, v.ors, v.gen, false)
}

/// The values that a render of `v` binds, in order.
pub open spec fn delete_binds(v: DeleteView) -> Seq<Bind> {
    where_binds(v.ands, v.ors, false)
}

/// How many placeholders a render of `v` draws.
pub open spec fn delete_slots(v: DeleteView) -> nat {
    where_slots(v.ands, v.ors, false)
}

/// A render with a static placeholder leaves the builder as it was, so a
/// second render gives the same text and the same values.
pub proof fn lemma_delete_render_repeats(v: DeleteView)
    requires
        v.gen.cursor is None,
    ensures
        (DeleteView { gen: advance(v.gen, delete_slots(v) as int), ..v }) == v,
        delete_text(DeleteView { gen: advance(v.gen, delete_slots(v) as int), ..v })
            == delete_text(v),
        delete_binds(DeleteView { gen: advance(v.gen, delete_slots(v) as int), ..v })
            == delete_binds(v),
{
}

/// A render binds as many values as it draws placeholders.
pub proof fn lemma_delete_alignment(v: DeleteView)
    ensures
        delete_binds(v).len() == delete_slots(v),
{
    lemma_where_alignment(v.ands, v.ors, v.gen, false);
}

/// SQL delete builder. Every condition, `Null` included, takes a placeholder.
pub struct Delete {
    pub table_name: String,
    gen: PlaceholderGen,
    where_and: Vec<Condition>,
    where_or: Vec<Vec<Condition>>,
}

impl View for Delete {
    type V = DeleteView;

    closed spec fn view(&self) -> DeleteView {
        DeleteView {
            table: self.table_name@,
            ands: cond_views(self.where_and@),
            ors: group_views(self.where_or@),
            gen: self.gen@,
        }
    }
}

impl Delete {
    /// A builder for `DELETE FROM <table_name>`; placeholders are `?` unless
    /// `config` says otherwise.
    pub fn new(table_name: &str, config: Option<DeleteConfig>) -> (r: Delete)
        requires
            config_ok(config),
        ensures
            r@ == (DeleteView {
                table: table_name@,
                ands: seq![],
                ors: seq![],
                gen: config_gen(config),
            }),
    {
        let r = Delete {
            table_name: copy_str(table_name),
            gen: PlaceholderGen::new(config),
            where_and: Vec::new(),
            where_or: Vec::new(),
        };
        assert(r@.ands =~= seq![]);
        assert(r@.ors =~= seq![]);
        r
    }

    /// Adds an OR-group, rendered after the AND-list and any earlier groups.
    pub fn where_or(&mut self, wheres: Vec<Or>) -> (r: &mut Self)
        ensures
            r@ == (DeleteView { ors: old(self)@.ors.push(or_views(wheres@)), ..old(self)@ }),
            *final(self) == *final(r),
    {
        let group = conditions_of(&wheres);
        self.where_or.push(group);
        assert(self@.ors =~= old(self)@.ors.push(or_views(wheres@)));
        self
    }

    /// The statement's text; the placeholders it draws move an indexed
    /// generator on.
    pub fn to_sql(&mut self) -> (r: String)
        requires
            has_room(old(self)@.gen, delete_slots(old(self)@) as int),
        ensures
            r@ == delete_text(old(self)@),
            final(self)@ == (DeleteView {
                gen: advance(old(self)@.gen, delete_slots(old(self)@) as int),
                ..old(self)@
            }),
    {
        let (sql, _binds) = self.to_sql_with_bind();
        sql
    }

    /// The statement's text and the values bound to its placeholders, in order.
    pub fn to_sql_with_bind(&mut self) -> (r: (String, Vec<Bind>))
        requires
            has_room(old(self)@.gen, delete_slots(old(self)@) as int),
        ensures
            r.0@ == delete_text(old(self)@),
            r.1@ == delete_binds(old(self)@),
            final(self)@ == (DeleteView {
                gen: advance(old(self)@.gen, delete_slots(old(self)@) as int),
                ..old(self)@
            }),
    {
        proof {
            reveal_strlit("DELETE FROM ");
        }
        let mut sql = String::from_str("DELETE FROM ");
        sql.append(self.table_name.as_str());
        let mut binds: Vec<Bind> = Vec::new();
        let ghost s1 = sql@;
        render_where(&self.where_and, &self.where_or, &mut self.gen, false, &mut sql, &mut binds);
        assert(s1 =~= delete_prefix() + old(self)@.table);
        assert(sql@ =~= delete_text(old(self)@));
        assert(binds@ =~= delete_binds(old(self)@));
        (sql, binds)
    }

    /// Adds a condition to the AND-list.
    pub fn wheres(&mut self, column: &str, operator: &str, value: Bind) -> (r: &mut Self)
        ensures
            r@ == (DeleteView {
                ands: old(self)@.ands.push(
                    CondView { column: column@, operator: operator@, value },
                ),
                ..old(self)@
            }),
            *final(self) == *final(r),
    {
        self.where_and.push(Condition { column: copy_str(column), operator: copy_str(operator), value });
        assert(self@.ands =~= old(self)@.ands.push(
            CondView { column: column@, operator: operator@, value },
        ));
        self
    }
}

} // verus!
