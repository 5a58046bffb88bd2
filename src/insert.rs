use vstd::prelude::*;
use vstd::string::*;
use crate::assignment::{
    append_pairs, column_list, given_pairs, pair_values, pair_views, render_value_lists,
    token_list,
};
use crate::bind::Bind;
use crate::insert_item::InsertConfig;
use crate::placeholder::{advance, config_gen, config_ok, has_room, GenView, PlaceholderGen};
use crate::statement::{copy_str, insert_prefix, values_middle};
use crate::table::Table;

verus! {

/// The model of an `Insert` builder.
pub struct InsertView {
    pub table: Seq<char>,
    pub values: Seq<(Seq<char>, Bind)>,
    pub gen: GenView,
}

/// `INSERT INTO <table>`, then, when there are values,
/// ` (<c1>,<c2>,...) VALUES (<ph1>,<ph2>,...)`.
pub open spec fn insert_text(v: InsertView) -> Seq<char> {
    insert_prefix() + v.table + if v.values.len() > 0 {
        seq![' ', '('] + column_list(v.values) + values_middle() + token_list(
            v.values.len(),
            v.gen,
            0,
        ) + seq![')']
    } else {
        seq![]
    }
}

/// The values that a render of `v` binds, in order.
pub open spec fn insert_binds(v: InsertView) -> Seq<Bind> {
    pair_values(v.values)
}

/// A render with a static placeholder leaves the builder as it was, so a
/// second render gives the same text and the same values.
pub proof fn lemma_insert_render_repeats(v: InsertView)
    requires
        v.gen.cursor is None,
    ensures
        (InsertView { gen: advance(v.gen, v.values.len() as int), ..v }) == v,
        insert_text(InsertView { gen: advance(v.gen, v.values.len() as int), ..v })
            == insert_text(v),
        insert_binds(InsertView { gen: advance(v.gen, v.values.len() as int), ..v })
            == insert_binds(v),
{
}

/// A render binds one value per column, in column order: the `i`-th column
/// takes placeholder number `i` and binds the `i`-th value.
pub proof fn lemma_insert_alignment(v: InsertView)
    ensures
        insert_binds(v).len() == v.values.len(),
        forall|i: int| 0 <= i < v.values.len() ==> #[trigger] insert_binds(v)[i] == v.values[i].1,
{
}

/// SQL insert builder.
pub struct Insert {
    pub table_name: Table,
    gen: PlaceholderGen,
    insert_values: Vec<(String, Bind)>,
}

impl View for Insert {
    type V = InsertView;

    closed spec fn view(&self) -> InsertView {
        InsertView {
            table: self.table_name.name@,
            values: pair_views(self.insert_values@),
            gen: self.gen@,
        }
    }
}

impl Insert {
    /// A builder for `INSERT INTO <table_name>`; placeholders are `?` unless
    /// `config` says otherwise.
    pub fn new(table_name: &str, config: Option<InsertConfig>) -> (r: Insert)
        requires
            config_ok(config),
        ensures
            r@ == (InsertView { table: table_name@, values: seq![], gen: config_gen(config) }),
    {
        let r = Insert {
            table_name: Table { name: copy_str(table_name), alias: None },
            gen: PlaceholderGen::new(config),
            insert_values: Vec::new(),
        };
        assert(r@.values =~= seq![]);
        r
    }

    /// Appends `(column, value)` pairs after those given before.
    pub fn values(&mut self, value: Vec<(&str, Bind)>) -> (r: &mut Self)
        ensures
            r@ == (InsertView { values: old(self)@.values + given_pairs(value@), ..old(self)@ }),
            *final(self) == *final(r),
    {
        append_pairs(&mut self.insert_values, &value);
        self
    }

    /// The statement's text; the placeholders it draws move an indexed
    /// generator on.
    pub fn to_sql(&mut self) -> (r: String)
        requires
            has_room(old(self)@.gen, old(self)@.values.len() as int),
        ensures
            r@ == insert_text(old(self)@),
            final(self)@ == (InsertView {
                gen: advance(old(self)@.gen, old(self)@.values.len() as int),
                ..old(self)@
            }),
    {
        let (sql, _binds) = self.to_sql_with_bind();
        sql
    }

    /// The statement's text and the values bound to its placeholders, in order.
    pub fn to_sql_with_bind(&mut self) -> (r: (String, Vec<Bind>))
        requires
            has_room(old(self)@.gen, old(self)@.values.len() as int),
        ensures
            r.0@ == insert_text(old(self)@),
            r.1@ == insert_binds(old(self)@),
            final(self)@ == (InsertView {
                gen: advance(old(self)@.gen, old(self)@.values.len() as int),
                ..old(self)@
            }),
    {
        proof {
            reveal_strlit("INSERT INTO ");
        }
        let mut sql = String::from_str("INSERT INTO ");
        sql.append(self.table_name.name.as_str());
        let mut binds: Vec<Bind> = Vec::new();
        assert(sql@ =~= insert_prefix() + old(self)@.table);
        if self.insert_values.len() > 0 {
            render_value_lists(&self.insert_values, &mut self.gen, &mut sql, &mut binds);
        } else {
            assert(advance(old(self)@.gen, 0) == old(self)@.gen);
        }
        assert(sql@ =~= insert_text(old(self)@));
        assert(binds@ =~= insert_binds(old(self)@));
        (sql, binds)
    }
}

} // verus!
