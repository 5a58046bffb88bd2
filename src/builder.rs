use vstd::prelude::*;
use vstd::string::*;
use crate::bind::{copy_binds, Bind};
use crate::condition::{and_sep, where_word};
use crate::fragment::{raw_group_views, raw_groups_text, render_raw_groups};
use crate::select::{copy_opt, fragment_clause, projection_text, qualifier, render_fragments};
use crate::statement::{
    append_joined, append_strs, copy_str, from_word, group_by_word, joined_with, order_by_word,
    select_word, str_views, string_views,
};
use crate::table::Table;

verus! {

/// The model of a `Builder`.
pub struct BuilderView {
    pub table: Seq<char>,
    pub alias: Option<Seq<char>>,
    pub columns: Seq<Seq<char>>,
    pub ands: Seq<Seq<char>>,
    pub ors: Seq<Seq<Seq<char>>>,
    pub order_by: Seq<Seq<char>>,
    pub group_by: Seq<Seq<char>>,
    pub binds: Seq<Bind>,
}

/// The WHERE section of raw fragments: nothing when there are none; else
/// ` WHERE`, the AND-fragments joined by ` AND`, then the OR-groups, joined to
/// the AND-fragments by ` AND` when there are both.
pub open spec fn raw_where_text(ands: Seq<Seq<char>>, ors: Seq<Seq<Seq<char>>>) -> Seq<char> {
    (if ands.len() > 0 || ors.len() > 0 {
        where_word()
    } else {
        seq![]
    }) + joined_with(ands, seq![' '], and_sep()) + (if ands.len() > 0 && ors.len() > 0 {
        and_sep()
    } else {
        seq![]
    }) + raw_groups_text(ors, false)
}

/// The whole statement: projection, FROM, WHERE, ORDER BY, GROUP BY.
pub open spec fn builder_text(v: BuilderView) -> Seq<char> {
    select_word() + projection_text(v.columns) + from_word() + v.table + seq![' '] + qualifier(
        v.table,
        v.alias,
    ) + raw_where_text(v.ands, v.ors) + fragment_clause(order_by_word(), v.order_by)
        + fragment_clause(group_by_word(), v.group_by)
}

/// A SELECT builder over raw, pre-formatted fragments. The values bound to the
/// placeholders that the fragments hold are given separately, in order.
pub struct Builder {
    pub table_name: Table,
    select_query: Vec<String>,
    where_and_query: Vec<String>,
    where_or_query: Vec<Vec<String>>,
    order_by_query: Vec<String>,
    group_by_query: Vec<String>,
    raw_binds: Vec<Bind>,
}

impl View for Builder {
    type V = BuilderView;

    closed spec fn view(&self) -> BuilderView {
        BuilderView {
            table: self.table_name.name@,
            alias: match self.table_name.alias {
                Some(a) => Some(a@),
                None => None,
            },
            columns: string_views(self.select_query@),
            ands: string_views(self.where_and_query@),
            ors: raw_group_views(self.where_or_query@),
            order_by: string_views(self.order_by_query@),
            group_by: string_views(self.group_by_query@),
            binds: self.raw_binds@,
        }
    }
}

impl Builder {
    /// A builder for `SELECT ... FROM <table_name> <alias>`.
    pub fn new(table_name: &str, alias: Option<&str>) -> (r: Builder)
        ensures
            r@ == (BuilderView {
                table: table_name@,
                alias: match alias {
                    Some(a) => Some(a@),
                    None => None,
                },
                columns: seq![],
                ands: seq![],
                ors: seq![],
                order_by: seq![],
                group_by: seq![],
                binds: seq![],
            }),
    {
        let r = Builder {
            table_name: Table { name: copy_str(table_name), alias: copy_opt(alias) },
            select_query: Vec::new(),
            where_and_query: Vec::new(),
            where_or_query: Vec::new(),
            order_by_query: Vec::new(),
            group_by_query: Vec::new(),
            raw_binds: Vec::new(),
        };
        assert(r@.columns =~= seq![]);
        assert(r@.ands =~= seq![]);
        assert(r@.ors =~= seq![]);
        assert(r@.order_by =~= seq![]);
        assert(r@.group_by =~= seq![]);
        r
    }

    /// Adds a raw projection fragment.
    pub fn select_raw(&mut self, raw: &str) -> (r: &mut Self)
        ensures
            r@ == (BuilderView { columns: old(self)@.columns.push(raw@), ..old(self)@ }),
            *final(self) == *final(r),
    {
        self.select_query.push(copy_str(raw));
        assert(self@.columns =~= old(self)@.columns.push(raw@));
        self
    }

    /// Adds a raw fragment to the AND-list.
    pub fn where_raw(&mut self, raw: &str) -> (r: &mut Self)
        ensures
            r@ == (BuilderView { ands: old(self)@.ands.push(raw@), ..old(self)@ }),
            *final(self) == *final(r),
    {
        self.where_and_query.push(copy_str(raw));
        assert(self@.ands =~= old(self)@.ands.push(raw@));
        self
    }

    /// Adds an OR-group of raw fragments.
    pub fn where_or_raw(&mut self, raw: Vec<&str>) -> (r: &mut Self)
        ensures
            r@ == (BuilderView { ors: old(self)@.ors.push(str_views(raw@)), ..old(self)@ }),
            *final(self) == *final(r),
    {
        let mut group: Vec<String> = Vec::new();
        append_strs(&mut group, &raw);
        assert(string_views(group@) =~= str_views(raw@));
        self.where_or_query.push(group);
        assert(self@.ors =~= old(self)@.ors.push(str_views(raw@)));
        self
    }

    /// Appends raw ordering fragments after those given before.
    pub fn order_by_raw(&mut self, raw: Vec<&str>) -> (r: &mut Self)
        ensures
            r@ == (BuilderView { order_by: old(self)@.order_by + str_views(raw@), ..old(self)@ }),
            *final(self) == *final(r),
    {
        append_strs(&mut self.order_by_query, &raw);
        self
    }

    /// Appends raw grouping fragments after those given before.
    pub fn group_by_raw(&mut self, raw: Vec<&str>) -> (r: &mut Self)
        ensures
            r@ == (BuilderView { group_by: old(self)@.group_by + str_views(raw@), ..old(self)@ }),
            *final(self) == *final(r),
    {
        append_strs(&mut self.group_by_query, &raw);
        self
    }

    /// Adds a value to bind, after those given before.
    pub fn bind_raw(&mut self, value: Bind) -> (r: &mut Self)
        ensures
            r@ == (BuilderView { binds: old(self)@.binds.push(value), ..old(self)@ }),
            *final(self) == *final(r),
    {
        self.raw_binds.push(value);
        self
    }

    /// The statement's text.
    pub fn to_sql(&self) -> (r: String)
        ensures
            r@ == builder_text(self@),
    {
        proof {
            reveal_strlit("SELECT");
            reveal_strlit(" *");
            reveal_strlit(" ");
            reveal_strlit(",");
            reveal_strlit(" FROM ");
            reveal_strlit(" WHERE");
            reveal_strlit(" AND");
            reveal_strlit(" ORDER BY ");
            reveal_strlit(" GROUP BY ");
        }
        let ghost v = self@;
        let mut sql = String::from_str("SELECT");
        if self.select_query.len() == 0 {
            sql.append(" *");
        } else {
            append_joined(&mut sql, &self.select_query, " ", ",");
            assert(" "@ =~= seq![' ']);
            assert(","@ =~= seq![',']);
        }
        assert(sql@ =~= select_word() + projection_text(v.columns));
        sql.append(" FROM ");
        sql.append(self.table_name.name.as_str());
        sql.append(" ");
        match &self.table_name.alias {
            Some(a) => sql.append(a.as_str()),
            None => sql.append(self.table_name.name.as_str()),
        }
        let ghost s1 = sql@;
        assert(s1 =~= select_word() + projection_text(v.columns) + from_word() + v.table + seq![
            ' ',
        ] + qualifier(v.table, v.alias));
        let has_ands = self.where_and_query.len() > 0;
        let has_ors = self.where_or_query.len() > 0;
        if has_ands || has_ors {
            sql.append(" WHERE");
        }
        append_joined(&mut sql, &self.where_and_query, " ", " AND");
        if has_ands && has_ors {
            sql.append(" AND");
        }
        render_raw_groups(&self.where_or_query, false, &mut sql);
        assert(" "@ =~= seq![' ']);
        assert(" AND"@ =~= and_sep());
        assert(sql@ =~= s1 + raw_where_text(v.ands, v.ors));
        render_fragments(" ORDER BY ", &self.order_by_query, &mut sql);
        render_fragments(" GROUP BY ", &self.group_by_query, &mut sql);
        assert(" ORDER BY "@ =~= order_by_word());
        assert(" GROUP BY "@ =~= group_by_word());
        assert(sql@ =~= builder_text(v));
        sql
    }

    /// The statement's text and the values given by `bind_raw`, in order.
    pub fn to_sql_with_bind(&self) -> (r: (String, Vec<Bind>))
        ensures
            r.0@ == builder_text(self@),
            r.1@ == self@.binds,
    {
        (self.to_sql(), copy_binds(&self.raw_binds))
    }
}

} // verus!
