use vstd::prelude::*;
use vstd::string::*;
use crate::bind::{copy_binds, Bind};
use crate::condition::{
    and_sep, cond_views, conditions_of, conditions_text, group_views, groups_text,
    lemma_where_alignment, mixed_where_text, or_views, render_mixed_where, where_binds, where_slots,
    CondView, Condition,
};
use crate::fragment::{raw_group_views, raw_groups_text};
use crate::placeholder::{
    advance, config_gen, config_ok, has_room, int_text, int_to_text, GenView, PlaceholderGen,
};
use crate::select_item::SelectConfig;
use crate::statement::{
    append_joined, append_strs, comma_space, copy_str, from_word, group_by_word, join_word,
    joined_with, limit_word, offset_word, on_word, order_by_word, select_word, str_views,
    string_views,
};
use crate::table::Table;
use crate::where_item::Or;

verus! {

/// One join: `[<kind> ]JOIN <table> ON <on>`.
struct JoinInternal {
    join_type: Option<String>,
    table_name: String,
    on: String,
}

/// The model of a join.
pub struct JoinView {
    pub kind: Option<Seq<char>>,
    pub table: Seq<char>,
    pub on: Seq<char>,
}

spec fn join_view(j: JoinInternal) -> JoinView {
    JoinView {
        kind: match j.join_type {
            Some(k) => Some(k@),
            None => None,
        },
        table: j.table_name@,
        on: j.on@,
    }
}

spec fn join_views(js: Seq<JoinInternal>) -> Seq<JoinView> {
    js.map_values(|j: JoinInternal| join_view(j))
}

/// The model of a `Select` builder.
pub struct SelectView {
    pub table: Seq<char>,
    pub alias: Option<Seq<char>>,
    pub columns: Seq<Seq<char>>,
    pub joins: Seq<JoinView>,
    pub raw_joins: Seq<Seq<char>>,
    pub ands: Seq<CondView>,
    pub raw_ands: Seq<Seq<char>>,
    pub ors: Seq<Seq<CondView>>,
    pub raw_ors: Seq<Seq<Seq<char>>>,
    pub order_by: Seq<Seq<char>>,
    pub group_by: Seq<Seq<char>>,
    pub limit: Option<i64>,
    pub offset: Option<i64>,
    pub raw_binds: Seq<Bind>,
    pub gen: GenView,
}

/// The name that qualifies a table: its alias, or else its name.
pub open spec fn qualifier(table: Seq<char>, alias: Option<Seq<char>>) -> Seq<char> {
    match alias {
        Some(a) => a,
        None => table,
    }
}

/// ` <kind> JOIN <table> ON <on>`, or ` JOIN <table> ON <on>` without a kind.
pub open spec fn join_text(j: JoinView) -> Seq<char> {
    match j.kind {
        Some(k) => seq![' '] + k + join_word() + j.table + on_word() + j.on,
        None => join_word() + j.table + on_word() + j.on,
    }
}

/// The joins in order.
pub open spec fn joins_text(js: Seq<JoinView>) -> Seq<char>
    decreases js.len(),
{
    if js.len() == 0 {
        seq![]
    } else {
        joins_text(js.drop_last()) + join_text(js.last())
    }
}

/// ` *` with no columns, else ` c1, c2, ...`.
pub open spec fn projection_text(columns: Seq<Seq<char>>) -> Seq<char> {
    if columns.len() == 0 {
        seq![' ', '*']
    } else {
        joined_with(columns, seq![' '], seq![','])
    }
}

/// ` <word><f1>, <f2>, ...` when there are fragments, else nothing.
pub open spec fn fragment_clause(word: Seq<char>, items: Seq<Seq<char>>) -> Seq<char> {
    if items.len() == 0 {
        seq![]
    } else {
        word + joined_with(items, seq![], comma_space())
    }
}

/// ` <word><n>` when `n` is set, else nothing.
pub open spec fn number_clause(word: Seq<char>, n: Option<i64>) -> Seq<char> {
    match n {
        Some(x) => word + int_text(x as int),
        None => seq![],
    }
}

/// The whole SELECT statement, its sections in a fixed order: projection,
/// FROM, joins then raw joins, WHERE (see `mixed_where_text`), ORDER BY,
/// GROUP BY, LIMIT, OFFSET. A `Null` value is written as `NULL` and binds
/// nothing.
pub open spec fn select_text(v: SelectView) -> Seq<char> {
    select_word() + projection_text(v.columns) + from_word() + v.table + seq![' '] + qualifier(v.table, v.alias)
        + joins_text(v.joins) + joined_with(v.raw_joins, seq![' '], seq![]) + mixed_where_text(
        v.ands,
        v.raw_ands,
        v.ors,
        v.raw_ors,
        v.gen,
        true,
    ) + fragment_clause(
        order_by_word(),
        v.order_by,
    ) + fragment_clause(group_by_word(), v.group_by) + number_clause(limit_word(), v.limit)
        + number_clause(offset_word(), v.offset)
}

/// The values that a render of `v` binds, in order: those of the conditions,
/// then those given by `bind_raw`.
pub open spec fn select_binds(v: SelectView) -> Seq<Bind> {
    where_binds(v.ands, v.ors, true) + v.raw_binds
}

/// How many placeholders a render of `v` draws.
pub open spec fn select_slots(v: SelectView) -> nat {
    where_slots(v.ands, v.ors, true)
}

/// A builder for table `t` with nothing configured renders
/// `SELECT * FROM t t`, whatever its placeholders.
pub proof fn lemma_bare_select(t: Seq<char>, g: GenView)
    ensures
        select_text(
            SelectView {
                table: t,
                alias: None,
                columns: seq![],
                joins: seq![],
                raw_joins: seq![],
                ands: seq![],
                raw_ands: seq![],
                ors: seq![],
                raw_ors: seq![],
                order_by: seq![],
                group_by: seq![],
                limit: None,
                offset: None,
                raw_binds: seq![],
                gen: g,
            },
        ) == seq!['S', 'E', 'L', 'E', 'C', 'T', ' ', '*', ' ', 'F', 'R', 'O', 'M', ' '] + t + seq![' ']
            + t,
{
    let v = SelectView {
        table: t,
        alias: None,
        columns: seq![],
        joins: seq![],
        raw_joins: seq![],
        ands: seq![],
        raw_ands: seq![],
        ors: seq![],
        raw_ors: seq![],
        order_by: seq![],
        group_by: seq![],
        limit: None,
        offset: None,
        raw_binds: seq![],
        gen: g,
    };
    assert(joins_text(v.joins) == Seq::<char>::empty());
    assert(conditions_text(v.ands, and_sep(), g, 0, true) == Seq::<char>::empty());
    assert(groups_text(v.ors, g, 0, true) == Seq::<char>::empty());
    assert(joined_with(v.raw_joins, seq![' '], seq![]) == Seq::<char>::empty());
    assert(joined_with(v.raw_ands, seq![' '], and_sep()) == Seq::<char>::empty());
    assert(raw_groups_text(v.raw_ors, false) == Seq::<char>::empty());
    assert(mixed_where_text(v.ands, v.raw_ands, v.ors, v.raw_ors, g, true) =~= Seq::<char>::empty());
    assert(select_text(v) =~= seq!['S', 'E', 'L', 'E', 'C', 'T', ' ', '*', ' ', 'F', 'R', 'O', 'M', ' ']
        + t + seq![' '] + t);
}

/// The FROM clause names the table and then qualifies it by its alias, or by
/// its own name when it has none: the text up to there is
/// `SELECT <projection> FROM <table> <alias or table>`.
pub proof fn lemma_from_qualifier(v: SelectView)
    ensures
        (select_word() + projection_text(v.columns) + from_word() + v.table + seq![' '] + match v.alias {
            Some(a) => a,
            None => v.table,
        }).is_prefix_of(select_text(v)),
{
    let head = select_word() + projection_text(v.columns) + from_word() + v.table + seq![' ']
        + qualifier(v.table, v.alias);
    assert(select_text(v).subrange(0, head.len() as int) =~= head);
}

/// A render with a static placeholder leaves the builder as it was, so a
/// second render gives the same text and the same values.
pub proof fn lemma_select_render_repeats(v: SelectView)
    requires
        v.gen.cursor is None,
    ensures
        (SelectView { gen: advance(v.gen, select_slots(v) as int), ..v }) == v,
        select_text(SelectView { gen: advance(v.gen, select_slots(v) as int), ..v })
            == select_text(v),
        select_binds(SelectView { gen: advance(v.gen, select_slots(v) as int), ..v })
            == select_binds(v),
{
}

/// A render binds one value per placeholder that it draws, in the order of
/// the conditions (see `lemma_where_alignment`), and then the values given by
/// `bind_raw`, in call order.
pub proof fn lemma_select_alignment(v: SelectView)
    ensures
        select_binds(v).len() == select_slots(v) + v.raw_binds.len(),
        select_binds(v).take(select_slots(v) as int) == where_binds(v.ands, v.ors, true),
        select_binds(v).skip(select_slots(v) as int) == v.raw_binds,
{
    lemma_where_alignment(v.ands, v.ors, v.gen, true);
    assert(select_binds(v).take(select_slots(v) as int) =~= where_binds(v.ands, v.ors, true));
    assert(select_binds(v).skip(select_slots(v) as int) =~= v.raw_binds);
}

/// SQL select builder.
pub struct Select {
    pub table_name: Table,
    gen: PlaceholderGen,
    select: Vec<String>,
    join: Vec<JoinInternal>,
    join_raw: Vec<String>,
    where_and: Vec<Condition>,
    where_and_raw: Vec<String>,
    where_or: Vec<Vec<Condition>>,
    where_or_raw: Vec<Vec<String>>,
    order_by_query: Vec<String>,
    group_by_query: Vec<String>,
    limit: Option<i64>,
    offset: Option<i64>,
    raw_binds: Vec<Bind>,
}

impl View for Select {
    type V = SelectView;

    closed spec fn view(&self) -> SelectView {
        SelectView {
            table: self.table_name.name@,
            alias: match self.table_name.alias {
                Some(a) => Some(a@),
                None => None,
            },
            columns: string_views(self.select@),
            joins: join_views(self.join@),
            raw_joins: string_views(self.join_raw@),
            ands: cond_views(self.where_and@),
            raw_ands: string_views(self.where_and_raw@),
            ors: group_views(self.where_or@),
            raw_ors: raw_group_views(self.where_or_raw@),
            order_by: string_views(self.order_by_query@),
            group_by: string_views(self.group_by_query@),
            limit: self.limit,
            offset: self.offset,
            raw_binds: self.raw_binds@,
            gen: self.gen@,
        }
    }
}

/// An owned copy of an optional string.
pub fn copy_opt(s: Option<&str>) -> (r: Option<String>)
    ensures
        r matches Some(x) ==> s matches Some(y) && x@ == y@,
        r is None <==> s is None,
{
    match s {
        Some(x) => Some(copy_str(x)),
        None => None,
    }
}

/// Appends the joins in order.
fn render_joins(js: &Vec<JoinInternal>, sql: &mut String)
    ensures
        final(sql)@ == old(sql)@ + joins_text(join_views(js@)),
{
    let ghost s0 = sql@;
    let ghost jv = join_views(js@);
    let mut i: usize = 0;
    assert(jv.take(0) =~= Seq::<JoinView>::empty());
    assert(sql@ =~= s0 + joins_text(jv.take(0)));
    while i < js.len()
        invariant
            i <= js.len(),
            jv == join_views(js@),
            sql@ == s0 + joins_text(jv.take(i as int)),
        decreases js.len() - i,
    {
        proof {
            reveal_strlit(" ");
            reveal_strlit(" JOIN ");
            reveal_strlit(" ON ");
        }
        let ghost next = jv.take(i + 1);
        assert(next.drop_last() =~= jv.take(i as int));
        let j = &js[i];
        match &j.join_type {
            Some(k) => {
                sql.append(" ");
                sql.append(k.as_str());
            },
            None => {},
        }
        sql.append(" JOIN ");
        sql.append(j.table_name.as_str());
        sql.append(" ON ");
        sql.append(j.on.as_str());
        i = i + 1;
        assert(sql@ =~= s0 + joins_text(next));
    }
    assert(jv.take(i as int) =~= jv);
}

/// Appends ` <word><n>` when `n` is set.
fn render_number(word: &str, n: Option<i64>, sql: &mut String)
    ensures
        final(sql)@ == old(sql)@ + number_clause(word@, n),
{
    match n {
        Some(x) => {
            sql.append(word);
            let digits = int_to_text(x);
            sql.append(digits.as_str());
        },
        None => {},
    }
    assert(final(sql)@ =~= old(sql)@ + number_clause(word@, n));
}

/// Appends ` <word><f1>, <f2>, ...` when there are fragments.
pub fn render_fragments(word: &str, items: &Vec<String>, sql: &mut String)
    ensures
        final(sql)@ == old(sql)@ + fragment_clause(word@, string_views(items@)),
{
    proof {
        reveal_strlit("");
        reveal_strlit(", ");
    }
    if items.len() > 0 {
        sql.append(word);
        append_joined(sql, items, "", ", ");
        assert(""@ =~= Seq::<char>::empty());
        assert(", "@ =~= comma_space());
    }
    assert(final(sql)@ =~= old(sql)@ + fragment_clause(word@, string_views(items@)));
}

impl Select {
    /// The statement's text; the placeholders it draws move an indexed
    /// generator on.
    pub fn to_sql(&mut self) -> (r: String)
        requires
            has_room(old(self)@.gen, select_slots(old(self)@) as int),
        ensures
            r@ == select_text(old(self)@),
            final(self)@ == (SelectView {
                gen: advance(old(self)@.gen, select_slots(old(self)@) as int),
                ..old(self)@
            }),
    {
        let (sql, _binds) = self.to_sql_with_bind();
        sql
    }

    /// The statement's text and the values bound to its placeholders, in order.
    pub fn to_sql_with_bind(&mut self) -> (r: (String, Vec<Bind>))
        requires
            has_room(old(self)@.gen, select_slots(old(self)@) as int),
        ensures
            r.0@ == select_text(old(self)@),
            r.1@ == select_binds(old(self)@),
            final(self)@ == (SelectView {
                gen: advance(old(self)@.gen, select_slots(old(self)@) as int),
                ..old(self)@
            }),
    {
        proof {
            reveal_strlit("SELECT");
            reveal_strlit(" *");
            reveal_strlit(" ");
            reveal_strlit(",");
            reveal_strlit(" FROM ");
            reveal_strlit(" ORDER BY ");
            reveal_strlit(" GROUP BY ");
            reveal_strlit(" LIMIT ");
            reveal_strlit(" OFFSET ");
        }
        let ghost v = self@;
        let mut sql = String::from_str("SELECT");
        if self.select.len() == 0 {
            sql.append(" *");
        } else {
            append_joined(&mut sql, &self.select, " ", ",");
            assert(" "@ =~= seq![' ']);
            assert(","@ =~= seq![',']);
        }
        assert(sql@ =~= select_word() + projection_text(v.columns));
        sql.append(" FROM ");
        sql.append(self.table_name.name.as_str());
        sql.append(" ");
        match &self.table_name.alias {
            Some(a) => sql.append(a.as_str()),
            None => sql.append(self.table_name.name.as_str()),
        }
        assert(sql@ =~= select_word() + projection_text(v.columns) + from_word() + v.table + seq![
            ' ',
        ] + qualifier(v.table, v.alias));
        render_joins(&self.join, &mut sql);
        proof {
            reveal_strlit("");
        }
        append_joined(&mut sql, &self.join_raw, " ", "");
        assert(""@ =~= Seq::<char>::empty());
        assert(" "@ =~= seq![' ']);
        let ghost before_where = sql@;
        let mut binds: Vec<Bind> = Vec::new();
        render_mixed_where(
            &self.where_and,
            &self.where_and_raw,
            &self.where_or,
            &self.where_or_raw,
            &mut self.gen,
            true,
            &mut sql,
            &mut binds,
        );
        let ghost structured = binds@;
        let ghost after_where = sql@;
        let mut extra = copy_binds(&self.raw_binds);
        binds.append(&mut extra);
        render_fragments(" ORDER BY ", &self.order_by_query, &mut sql);
        render_fragments(" GROUP BY ", &self.group_by_query, &mut sql);
        render_number(" LIMIT ", self.limit, &mut sql);
        render_number(" OFFSET ", self.offset, &mut sql);
        assert(" ORDER BY "@ =~= order_by_word());
        assert(" GROUP BY "@ =~= group_by_word());
        assert(" LIMIT "@ =~= limit_word());
        assert(" OFFSET "@ =~= offset_word());
        assert(after_where =~= before_where + mixed_where_text(
            v.ands,
            v.raw_ands,
            v.ors,
            v.raw_ors,
            v.gen,
            true,
        ));
        assert(sql@ =~= select_text(v));
        assert(binds@ =~= structured + v.raw_binds);
        assert(binds@ =~= select_binds(v));
        (sql, binds)
    }

    /// A builder for `SELECT ... FROM <table_name> <alias>`; placeholders are
    /// `?` unless `config` says otherwise.
    pub fn new(table_name: &str, alias: Option<&str>, config: Option<SelectConfig>) -> (r: Select)
        requires
            config_ok(config),
        ensures
            r@ == (SelectView {
                table: table_name@,
                alias: match alias {
                    Some(a) => Some(a@),
                    None => None,
                },
                columns: seq![],
                joins: seq![],
                raw_joins: seq![],
                ands: seq![],
                raw_ands: seq![],
                ors: seq![],
                raw_ors: seq![],
                order_by: seq![],
                group_by: seq![],
                limit: None,
                offset: None,
                raw_binds: seq![],
                gen: config_gen(config),
            }),
    {
        let r = Select {
            table_name: Table { name: copy_str(table_name), alias: copy_opt(alias) },
            gen: PlaceholderGen::new(config),
            select: Vec::new(),
            join: Vec::new(),
            join_raw: Vec::new(),
            where_and: Vec::new(),
            where_and_raw: Vec::new(),
            where_or: Vec::new(),
            where_or_raw: Vec::new(),
            order_by_query: Vec::new(),
            group_by_query: Vec::new(),
            limit: None,
            offset: None,
            raw_binds: Vec::new(),
        };
        assert(r@.columns =~= seq![]);
        assert(r@.joins =~= seq![]);
        assert(r@.raw_joins =~= seq![]);
        assert(r@.ands =~= seq![]);
        assert(r@.raw_ands =~= seq![]);
        assert(r@.ors =~= seq![]);
        assert(r@.raw_ors =~= seq![]);
        assert(r@.order_by =~= seq![]);
        assert(r@.group_by =~= seq![]);
        r
    }

    /// Adds a column (any raw projection text) to the projection.
    pub fn select(&mut self, raw: &str) -> (r: &mut Self)
        ensures
            r@ == (SelectView { columns: old(self)@.columns.push(raw@), ..old(self)@ }),
            *final(self) == *final(r),
    {
        self.select.push(copy_str(raw));
        assert(self@.columns =~= old(self)@.columns.push(raw@));
        self
    }

    /// Adds a join, rendered after the earlier ones.
    pub fn join(&mut self, join_type: Option<&str>, table_name: &str, on: &str) -> (r: &mut Self)
        ensures
            r@ == (SelectView {
                joins: old(self)@.joins.push(
                    JoinView {
                        kind: match join_type {
                            Some(k) => Some(k@),
                            None => None,
                        },
                        table: table_name@,
                        on: on@,
                    },
                ),
                ..old(self)@
            }),
            *final(self) == *final(r),
    {
        self.join.push(
            JoinInternal {
                join_type: copy_opt(join_type),
                table_name: copy_str(table_name),
                on: copy_str(on),
            },
        );
        assert(self@.joins =~= old(self)@.joins.push(
            JoinView {
                kind: match join_type {
                    Some(k) => Some(k@),
                    None => None,
                },
                table: table_name@,
                on: on@,
            },
        ));
        self
    }

    /// Adds a condition to the AND-list.
    pub fn wheres(&mut self, column: &str, operator: &str, value: Bind) -> (r: &mut Self)
        ensures
            r@ == (SelectView {
                ands: old(self)@.ands.push(
                    CondView { column: column@, operator: operator@, value },
                ),
                ..old(self)@
            }),
            *final(self) == *final(r),
    {
        self.where_and.push(Condition { column: copy_str(column), operator: copy_str(operator), value });
        assert(self@.ands =~= old(self)@.ands.push(
            CondView { column: column@, operator: operator@, value },
        ));
        self
    }

    /// Adds an OR-group, rendered after the AND-list and any earlier groups.
    pub fn where_or(&mut self, wheres: Vec<Or>) -> (r: &mut Self)
        ensures
            r@ == (SelectView { ors: old(self)@.ors.push(or_views(wheres@)), ..old(self)@ }),
            *final(self) == *final(r),
    {
        let group = conditions_of(&wheres);
        self.where_or.push(group);
        assert(self@.ors =~= old(self)@.ors.push(or_views(wheres@)));
        self
    }

    /// Appends ordering fragments after those given before.
    pub fn order_by(&mut self, raw: Vec<&str>) -> (r: &mut Self)
        ensures
            r@ == (SelectView { order_by: old(self)@.order_by + str_views(raw@), ..old(self)@ }),
            *final(self) == *final(r),
    {
        append_strs(&mut self.order_by_query, &raw);
        self
    }

    /// Appends grouping fragments after those given before.
    pub fn group_by(&mut self, raw: Vec<&str>) -> (r: &mut Self)
        ensures
            r@ == (SelectView { group_by: old(self)@.group_by + str_views(raw@), ..old(self)@ }),
            *final(self) == *final(r),
    {
        append_strs(&mut self.group_by_query, &raw);
        self
    }

    /// Sets the row limit, replacing an earlier one.
    pub fn limit(&mut self, limit: i64) -> (r: &mut Self)
        ensures
            r@ == (SelectView { limit: Some(limit), ..old(self)@ }),
            *final(self) == *final(r),
    {
        self.limit = Some(limit);
        self
    }

    /// Adds a raw join fragment, rendered after all structured joins.
    pub fn join_raw(&mut self, raw: &str) -> (r: &mut Self)
        ensures
            r@ == (SelectView { raw_joins: old(self)@.raw_joins.push(raw@), ..old(self)@ }),
            *final(self) == *final(r),
    {
        self.join_raw.push(copy_str(raw));
        assert(self@.raw_joins =~= old(self)@.raw_joins.push(raw@));
        self
    }

    /// Adds a raw fragment to the AND-list, after all structured conditions.
    pub fn where_raw(&mut self, raw: &str) -> (r: &mut Self)
        ensures
            r@ == (SelectView { raw_ands: old(self)@.raw_ands.push(raw@), ..old(self)@ }),
            *final(self) == *final(r),
    {
        self.where_and_raw.push(copy_str(raw));
        assert(self@.raw_ands =~= old(self)@.raw_ands.push(raw@));
        self
    }

    /// Adds an OR-group of raw fragments, after all structured OR-groups.
    pub fn where_or_raw(&mut self, raw: Vec<&str>) -> (r: &mut Self)
        ensures
            r@ == (SelectView { raw_ors: old(self)@.raw_ors.push(str_views(raw@)), ..old(self)@ }),
            *final(self) == *final(r),
    {
        let mut group: Vec<String> = Vec::new();
        append_strs(&mut group, &raw);
        assert(string_views(group@) =~= str_views(raw@));
        self.where_or_raw.push(group);
        assert(self@.raw_ors =~= old(self)@.raw_ors.push(str_views(raw@)));
        self
    }

    /// Adds a value for a placeholder that a raw fragment holds; such values
    /// are bound after those of the structured conditions, in call order.
    pub fn bind_raw(&mut self, value: Bind) -> (r: &mut Self)
        ensures
            r@ == (SelectView { raw_binds: old(self)@.raw_binds.push(value), ..old(self)@ }),
            *final(self) == *final(r),
    {
        self.raw_binds.push(value);
        self
    }

    /// Sets the row offset, replacing an earlier one.
    pub fn offset(&mut self, offset: i64) -> (r: &mut Self)
        ensures
            r@ == (SelectView { offset: Some(offset), ..old(self)@ }),
            *final(self) == *final(r),
    {
        self.offset = Some(offset);
        self
    }
}

} // verus!
