use vstd::prelude::*;
use vstd::string::*;

verus! {

/// `DELETE FROM `
pub open spec fn delete_prefix() -> Seq<char> {
    seq!['D', 'E', 'L', 'E', 'T', 'E', ' ', 'F', 'R', 'O', 'M', ' ']
}

/// `INSERT INTO `
pub open spec fn insert_prefix() -> Seq<char> {
    seq!['I', 'N', 'S', 'E', 'R', 'T', ' ', 'I', 'N', 'T', 'O', ' ']
}

/// `) VALUES (`
pub open spec fn values_middle() -> Seq<char> {
    seq![')', ' ', 'V', 'A', 'L', 'U', 'E', 'S', ' ', '(']
}

/// `UPDATE `
pub open spec fn update_prefix() -> Seq<char> {
    seq!['U', 'P', 'D', 'A', 'T', 'E', ' ']
}

/// ` SET `
pub open spec fn set_word() -> Seq<char> {
    seq![' ', 'S', 'E', 'T', ' ']
}

/// `SELECT`
pub open spec fn select_word() -> Seq<char> {
    seq!['S', 'E', 'L', 'E', 'C', 'T']
}

/// ` FROM `
pub open spec fn from_word() -> Seq<char> {
    seq![' ', 'F', 'R', 'O', 'M', ' ']
}

/// ` JOIN `
pub open spec fn join_word() -> Seq<char> {
    seq![' ', 'J', 'O', 'I', 'N', ' ']
}

/// ` ON `
pub open spec fn on_word() -> Seq<char> {
    seq![' ', 'O', 'N', ' ']
}

/// ` ORDER BY `
pub open spec fn order_by_word() -> Seq<char> {
    seq![' ', 'O', 'R', 'D', 'E', 'R', ' ', 'B', 'Y', ' ']
}

/// ` GROUP BY `
pub open spec fn group_by_word() -> Seq<char> {
    seq![' ', 'G', 'R', 'O', 'U', 'P', ' ', 'B', 'Y', ' ']
}

/// ` LIMIT `
pub open spec fn limit_word() -> Seq<char> {
    seq![' ', 'L', 'I', 'M', 'I', 'T', ' ']
}

/// ` OFFSET `
pub open spec fn offset_word() -> Seq<char> {
    seq![' ', 'O', 'F', 'F', 'S', 'E', 'T', ' ']
}

/// `, `
pub open spec fn comma_space() -> Seq<char> {
    seq![',', ' ']
}

/// The items in order, each led by `lead`, with `sep` between neighbours.
pub open spec fn joined_with(items: Seq<Seq<char>>, lead: Seq<char>, sep: Seq<char>) -> Seq<char>
    decreases items.len(),
{
    if items.len() == 0 {
        seq![]
    } else {
        let init = items.drop_last();
        joined_with(init, lead, sep) + (if init.len() == 0 {
            seq![]
        } else {
            sep
        }) + lead + items.last()
    }
}

/// The texts of a list of owned strings.
pub open spec fn string_views(v: Seq<String>) -> Seq<Seq<char>> {
    v.map_values(|s: String| s@)
}

/// The texts of a list of borrowed strings.
pub open spec fn str_views<'a>(v: Seq<&'a str>) -> Seq<Seq<char>> {
    v.map_values(|s: &'a str| s@)
}

/// Appends owned copies of `src` to `dst`.
pub fn append_strs(dst: &mut Vec<String>, src: &Vec<&str>)
    ensures
        string_views(final(dst)@) == string_views(old(dst)@) + str_views(src@),
{
    let ghost d0 = string_views(dst@);
    let mut i: usize = 0;
    while i < src.len()
        invariant
            i <= src.len(),
            dst@.len() == d0.len() + i,
            string_views(dst@) == d0 + str_views(src@).take(i as int),
        decreases src.len() - i,
    {
        let ghost before = dst@;
        dst.push(copy_str(src[i]));
        assert(string_views(dst@) =~= string_views(before).push(str_views(src@)[i as int]));
        assert(str_views(src@).take(i + 1) =~= str_views(src@).take(i as int).push(
            str_views(src@)[i as int],
        ));
        i = i + 1;
    }
    assert(str_views(src@).take(i as int) =~= str_views(src@));
}

/// Appends `items`, each led by `lead`, with `sep` between neighbours.
pub fn append_joined(sql: &mut String, items: &Vec<String>, lead: &str, sep: &str)
    ensures
        final(sql)@ == old(sql)@ + joined_with(string_views(items@), lead@, sep@),
{
    let ghost s0 = sql@;
    let ghost iv = string_views(items@);
    let mut i: usize = 0;
    assert(iv.take(0) =~= Seq::<Seq<char>>::empty());
    assert(sql@ =~= s0 + joined_with(iv.take(0), lead@, sep@));
    while i < items.len()
        invariant
            i <= items.len(),
            iv == string_views(items@),
            sql@ == s0 + joined_with(iv.take(i as int), lead@, sep@),
        decreases items.len() - i,
    {
        let ghost next = iv.take(i + 1);
        assert(next.drop_last() =~= iv.take(i as int));
        if i > 0 {
            sql.append(sep);
        }
        sql.append(lead);
        sql.append(items[i].as_str());
        i = i + 1;
        assert(sql@ =~= s0 + joined_with(next, lead@, sep@));
    }
    assert(iv.take(i as int) =~= iv);
}

/// An owned copy of `s`.
pub fn copy_str(s: &str) -> (r: String)
    ensures
        r@ == s@,
{
    String::from_str(s)
}

} // verus!
