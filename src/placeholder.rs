use vstd::prelude::*;
use vstd::string::*;

verus! {

/// Whether the marker `%d`, which makes a pattern indexed, starts at position `i` of `p`.
pub open spec fn is_marker_at(p: Seq<char>, i: int) -> bool {
    0 <= i && i + 1 < p.len() && p[i] == '%' && p[i + 1] == 'd'
}

/// Whether a placeholder pattern is indexed (holds the marker `%d`).
pub open spec fn has_marker(p: Seq<char>) -> bool {
    exists|i: int| is_marker_at(p, i)
}

/// `p` with every occurrence of the marker, scanned left to right, replaced by `r`.
pub open spec fn substitute(p: Seq<char>, r: Seq<char>) -> Seq<char>
    decreases p.len(),
{
    if p.len() < 2 {
        p
    } else if p[0] == '%' && p[1] == 'd' {
        r + substitute(p.skip(2), r)
    } else {
        seq![p[0]] + substitute(p.skip(1), r)
    }
}

/// The character of a decimal digit.
pub open spec fn digit(d: int) -> char {
    seq!['0', '1', '2', '3', '4', '5', '6', '7', '8', '9'][d]
}

/// Decimal digits of a natural number, most significant first.
pub open spec fn nat_text(n: nat) -> Seq<char>
    decreases n,
{
    if n < 10 {
        seq![digit(n as int)]
    } else {
        nat_text(n / 10) + seq![digit((n % 10) as int)]
    }
}

/// Decimal text of an integer, with a leading `-` when it is negative.
pub open spec fn int_text(n: int) -> Seq<char> {
    if n < 0 {
        seq!['-'] + nat_text((-n) as nat)
    } else {
        nat_text(n as nat)
    }
}

/// How placeholders are written: a pattern and, for an indexed pattern, the
/// first index.
#[derive(Clone, Debug)]
pub struct PlaceholderConfig {
    pub placeholder: String,
    pub start: Option<i32>,
}

/// The model of a placeholder generator: its pattern and, when the pattern is
/// indexed, the index that the next placeholder carries.
pub struct GenView {
    pub pattern: Seq<char>,
    pub cursor: Option<int>,
}

/// The placeholder that comes `k` calls after a generator in state `g`.
pub open spec fn token(g: GenView, k: int) -> Seq<char> {
    match g.cursor {
        Some(c) => substitute(g.pattern, int_text(c + k)),
        None => g.pattern,
    }
}

/// The state of a generator after `n` placeholders were drawn from `g`.
pub open spec fn advance(g: GenView, n: int) -> GenView {
    GenView {
        pattern: g.pattern,
        cursor: match g.cursor {
            Some(c) => Some(c + n),
            None => None,
        },
    }
}

/// Whether `n` more placeholders can be drawn from `g` without the index
/// leaving the range of `i32`.
pub open spec fn has_room(g: GenView, n: int) -> bool {
    match g.cursor {
        Some(c) => c + n <= i32::MAX,
        None => true,
    }
}

/// Hands out placeholder tokens: the same literal each time for a static
/// pattern, or the pattern with its marker replaced by a rising index.
pub struct PlaceholderGen {
    pattern: String,
    cursor: Option<i32>,
}

impl View for PlaceholderGen {
    type V = GenView;

    closed spec fn view(&self) -> GenView {
        GenView {
            pattern: self.pattern@,
            cursor: match self.cursor {
                Some(c) => Some(c as int),
                None => None,
            },
        }
    }
}

/// Whether a configuration can be used: an indexed pattern needs a first index.
pub open spec fn config_ok(config: Option<PlaceholderConfig>) -> bool {
    match config {
        Some(c) => has_marker(c.placeholder@) ==> c.start is Some,
        None => true,
    }
}

/// The generator that a configuration sets up; without one, the static `?`.
pub open spec fn config_gen(config: Option<PlaceholderConfig>) -> GenView {
    match config {
        Some(c) => GenView {
            pattern: c.placeholder@,
            cursor: if has_marker(c.placeholder@) {
                Some(c.start->0 as int)
            } else {
                None
            },
        },
        None => GenView { pattern: seq!['?'], cursor: None },
    }
}

impl PlaceholderGen {
    /// Sets up a generator; with no configuration placeholders are `?`.
    pub fn new(config: Option<PlaceholderConfig>) -> (r: PlaceholderGen)
        requires
            config_ok(config),
        ensures
            r@ == config_gen(config),
    {
        match config {
            Some(c) => {
                let indexed = is_index(c.placeholder.as_str());
                let cursor = if indexed {
                    match c.start {
                        Some(s) => Some(s),
                        None => None,
                    }
                } else {
                    None
                };
                let r = PlaceholderGen { pattern: c.placeholder, cursor };
                r
            },
            None => {
                proof {
                    reveal_strlit("?");
                }
                let r = PlaceholderGen { pattern: String::from_str("?"), cursor: None };
                assert(r@.pattern =~= seq!['?']);
                r
            },
        }
    }

    /// The next placeholder; an indexed generator moves on to the next index.
    pub fn next_token(&mut self) -> (r: String)
        requires
            has_room(old(self)@, 1),
        ensures
            r@ == token(old(self)@, 0),
            final(self)@ == advance(old(self)@, 1),
    {
        match self.cursor {
            Some(c) => {
                self.cursor = Some(c + 1);
                let digits = int_to_text(c as i64);
                substitute_marker(self.pattern.as_str(), digits.as_str())
            },
            None => self.pattern.clone(),
        }
    }
}

/// With the pattern `$%d`, the placeholder `k` calls after a generator at
/// index `c` is `$` followed by the index `c + k`; and a generator that has
/// handed out `n` placeholders goes on from the `n`-th: indices rise by one
/// per placeholder, with no gap or repeat, across any number of renders.
pub proof fn lemma_indexed_tokens(c: int, k: int, n: int)
    ensures
        token(GenView { pattern: seq!['$', '%', 'd'], cursor: Some(c) }, k) == seq!['$']
            + int_text(c + k),
        token(advance(GenView { pattern: seq!['$', '%', 'd'], cursor: Some(c) }, n), k) == token(
            GenView { pattern: seq!['$', '%', 'd'], cursor: Some(c) },
            n + k,
        ),
{
    let p = seq!['$', '%', 'd'];
    let r = int_text(c + k);
    assert(p.skip(1) =~= seq!['%', 'd']);
    assert(seq!['%', 'd'].skip(2) =~= Seq::<char>::empty());
    assert(substitute(Seq::<char>::empty(), r) == Seq::<char>::empty());
    assert(substitute(seq!['%', 'd'], r) =~= r);
    assert(substitute(p, r) =~= seq!['$'] + r);
    assert(c + n + k == c + (n + k));
}

/// The one-character text of a decimal digit.
fn digit_str(d: u64) -> (r: &'static str)
    requires
        d < 10,
    ensures
        r@ == seq![digit(d as int)],
{
    proof {
        reveal_strlit("0");
        reveal_strlit("1");
        reveal_strlit("2");
        reveal_strlit("3");
        reveal_strlit("4");
        reveal_strlit("5");
        reveal_strlit("6");
        reveal_strlit("7");
        reveal_strlit("8");
        reveal_strlit("9");
    }
    match d {
        0 => "0",
        1 => "1",
        2 => "2",
        3 => "3",
        4 => "4",
        5 => "5",
        6 => "6",
        7 => "7",
        8 => "8",
        _ => "9",
    }
}

/// Appends the decimal digits of `n`.
fn push_nat(n: u64, out: &mut String)
    ensures
        final(out)@ == old(out)@ + nat_text(n as nat),
    decreases n,
{
    if n >= 10 {
        push_nat(n / 10, out);
    }
    out.append(digit_str(n % 10));
    assert(final(out)@ =~= old(out)@ + nat_text(n as nat));
}

/// Decimal text of `n`.
pub fn int_to_text(n: i64) -> (r: String)
    ensures
        r@ == int_text(n as int),
{
    let mut out = String::new();
    if n < 0 {
        proof {
            reveal_strlit("-");
        }
        out.append("-");
        let m: u64 = if n == i64::MIN {
            9223372036854775808u64
        } else {
            (0 - n) as u64
        };
        push_nat(m, &mut out);
    } else {
        push_nat(n as u64, &mut out);
    }
    assert(out@ =~= int_text(n as int));
    out
}

/// Whether `pattern` holds the marker `%d`.
pub fn is_index(pattern: &str) -> (r: bool)
    ensures
        r == has_marker(pattern@),
{
    let n = pattern.unicode_len();
    let mut i: usize = 0;
    while i < n
        invariant
            n == pattern@.len(),
            forall|j: int| 0 <= j < i ==> !is_marker_at(pattern@, j),
        decreases n - i,
    {
        if i + 1 < n && pattern.get_char(i) == '%' && pattern.get_char(i + 1) == 'd' {
            assert(is_marker_at(pattern@, i as int));
            return true;
        }
        i = i + 1;
    }
    assert forall|j: int| !is_marker_at(pattern@, j) by {
        if 0 <= j && j < i {
        }
    }
    false
}

/// `pattern` with every marker replaced by `r`.
pub fn substitute_marker(pattern: &str, r: &str) -> (out: String)
    ensures
        out@ == substitute(pattern@, r@),
{
    let n = pattern.unicode_len();
    let mut out = String::new();
    let mut i: usize = 0;
    assert(pattern@.skip(0) =~= pattern@);
    while i < n
        invariant
            n == pattern@.len(),
            i <= n,
            substitute(pattern@, r@) == out@ + substitute(pattern@.skip(i as int), r@),
        decreases n - i,
    {
        let ghost q = pattern@.skip(i as int);
        if i + 1 < n && pattern.get_char(i) == '%' && pattern.get_char(i + 1) == 'd' {
            assert(q.skip(2) =~= pattern@.skip(i + 2));
            out.append(r);
            i = i + 2;
            assert(substitute(pattern@, r@) =~= out@ + substitute(pattern@.skip(i as int), r@));
        } else {
            let one = pattern.substring_char(i, i + 1);
            assert(q.skip(1) =~= pattern@.skip(i + 1));
            assert(one@ =~= seq![q[0]]);
            proof {
                if q.len() < 2 {
                    assert(q.skip(1) =~= Seq::<char>::empty());
                    assert(q =~= seq![q[0]]);
                }
            }
            out.append(one);
            i = i + 1;
            assert(substitute(pattern@, r@) =~= out@ + substitute(pattern@.skip(i as int), r@));
        }
    }
    assert(pattern@.skip(n as int) =~= Seq::<char>::empty());
    assert(out@ =~= substitute(pattern@, r@));
    out
}

} // verus!
