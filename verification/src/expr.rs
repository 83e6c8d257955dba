//! A model of Wolfram Language expressions: integers, strings, symbols and normal
//! expressions `head[arg1, arg2, ...]`.

use vstd::prelude::*;

verus! {

/// The mathematical value of an [`Expr`].
pub enum ExprView {
    Integer(int),
    String(Seq<char>),
    Symbol(Seq<char>),
    Normal(Box<ExprView>, Seq<ExprView>),
}

/// A symbol, named by its absolute name such as ``System`List``.
pub struct Symbol {
    name: String,
}

impl View for Symbol {
    type V = Seq<char>;

    closed spec fn view(&self) -> Seq<char> {
        self.name@
    }
}

impl Symbol {
    /// The symbol with the given absolute name.
    pub fn new(name: &str) -> (r: Symbol)
        ensures
            r@ == name@,
    {
        Symbol { name: String::from_str(name) }
    }

    /// The symbol's absolute name.
    pub fn as_str(&self) -> (r: &str)
        ensures
            r@ == self@,
    {
        self.name.as_str()
    }

    /// Whether two symbols have the same name.
    pub fn same_as(&self, other: &Symbol) -> (r: bool)
        ensures
            r == (self@ == other@),
    {
        self.name == other.name
    }
}

/// A Wolfram Language expression.
pub enum Expr {
    Integer(i64),
    String(String),
    Symbol(Symbol),
    Normal(Box<Expr>, Vec<Expr>),
}

/// The views of a sequence of expressions, element by element.
pub open spec fn view_seq(s: Seq<Expr>) -> Seq<ExprView>
    decreases s,
{
    if s.len() == 0 {
        Seq::empty()
    } else {
        view_seq(s.drop_last()).push(view_expr(s.last()))
    }
}

/// The view of one expression.
pub open spec fn view_expr(e: Expr) -> ExprView
    decreases e,
{
    match e {
        Expr::Integer(i) => ExprView::Integer(i as int),
        Expr::String(s) => ExprView::String(s@),
        Expr::Symbol(s) => ExprView::Symbol(s@),
        Expr::Normal(h, c) => ExprView::Normal(Box::new(view_expr(*h)), view_seq(c@)),
    }
}

impl View for Expr {
    type V = ExprView;

    open spec fn view(&self) -> ExprView {
        view_expr(*self)
    }
}

/// `view_seq` keeps the length and views each element in place.
pub broadcast proof fn lemma_view_seq(s: Seq<Expr>)
    ensures
        #[trigger] view_seq(s).len() == s.len(),
        forall|i: int| 0 <= i < s.len() ==> #[trigger] view_seq(s)[i] == view_expr(s[i]),
    decreases s.len(),
{
    if s.len() > 0 {
        lemma_view_seq(s.drop_last());
    }
}

/// The decimal text of a natural number.
pub open spec fn nat_text(n: nat) -> Seq<char>
    decreases n,
{
    if n < 10 {
        seq![digit_char(n)]
    } else {
        nat_text(n / 10).push(digit_char(n % 10))
    }
}

/// The character of a decimal digit.
pub open spec fn digit_char(d: nat) -> char {
    if d == 0 {
        '0'
    } else if d == 1 {
        '1'
    } else if d == 2 {
        '2'
    } else if d == 3 {
        '3'
    } else if d == 4 {
        '4'
    } else if d == 5 {
        '5'
    } else if d == 6 {
        '6'
    } else if d == 7 {
        '7'
    } else if d == 8 {
        '8'
    } else {
        '9'
    }
}

/// The decimal text of an integer, with a leading `-` when it is negative.
pub open spec fn int_text(i: int) -> Seq<char> {
    if i < 0 {
        seq!['-'] + nat_text((-i) as nat)
    } else {
        nat_text(i as nat)
    }
}

/// The InputForm-like text of an expression: symbols by their absolute names,
/// strings in double quotes, and normal expressions as `head[arg1, arg2, ...]`.
pub open spec fn render(e: ExprView) -> Seq<char>
    decreases e,
{
    match e {
        ExprView::Integer(i) => int_text(i),
        ExprView::String(s) => seq!['"'] + s + seq!['"'],
        ExprView::Symbol(s) => s,
        ExprView::Normal(h, c) => render(*h) + seq!['['] + render_list(c) + seq![']'],
    }
}

/// The texts of a sequence of expressions, separated by `", "`.
pub open spec fn render_list(c: Seq<ExprView>) -> Seq<char>
    decreases c,
{
    if c.len() == 0 {
        Seq::empty()
    } else if c.len() == 1 {
        render(c[0])
    } else {
        render_list(c.drop_last()) + seq![',', ' '] + render(c.last())
    }
}

/// The elements of `e` when it is a normal expression whose head is the symbol
/// ``System`List``.
pub open spec fn list_elements(e: ExprView) -> Option<Seq<ExprView>> {
    match e {
        ExprView::Normal(h, c) => if *h == ExprView::Symbol("System`List"@) {
            Some(c)
        } else {
            None
        },
        _ => None,
    }
}

fn digit_str(d: u64) -> (r: &'static str)
    requires
        d < 10,
    ensures
        r@ == seq![digit_char(d as nat)],
{
    proof {
        reveal_strlit("0");
        reveal_strlit("1");
        reveal_strlit("2");
        reveal_strlit("3");
        reveal_strlit("4");
        reveal_strlit("5");
        reveal_strlit("6");
        reveal_strlit("7");
        reveal_strlit("8");
        reveal_strlit("9");
    }
    if d == 0 {
        "0"
    } else if d == 1 {
        "1"
    } else if d == 2 {
        "2"
    } else if d == 3 {
        "3"
    } else if d == 4 {
        "4"
    } else if d == 5 {
        "5"
    } else if d == 6 {
        "6"
    } else if d == 7 {
        "7"
    } else if d == 8 {
        "8"
    } else {
        "9"
    }
}

/// Appends the decimal text of `n` to `out`.
fn push_nat_text(out: &mut String, n: u64)
    ensures
        final(out)@ == old(out)@ + nat_text(n as nat),
    decreases n,
{
    if n < 10 {
        out.append(digit_str(n));
    } else {
        push_nat_text(out, n / 10);
        out.append(digit_str(n % 10));
        assert(old(out)@ + nat_text(n as nat) =~= old(out)@ + nat_text((n / 10) as nat) + seq![
            digit_char((n % 10) as nat),
        ]);
    }
}

/// Appends the text of `e` to `out`.
#[verifier::loop_isolation(false)]
fn push_rendered(out: &mut String, e: &Expr)
    ensures
        final(out)@ == old(out)@ + render(e@),
    decreases e,
{
    proof {
        reveal_strlit("-");
        reveal_strlit("\"");
        reveal_strlit("[");
        reveal_strlit("]");
        reveal_strlit(", ");
    }
    match e {
        Expr::Integer(i) => {
            if *i < 0 {
                out.append("-");
                let magnitude: u64 = if *i == i64::MIN {
                    9223372036854775808u64
                } else {
                    (-*i) as u64
                };
                push_nat_text(out, magnitude);
                assert(final(out)@ =~= old(out)@ + render(e@));
            } else {
                push_nat_text(out, *i as u64);
            }
        },
        Expr::String(s) => {
            out.append("\"");
            out.append(s.as_str());
            out.append("\"");
            assert(final(out)@ =~= old(out)@ + render(e@));
        },
        Expr::Symbol(s) => {
            out.append(s.as_str());
        },
        Expr::Normal(h, c) => {
            let ghost start = out@;
            push_rendered(out, h);
            out.append("[");
            let ghost before_args = out@;
            let n = c.len();
            let mut k: usize = 0;
            proof {
                lemma_view_seq(c@);
                assert(view_seq(c@).subrange(0, 0) =~= Seq::<ExprView>::empty());
            }
            while k < n
                invariant
                    n == c@.len(),
                    k <= n,
                    view_seq(c@).len() == n,
                    forall|i: int| 0 <= i < n ==> #[trigger] view_seq(c@)[i] == view_expr(c@[i]),
                    out@ == before_args + render_list(view_seq(c@).subrange(0, k as int)),
                decreases n - k,
            {
                let ghost prefix = out@;
                if k > 0 {
                    out.append(", ");
                }
                proof {
                    assert(decreases_to!(*e => c@[k as int]));
                }
                push_rendered(out, &c[k]);
                proof {
                    let done = view_seq(c@).subrange(0, k as int);
                    let next = view_seq(c@).subrange(0, k + 1);
                    assert(next.drop_last() =~= done);
                    assert(next.last() == view_expr(c@[k as int]));
                    if k == 0 {
                        assert(done =~= Seq::<ExprView>::empty());
                        assert(render_list(done) == Seq::<char>::empty());
                        assert(prefix =~= before_args);
                        assert(next.len() == 1);
                        assert(render_list(next) == render(next[0]));
                        assert(out@ =~= before_args + render_list(next));
                    } else {
                        assert(out@ =~= before_args + render_list(next));
                    }
                }
                k = k + 1;
            }
            out.append("]");
            proof {
                assert(view_seq(c@).subrange(0, n as int) =~= view_seq(c@));
                assert(final(out)@ =~= old(out)@ + render(e@));
            }
        },
    }
}

impl Expr {
    /// The integer expression `i`.
    pub fn integer(i: i64) -> (r: Expr)
        ensures
            r@ == ExprView::Integer(i as int),
    {
        Expr::Integer(i)
    }

    /// The string expression with the given text.
    pub fn string(s: &str) -> (r: Expr)
        ensures
            r@ == ExprView::String(s@),
    {
        Expr::String(String::from_str(s))
    }

    /// The symbol expression for `sym`.
    pub fn symbol(sym: Symbol) -> (r: Expr)
        ensures
            r@ == ExprView::Symbol(sym@),
    {
        Expr::Symbol(sym)
    }

    /// The normal expression `head[contents...]`.
    pub fn normal(head: Expr, contents: Vec<Expr>) -> (r: Expr)
        ensures
            r@ == ExprView::Normal(Box::new(head@), view_seq(contents@)),
    {
        Expr::Normal(Box::new(head), contents)
    }

    /// Whether this is a normal expression whose head is the symbol `sym`.
    pub fn has_head(&self, sym: &Symbol) -> (r: bool)
        ensures
            r == (self@ matches ExprView::Normal(h, _) && *h == ExprView::Symbol(sym@)),
    {
        match self {
            Expr::Normal(h, _) => match &**h {
                Expr::Symbol(s) => {
                    assert(view_expr(**h) == ExprView::Symbol(s@));
                    s.same_as(sym)
                },
                _ => {
                    assert(!(view_expr(**h) is Symbol));
                    false
                },
            },
            _ => false,
        }
    }

    /// The text of this expression, as `render` states it.
    pub fn to_string(&self) -> (r: String)
        ensures
            r@ == render(self@),
    {
        let mut out = String::new();
        push_rendered(&mut out, self);
        assert(out@ =~= render(self@));
        out
    }
}

} // verus!
