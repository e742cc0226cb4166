//! A small JSON-RPC 2.0 server-focused dispatch engine with verified
//! protocol logic: envelope identifier semantics, method routing,
//! middleware ordering, batching, and error mapping.

use vstd::prelude::*;

pub mod error;
pub mod handler;
pub mod json;
pub mod middleware;
pub mod notification;
pub mod request;
pub mod response;
pub mod router;
pub mod server;

verus! {

/// Marker for the fixed protocol version literal `"2.0"`.
#[derive(Debug, Clone, Copy)]
pub struct V2;

/// A value that can hand out an identical copy of itself. The engine
/// duplicates per-call contexts and shared middleware references this way,
/// so that every member of a batch sees the same value.
pub trait Dup: Sized {
    /// An identical copy.
    fn dup(&self) -> (r: Self)
        ensures
            r == *self,
    ;
}

impl Dup for () {
    fn dup(&self) -> (r: Self) {
    }
}

/// Mathematical model of a request identifier.
pub enum IdView {
    Num(int),
    Str(Seq<char>),
    Null,
}

/// Container for the request ID, which can be a string, number, or null.
#[derive(Debug, Clone)]
pub enum Id {
    Num(i64),
    Str(String),
    Null,
}

impl View for Id {
    type V = IdView;

    open spec fn view(&self) -> IdView {
        match self {
            Id::Num(n) => IdView::Num(*n as int),
            Id::Str(s) => IdView::Str(s@),
            Id::Null => IdView::Null,
        }
    }
}

impl Id {
    /// True exactly when this identifier is the null identifier.
    pub fn is_null(&self) -> (r: bool)
        ensures
            r == (self@ is Null),
    {
        match self {
            Id::Null => true,
            _ => false,
        }
    }
}

impl Dup for Id {
    fn dup(&self) -> (r: Self) {
        match self {
            Id::Num(n) => Id::Num(*n),
            Id::Str(s) => Id::Str(s.clone()),
            Id::Null => Id::Null,
        }
    }
}

impl From<i64> for Id {
    fn from(t: i64) -> (r: Self) {
        Id::Num(t)
    }
}

impl vstd::std_specs::convert::FromSpecImpl<i64> for Id {
    open spec fn obeys_from_spec() -> bool {
        true
    }

    open spec fn from_spec(t: i64) -> Id {
        Id::Num(t)
    }
}

impl From<String> for Id {
    fn from(t: String) -> (r: Self) {
        Id::Str(t)
    }
}

impl vstd::std_specs::convert::FromSpecImpl<String> for Id {
    open spec fn obeys_from_spec() -> bool {
        true
    }

    open spec fn from_spec(t: String) -> Id {
        Id::Str(t)
    }
}

impl Default for Id {
    /// The null identifier.
    fn default() -> (r: Self)
        ensures
            r@ is Null,
    {
        Id::Null
    }
}

/// The decimal digit character for a value between 0 and 9.
pub open spec fn digit_char(d: int) -> char {
    if d == 0 {
        '0'
    } else if d == 1 {
        '1'
    } else if d == 2 {
        '2'
    } else if d == 3 {
        '3'
    } else if d == 4 {
        '4'
    } else if d == 5 {
        '5'
    } else if d == 6 {
        '6'
    } else if d == 7 {
        '7'
    } else if d == 8 {
        '8'
    } else {
        '9'
    }
}

/// The decimal rendering of a nonnegative integer, most significant
/// digit first.
pub open spec fn dec_of(n: int) -> Seq<char>
    decreases n,
{
    if n < 10 {
        seq![digit_char(n)]
    } else {
        dec_of(n / 10).push(digit_char(n % 10))
    }
}

/// The textual rendering of an identifier: the number in decimal, the
/// string's own characters, or the word "null".
pub open spec fn id_text(i: IdView) -> Seq<char> {
    match i {
        IdView::Num(n) => if n < 0 {
            seq!['-'] + dec_of(-n)
        } else {
            dec_of(n)
        },
        IdView::Str(s) => s,
        IdView::Null => "null"@,
    }
}

fn digit_str(d: u64) -> (r: &'static str)
    requires
        d < 10,
    ensures
        r@ == seq![digit_char(d as int)],
{
    proof {
        reveal_strlit("0");
        reveal_strlit("1");
        reveal_strlit("2");
        reveal_strlit("3");
        reveal_strlit("4");
        reveal_strlit("5");
        reveal_strlit("6");
        reveal_strlit("7");
        reveal_strlit("8");
        reveal_strlit("9");
    }
    let r = match d {
        0 => "0",
        1 => "1",
        2 => "2",
        3 => "3",
        4 => "4",
        5 => "5",
        6 => "6",
        7 => "7",
        8 => "8",
        _ => "9",
    };
    proof {
        assert(r@ =~= seq![digit_char(d as int)]);
    }
    r
}

fn push_dec(s: &mut String, n: u64)
    ensures
        final(s)@ == old(s)@ + dec_of(n as int),
    decreases n,
{
    if n < 10 {
        s.append(digit_str(n));
    } else {
        push_dec(s, n / 10);
        s.append(digit_str(n % 10));
        proof {
            assert(old(s)@ + dec_of(n as int / 10) + seq![digit_char(n as int % 10)] =~= old(s)@
                + dec_of(n as int));
        }
    }
}

impl Id {
    /// The identifier as text, as it would be written into a log line:
    /// a number in decimal, a string without quoting, or "null".
    pub fn to_text(&self) -> (r: String)
        ensures
            r@ == id_text(self@),
    {
        match self {
            Id::Null => "null".to_owned(),
            Id::Str(s) => s.clone(),
            Id::Num(n) => {
                let mut out = String::new();
                if *n < 0 {
                    out.append("-");
                    let mag: u64 = ((-(*n + 1)) as u64) + 1;
                    push_dec(&mut out, mag);
                    proof {
                        reveal_strlit("-");
                        assert("-"@ =~= seq!['-']);
                        assert(Seq::<char>::empty() + "-"@ + dec_of(mag as int) =~= seq!['-']
                            + dec_of(-(*n as int)));
                    }
                } else {
                    push_dec(&mut out, *n as u64);
                    proof {
                        assert(Seq::<char>::empty() + dec_of(*n as int) =~= dec_of(*n as int));
                    }
                }
                out
            },
        }
    }
}

} // verus!
