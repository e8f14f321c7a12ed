use vstd::prelude::*;
use vstd::string::StringExecFns;

verus! {

/// A calendar day of the proleptic Gregorian calendar, in the years that
/// print with four digits.
#[derive(Clone, Copy, Debug, PartialEq, Eq, Structural)]
pub struct CalendarDate {
    pub year: i32,
    pub month: u32,
    pub day: u32,
}

pub open spec fn is_leap_year(y: int) -> bool {
    (y % 4 == 0 && y % 100 != 0) || y % 400 == 0
}

pub open spec fn days_in_month(y: int, m: int) -> int {
    if m == 2 {
        if is_leap_year(y) {
            29
        } else {
            28
        }
    } else if m == 4 || m == 6 || m == 9 || m == 11 {
        30
    } else {
        31
    }
}

/// The character of a decimal digit `d` (0 to 9).
pub open spec fn digit_char(d: int) -> char {
    if d == 0 {
        '0'
    } else if d == 1 {
        '1'
    } else if d == 2 {
        '2'
    } else if d == 3 {
        '3'
    } else if d == 4 {
        '4'
    } else if d == 5 {
        '5'
    } else if d == 6 {
        '6'
    } else if d == 7 {
        '7'
    } else if d == 8 {
        '8'
    } else {
        '9'
    }
}

pub open spec fn two_digits(v: int) -> Seq<char> {
    seq![digit_char(v / 10), digit_char(v % 10)]
}

pub open spec fn four_digits(v: int) -> Seq<char> {
    seq![digit_char(v / 1000), digit_char((v / 100) % 10), digit_char((v / 10) % 10), digit_char(v % 10)]
}

/// `a` comes no later than `b` when compared character by character, the
/// order in which the store compares text.
pub open spec fn text_le(a: Seq<char>, b: Seq<char>) -> bool
    decreases a.len(),
{
    if a.len() == 0 {
        true
    } else if b.len() == 0 {
        false
    } else if a[0] != b[0] {
        a[0] < b[0]
    } else {
        text_le(a.drop_first(), b.drop_first())
    }
}

/// `a` falls on or before `b`.
pub open spec fn date_le(a: CalendarDate, b: CalendarDate) -> bool {
    ||| a.year < b.year
    ||| a.year == b.year && a.month < b.month
    ||| a.year == b.year && a.month == b.month && a.day <= b.day
}

proof fn lemma_text_le_concat(a1: Seq<char>, a2: Seq<char>, b1: Seq<char>, b2: Seq<char>)
    requires
        a1.len() == b1.len(),
    ensures
        text_le(a1 + a2, b1 + b2) == if a1 == b1 {
            text_le(a2, b2)
        } else {
            text_le(a1, b1)
        },
    decreases a1.len(),
{
    if a1.len() > 0 {
        let a = a1 + a2;
        let b = b1 + b2;
        assert(a[0] == a1[0]);
        assert(b[0] == b1[0]);
        assert(a.drop_first() =~= a1.drop_first() + a2);
        assert(b.drop_first() =~= b1.drop_first() + b2);
        lemma_text_le_concat(a1.drop_first(), a2, b1.drop_first(), b2);
        if a1[0] == b1[0] {
            if a1.drop_first() == b1.drop_first() {
                assert(a1 =~= seq![a1[0]] + a1.drop_first());
                assert(b1 =~= seq![b1[0]] + b1.drop_first());
            }
        }
    } else {
        assert(a1 + a2 =~= a2);
        assert(b1 + b2 =~= b2);
        assert(a1 =~= b1);
    }
}

proof fn lemma_two_digits(x: int, y: int)
    requires
        0 <= x < 100,
        0 <= y < 100,
    ensures
        text_le(two_digits(x), two_digits(y)) == (x <= y),
        two_digits(x) == two_digits(y) ==> x == y,
{
    let a = two_digits(x);
    let b = two_digits(y);
    assert(a =~= seq![digit_char(x / 10)] + seq![digit_char(x % 10)]);
    assert(b =~= seq![digit_char(y / 10)] + seq![digit_char(y % 10)]);
    lemma_text_le_concat(seq![digit_char(x / 10)], seq![digit_char(x % 10)], seq![digit_char(y / 10)], seq![digit_char(y % 10)]);
    let e: Seq<char> = Seq::empty();
    lemma_text_le_concat(seq![digit_char(x % 10)], e, seq![digit_char(y % 10)], e);
    lemma_text_le_concat(seq![digit_char(x / 10)], e, seq![digit_char(y / 10)], e);
    assert(seq![digit_char(x % 10)] + e =~= seq![digit_char(x % 10)]);
    assert(seq![digit_char(y % 10)] + e =~= seq![digit_char(y % 10)]);
    assert(seq![digit_char(x / 10)] + e =~= seq![digit_char(x / 10)]);
    assert(seq![digit_char(y / 10)] + e =~= seq![digit_char(y / 10)]);
    assert(text_le(seq![digit_char(x % 10)], seq![digit_char(y % 10)]) == (x % 10 <= y % 10)) by {
        reveal_with_fuel(text_le, 2);
        assert(seq![digit_char(x % 10)].drop_first().len() == 0);
    }
    assert(text_le(seq![digit_char(x / 10)], seq![digit_char(y / 10)]) == (x / 10 <= y / 10)) by {
        reveal_with_fuel(text_le, 2);
        assert(seq![digit_char(x / 10)].drop_first().len() == 0);
    }
    if a == b {
        assert(a[0] == b[0] && a[1] == b[1]);
    }
}

proof fn lemma_four_digits(v: int)
    requires
        0 <= v < 10000,
    ensures
        four_digits(v) =~= two_digits(v / 100) + two_digits(v % 100),
{
    assert((v / 100) / 10 == v / 1000);
    assert((v % 100) / 10 == (v / 10) % 10);
    assert((v % 100) % 10 == v % 10);
}

proof fn lemma_year_digits(x: int, y: int)
    requires
        0 <= x < 10000,
        0 <= y < 10000,
    ensures
        text_le(four_digits(x), four_digits(y)) == (x <= y),
        four_digits(x) == four_digits(y) ==> x == y,
{
    lemma_four_digits(x);
    lemma_four_digits(y);
    lemma_two_digits(x / 100, y / 100);
    lemma_two_digits(x % 100, y % 100);
    lemma_text_le_concat(two_digits(x / 100), two_digits(x % 100), two_digits(y / 100), two_digits(y % 100));
    if four_digits(x) == four_digits(y) {
        assert(four_digits(x).subrange(0, 2) =~= two_digits(x / 100));
        assert(four_digits(y).subrange(0, 2) =~= two_digits(y / 100));
        assert(four_digits(x).subrange(2, 4) =~= two_digits(x % 100));
        assert(four_digits(y).subrange(2, 4) =~= two_digits(y % 100));
    }
}

/// For real dates, the text order of their ISO forms is the order of the
/// days: a date lies between two others, ends included, exactly when its
/// text does.
pub proof fn lemma_text_order_is_date_order(a: CalendarDate, b: CalendarDate)
    requires
        a.wf(),
        b.wf(),
    ensures
        text_le(a.text(), b.text()) == date_le(a, b),
{
    let dash = seq!['-'];
    let am = two_digits(a.month as int) + dash + two_digits(a.day as int);
    let bm = two_digits(b.month as int) + dash + two_digits(b.day as int);
    assert(a.text() =~= four_digits(a.year as int) + (dash + am));
    assert(b.text() =~= four_digits(b.year as int) + (dash + bm));
    lemma_year_digits(a.year as int, b.year as int);
    lemma_two_digits(a.month as int, b.month as int);
    lemma_two_digits(a.day as int, b.day as int);
    lemma_text_le_concat(four_digits(a.year as int), dash + am, four_digits(b.year as int), dash + bm);
    lemma_text_le_concat(dash, am, dash, bm);
    lemma_text_le_concat(
        two_digits(a.month as int),
        dash + two_digits(a.day as int),
        two_digits(b.month as int),
        dash + two_digits(b.day as int),
    );
    assert(am =~= two_digits(a.month as int) + (dash + two_digits(a.day as int)));
    assert(bm =~= two_digits(b.month as int) + (dash + two_digits(b.day as int)));
    lemma_text_le_concat(dash, two_digits(a.day as int), dash, two_digits(b.day as int));
}

impl CalendarDate {
    /// A real date with a four-digit year.
    pub open spec fn wf(self) -> bool {
        &&& 0 <= self.year <= 9999
        &&& 1 <= self.month <= 12
        &&& 1 <= self.day <= days_in_month(self.year as int, self.month as int)
    }

    /// The ISO 8601 text of the date, `YYYY-MM-DD`.
    pub open spec fn text(self) -> Seq<char> {
        four_digits(self.year as int) + seq!['-'] + two_digits(self.month as int) + seq!['-']
            + two_digits(self.day as int)
    }

    /// The date `year-month-day`, if there is such a day with a four-digit
    /// year.
    pub fn new(year: i32, month: u32, day: u32) -> (r: Option<CalendarDate>)
        ensures
            r matches Some(d) ==> d.wf() && d.year == year && d.month == month && d.day == day,
            r is None ==> !(CalendarDate { year, month, day }).wf(),
    {
        if year < 0 || year > 9999 || month < 1 || month > 12 || day < 1 {
            return None;
        }
        let leap = (year % 4 == 0 && year % 100 != 0) || year % 400 == 0;
        let last: u32 = if month == 2 {
            if leap {
                29
            } else {
                28
            }
        } else if month == 4 || month == 6 || month == 9 || month == 11 {
            30
        } else {
            31
        };
        if day > last {
            return None;
        }
        Some(CalendarDate { year, month, day })
    }

    /// The ISO 8601 text of the date, `YYYY-MM-DD`.
    pub fn to_text(&self) -> (r: String)
        requires
            self.wf(),
        ensures
            r@ == self.text(),
    {
        let y = self.year as u32;
        let mut s = String::new();
        s.append(digit_str(y / 1000));
        s.append(digit_str((y / 100) % 10));
        s.append(digit_str((y / 10) % 10));
        s.append(digit_str(y % 10));
        s.append(dash());
        s.append(digit_str(self.month / 10));
        s.append(digit_str(self.month % 10));
        s.append(dash());
        s.append(digit_str(self.day / 10));
        s.append(digit_str(self.day % 10));
        assert(s@ =~= self.text());
        s
    }
}

fn dash() -> (r: &'static str)
    ensures
        r@ == seq!['-'],
{
    proof {
        reveal_strlit("-");
    }
    "-"
}

fn digit_str(d: u32) -> (r: &'static str)
    requires
        d < 10,
    ensures
        r@ == seq![digit_char(d as int)],
{
    proof {
        reveal_strlit("0");
        reveal_strlit("1");
        reveal_strlit("2");
        reveal_strlit("3");
        reveal_strlit("4");
        reveal_strlit("5");
        reveal_strlit("6");
        reveal_strlit("7");
        reveal_strlit("8");
        reveal_strlit("9");
    }
    match d {
        0 => "0",
        1 => "1",
        2 => "2",
        3 => "3",
        4 => "4",
        5 => "5",
        6 => "6",
        7 => "7",
        8 => "8",
        _ => "9",
    }
}

} // verus!
