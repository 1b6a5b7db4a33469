use vstd::prelude::*;
use vstd::string::StringExecFns;

verus! {

/// The character for one decimal digit.
pub open spec fn digit_char(d: nat) -> char
    recommends
        d < 10,
{
    if d == 0 {
        '0'
    } else if d == 1 {
        '1'
    } else if d == 2 {
        '2'
    } else if d == 3 {
        '3'
    } else if d == 4 {
        '4'
    } else if d == 5 {
        '5'
    } else if d == 6 {
        '6'
    } else if d == 7 {
        '7'
    } else if d == 8 {
        '8'
    } else {
        '9'
    }
}

/// The usual decimal rendering of `n`: most significant digit first, no
/// leading zeros except for `n == 0` itself.
pub open spec fn dec_str(n: nat) -> Seq<char>
    decreases n,
{
    if n < 10 {
        seq![digit_char(n)]
    } else {
        dec_str(n / 10).push(digit_char(n % 10))
    }
}

/// The text exposition body for a counter value `v`: a type comment line,
/// then one sample line, `<metric_name> <value>`.
pub open spec fn scrape_text(v: u64) -> Seq<char> {
    "# TYPE fastflow_tasks_completed counter\nfastflow_tasks_completed "@ + dec_str(
        v as nat,
    ) + "\n"@
}

/// A counter of completed tasks plus its renderer to the line-based text
/// exposition format.
///
/// The count is monotonically increasing under ordinary use and wraps around
/// at the type's limit, as an atomic fetch-and-add does. The scheduler never
/// touches it: whoever completes a task is responsible for the increment.
/// Holding an instance behind process-wide shared state is the caller's
/// business, which keeps the counter substitutable in tests.
pub struct MetricsCounter {
    count: u64,
}

impl MetricsCounter {
    /// The current number of completed tasks.
    pub closed spec fn count(self) -> u64 {
        self.count
    }

    /// A fresh counter starts at zero.
    pub fn new() -> (c: Self)
        ensures
            c.count() == 0,
    {
        MetricsCounter { count: 0 }
    }

    /// Records `n` more completed tasks. The addition wraps around on
    /// overflow, as an atomic fetch-and-add does.
    pub fn inc_tasks(&mut self, n: u64)
        ensures
            old(self).count() + n <= u64::MAX ==> final(self).count() == old(self).count() + n,
            old(self).count() + n > u64::MAX ==> final(self).count() == old(self).count() + n
                - 0x1_0000_0000_0000_0000,
    {
        self.count = self.count.wrapping_add(n);
    }

    /// Renders the current value in the text exposition format, read-only:
    /// scraping never resets or otherwise changes the counter.
    pub fn scrape(&self) -> (r: String)
        ensures
            r@ == scrape_text(self.count()),
    {
        let mut out = String::from_str(
            "# TYPE fastflow_tasks_completed counter\nfastflow_tasks_completed ",
        );
        let digits = dec_u64_string(self.count);
        out.append(digits.as_str());
        out.append("\n");
        proof {
            assert(out@ =~= scrape_text(self.count()));
        }
        out
    }
}

/// Scraping is idempotent: the rendered text depends on the counter value
/// alone, so two scrapes with no increment in between — two counters holding
/// the same value — render identical output.
pub proof fn lemma_scrape_idempotent(a: MetricsCounter, b: MetricsCounter)
    requires
        a.count() == b.count(),
    ensures
        scrape_text(a.count()) == scrape_text(b.count()),
{
}

/// One decimal digit as a string slice.
fn digit_str(d: u64) -> (s: &'static str)
    requires
        d < 10,
    ensures
        s@ == seq![digit_char(d as nat)],
{
    proof {
        reveal_strlit("0");
        reveal_strlit("1");
        reveal_strlit("2");
        reveal_strlit("3");
        reveal_strlit("4");
        reveal_strlit("5");
        reveal_strlit("6");
        reveal_strlit("7");
        reveal_strlit("8");
        reveal_strlit("9");
    }
    let s: &'static str = if d == 0 {
        "0"
    } else if d == 1 {
        "1"
    } else if d == 2 {
        "2"
    } else if d == 3 {
        "3"
    } else if d == 4 {
        "4"
    } else if d == 5 {
        "5"
    } else if d == 6 {
        "6"
    } else if d == 7 {
        "7"
    } else if d == 8 {
        "8"
    } else {
        "9"
    };
    proof {
        assert(s@ =~= seq![digit_char(d as nat)]);
    }
    s
}

/// Renders `n` in decimal, most significant digit first.
fn dec_u64_string(n: u64) -> (s: String)
    ensures
        s@ == dec_str(n as nat),
    decreases n,
{
    if n < 10 {
        String::from_str(digit_str(n))
    } else {
        let mut s = dec_u64_string(n / 10);
        s.append(digit_str(n % 10));
        proof {
            assert(s@ =~= dec_str(n as nat));
        }
        s
    }
}

} // verus!
