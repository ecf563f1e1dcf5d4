use vstd::prelude::*;
use vstd::string::StrSliceExecFns;
use vstd::string::StringExecFns;

use crate::task::TaskJson;

verus! {

/// The decimal notation of `n`, without leading zeros.
pub open spec fn decimal(n: nat) -> Seq<char>
    decreases n,
{
    if n < 10 {
        seq!["0123456789"@[n as int]]
    } else {
        decimal(n / 10).push("0123456789"@[(n % 10) as int])
    }
}

/// The one-line form of a task: a check box, then its text.
pub open spec fn rendered(t: TaskJson) -> Seq<char> {
    (if t.completed {
        "[x] "@
    } else {
        "[ ] "@
    }) + t.text@
}

/// A line of a listing: the position, a colon, then the task's one-line form.
pub open spec fn numbered(pos: nat, t: TaskJson) -> Seq<char> {
    decimal(pos) + ": "@ + rendered(t)
}

/// Appends the decimal notation of `n` to `out`.
pub fn push_decimal(out: &mut String, n: usize)
    ensures
        final(out)@ == old(out)@ + decimal(n as nat),
    decreases n,
{
    proof {
        reveal_strlit("0123456789");
    }
    if n >= 10 {
        push_decimal(out, n / 10);
    }
    let d = n % 10;
    let digit = "0123456789".substring_char(d, d + 1);
    out.append(digit);
    proof {
        assert(digit@ =~= seq!["0123456789"@[d as int]]);
        if n >= 10 {
            assert(old(out)@ + decimal(n as nat) =~= old(out)@ + decimal((n / 10) as nat) + digit@);
        } else {
            assert(decimal(n as nat) =~= digit@);
        }
    }
}

/// The decimal notation of `n`.
pub fn decimal_string(n: usize) -> (r: String)
    ensures
        r@ == decimal(n as nat),
{
    let mut out = String::new();
    push_decimal(&mut out, n);
    proof {
        assert(out@ =~= decimal(n as nat));
    }
    out
}

impl TaskJson {
    /// The task's one-line form: `[x] text` when done, `[ ] text` otherwise.
    pub fn render(&self) -> (r: String)
        ensures
            r@ == rendered(*self),
    {
        let mut out = if self.completed {
            String::from_str("[x] ")
        } else {
            String::from_str("[ ] ")
        };
        out.append(self.text.as_str());
        out
    }
}

/// `pos: [x] text`, the form a listing gives each task.
pub fn numbered_line(pos: usize, t: &TaskJson) -> (r: String)
    ensures
        r@ == numbered(pos as nat, *t),
{
    let mut out = decimal_string(pos);
    out.append(": ");
    let body = t.render();
    out.append(body.as_str());
    proof {
        assert(out@ =~= numbered(pos as nat, *t));
    }
    out
}

} // verus!
