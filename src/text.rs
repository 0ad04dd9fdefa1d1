//! Plain text helpers shared by the message table and the slot list.
use vstd::prelude::*;
use vstd::std_specs::iter::IteratorSpec;

verus! {

/// The decimal digit character for `d`.
pub open spec fn digit_char(d: nat) -> char {
    if d == 0 { '0' } else if d == 1 { '1' } else if d == 2 { '2' } else if d == 3 { '3' }
    else if d == 4 { '4' } else if d == 5 { '5' } else if d == 6 { '6' } else if d == 7 { '7' }
    else if d == 8 { '8' } else { '9' }
}

/// The decimal notation of `n`, most significant digit first, without leading zeros.
pub open spec fn decimal(n: nat) -> Seq<char>
    decreases n,
{
    if n < 10 {
        seq![digit_char(n)]
    } else {
        decimal(n / 10).push(digit_char(n % 10))
    }
}

/// The notation of a number is never empty.
pub proof fn decimal_not_empty(n: nat)
    ensures
        decimal(n).len() >= 1,
        n >= 10 ==> decimal(n).len() >= 2,
    decreases n,
{
    if n >= 10 {
        decimal_not_empty(n / 10);
    }
}

/// Different numbers have different notations.
pub proof fn decimal_is_injective(n: nat, m: nat)
    requires
        n != m,
    ensures
        decimal(n) != decimal(m),
    decreases n + m,
{
    decimal_not_empty(n);
    decimal_not_empty(m);
    if n < 10 && m < 10 {
        assert(decimal(n)[0] != decimal(m)[0]);
    } else if n >= 10 && m >= 10 {
        if n % 10 != m % 10 {
            assert(decimal(n).last() != decimal(m).last());
        } else {
            assert(n / 10 != m / 10);
            decimal_is_injective(n / 10, m / 10);
            if decimal(n) == decimal(m) {
                assert(decimal(n).drop_last() =~= decimal(n / 10));
                assert(decimal(m).drop_last() =~= decimal(m / 10));
            }
        }
    }
}

fn digit_str(d: u64) -> (r: &'static str)
    requires
        d < 10,
    ensures
        r@ == seq![digit_char(d as nat)],
{
    proof {
        reveal_strlit("0");
        reveal_strlit("1");
        reveal_strlit("2");
        reveal_strlit("3");
        reveal_strlit("4");
        reveal_strlit("5");
        reveal_strlit("6");
        reveal_strlit("7");
        reveal_strlit("8");
        reveal_strlit("9");
    }
    if d == 0 { "0" } else if d == 1 { "1" } else if d == 2 { "2" } else if d == 3 { "3" }
    else if d == 4 { "4" } else if d == 5 { "5" } else if d == 6 { "6" } else if d == 7 { "7" }
    else if d == 8 { "8" } else { "9" }
}

/// Renders `n` in decimal notation.
pub fn decimal_string(n: u64) -> (r: String)
    ensures
        r@ == decimal(n as nat),
    decreases n,
{
    if n < 10 {
        String::from_str(digit_str(n))
    } else {
        let mut s = decimal_string(n / 10);
        s.append(digit_str(n % 10));
        s
    }
}

/// Renders `n` in decimal notation.
pub fn decimal_usize(n: usize) -> (r: String)
    ensures
        r@ == decimal(n as nat),
{
    decimal_string(n as u64)
}

/// `line` without one trailing carriage return.
pub open spec fn strip_cr(line: Seq<char>) -> Seq<char> {
    if line.len() > 0 && line.last() == '\r' {
        line.drop_last()
    } else {
        line
    }
}

/// Reading `s` from the left: the lines finished so far, and the line in progress.
pub open spec fn line_state(s: Seq<char>) -> (Seq<Seq<char>>, Seq<char>)
    decreases s.len(),
{
    if s.len() == 0 {
        (seq![], seq![])
    } else {
        let (done, cur) = line_state(s.drop_last());
        if s.last() == '\n' {
            (done.push(strip_cr(cur)), seq![])
        } else {
            (done, cur.push(s.last()))
        }
    }
}

/// The lines of `s`: split at "\n" or "\r\n", with no line after a final
/// line ending.
pub open spec fn lines_of(s: Seq<char>) -> Seq<Seq<char>> {
    let (done, cur) = line_state(s);
    if cur.len() > 0 {
        done.push(cur)
    } else {
        done
    }
}

/// The lines `ls` joined by "\n".
pub open spec fn join_lines(ls: Seq<Seq<char>>) -> Seq<char>
    decreases ls.len(),
{
    if ls.len() == 0 {
        seq![]
    } else if ls.len() == 1 {
        ls[0]
    } else {
        join_lines(ls.drop_last()) + seq!['\n'] + ls.last()
    }
}

/// The first `k` lines of `ls`, or all of them where there are fewer.
pub open spec fn first_n(ls: Seq<Seq<char>>, k: nat) -> Seq<Seq<char>> {
    if ls.len() <= k {
        ls
    } else {
        ls.take(k as int)
    }
}

/// How many lines a preview shows.
pub const PREVIEW_LINES: usize = 3;

/// How many characters a preview shows before it is cut.
pub const PREVIEW_CHARS: usize = 100;

/// The preview of a text: its first lines, cut to `PREVIEW_CHARS`
/// characters and marked with "..." where cut.
pub open spec fn preview_of(s: Seq<char>) -> Seq<char> {
    let p = join_lines(first_n(lines_of(s), PREVIEW_LINES as nat));
    if p.len() > PREVIEW_CHARS {
        p.take(PREVIEW_CHARS as int) + "..."@
    } else {
        p
    }
}

/// The views of the strings `v`.
pub open spec fn views(v: Seq<String>) -> Seq<Seq<char>> {
    v.map_values(|x: String| x@)
}

/// The first `PREVIEW_LINES` lines of `content`.
fn first_lines(content: &str) -> (r: Vec<String>)
    ensures
        views(r@) == first_n(lines_of(content@), PREVIEW_LINES as nat),
{
    let ghost s = content@;
    let n = content.unicode_len();
    let mut it = content.chars();
    let mut done: Vec<String> = Vec::new();
    let mut start: usize = 0;
    let mut prev_cr = false;
    let mut i: usize = 0;
    while i < n
        invariant
            n == s.len(),
            s == content@,
            start <= i <= n,
            it.remaining() == s.skip(i as int),
            line_state(s.take(i as int)).1 == s.subrange(start as int, i as int),
            done@.len() == if line_state(s.take(i as int)).0.len() < PREVIEW_LINES {
                line_state(s.take(i as int)).0.len()
            } else {
                PREVIEW_LINES as nat
            },
            forall|j: int| 0 <= j < done@.len() ==> #[trigger] done@[j]@ == line_state(s.take(i as int)).0[j],
            prev_cr == (start < i && s[i - 1] == '\r'),
        decreases n - i,
    {
        let ghost before = s.take(i as int);
        let c = it.next().unwrap();
        assert(c == s[i as int]);
        assert(s.take(i + 1).drop_last() =~= before);
        assert(s.take(i + 1).last() == c);
        if c == '\n' {
            if done.len() < PREVIEW_LINES {
                let line = if prev_cr {
                    content.substring_char(start, i - 1)
                } else {
                    content.substring_char(start, i)
                };
                assert(line@ == strip_cr(s.subrange(start as int, i as int))) by {
                    if prev_cr {
                        assert(s.subrange(start as int, i as int).drop_last() =~= s.subrange(start as int, i - 1));
                    }
                }
                done.push(String::from_str(line));
            }
            start = i + 1;
            prev_cr = false;
            assert(s.subrange(start as int, i + 1) =~= seq![]);
        } else {
            prev_cr = c == '\r';
            assert(s.subrange(start as int, i + 1) =~= s.subrange(start as int, i as int).push(c));
        }
        i = i + 1;
    }
    assert(s.take(n as int) =~= s);
    let ghost d = line_state(s).0;
    let ghost before = done@;
    if start < n && done.len() < PREVIEW_LINES {
        done.push(String::from_str(content.substring_char(start, n)));
    }
    proof {
        let ls = lines_of(s);
        assert(ls.len() >= d.len());
        assert forall|j: int| 0 <= j < d.len() implies #[trigger] ls[j] == d[j] by {}
        let t = first_n(ls, PREVIEW_LINES as nat);
        if d.len() >= PREVIEW_LINES {
            assert(views(done@).len() == t.len());
            assert forall|j: int| 0 <= j < t.len() implies #[trigger] views(done@)[j] == t[j] by {
                assert(done@[j] == before[j]);
            }
        } else if start < n {
            assert(ls =~= d.push(s.subrange(start as int, n as int)));
            assert(views(done@).len() == t.len());
            assert forall|j: int| 0 <= j < t.len() implies #[trigger] views(done@)[j] == t[j] by {
                if j < d.len() {
                    assert(done@[j] == before[j]);
                }
            }
        } else {
            assert(ls =~= d);
            assert(views(done@).len() == t.len());
            assert forall|j: int| 0 <= j < t.len() implies #[trigger] views(done@)[j] == t[j] by {
                assert(done@[j] == before[j]);
            }
        }
        assert(views(done@) =~= t);
    }
    done
}

/// `lines` joined by "\n".
fn join_with_newlines(lines: &Vec<String>) -> (r: String)
    ensures
        r@ == join_lines(views(lines@)),
{
    let mut r = String::new();
    let mut k: usize = 0;
    while k < lines.len()
        invariant
            k <= lines@.len(),
            r@ == join_lines(views(lines@).take(k as int)),
        decreases lines@.len() - k,
    {
        let ghost ls = views(lines@);
        assert(ls.take(k + 1).drop_last() =~= ls.take(k as int));
        if k > 0 {
            r.append("\n");
        } else {
            assert(ls.take(0) =~= seq![]);
        }
        r.append(lines[k].as_str());
        proof {
            reveal_strlit("\n");
        }
        k = k + 1;
    }
    assert(views(lines@).take(lines@.len() as int) =~= views(lines@));
    r
}

/// The preview of `content` shown in the list of saved slots.
pub fn get_preview(content: &str) -> (r: String)
    ensures
        r@ == preview_of(content@),
{
    let lines = first_lines(content);
    let preview = join_with_newlines(&lines);
    if preview.as_str().unicode_len() > PREVIEW_CHARS {
        let mut cut = String::from_str(preview.as_str().substring_char(0, PREVIEW_CHARS));
        cut.append("...");
        cut
    } else {
        preview
    }
}

} // verus!
