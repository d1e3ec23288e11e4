use vstd::prelude::*;

verus! {

/// Unicode `White_Space`, the property that separates the words of a command line.
pub open spec fn is_space(c: char) -> bool {
    let u = c as u32;
    (0x9 <= u && u <= 0xd) || u == 0x20 || u == 0x85 || u == 0xa0 || u == 0x1680
        || (0x2000 <= u && u <= 0x200a) || u == 0x2028 || u == 0x2029 || u == 0x202f
        || u == 0x205f || u == 0x3000
}

/// The words of `s`: its maximal runs of non-space characters, in order.
/// Each character either ends the text read so far with a space, extends the
/// last word, or opens a new word.
pub open spec fn words(s: Seq<char>) -> Seq<Seq<char>>
    decreases s.len(),
{
    if s.len() == 0 {
        seq![]
    } else {
        let prev = words(s.drop_last());
        let c = s.last();
        if is_space(c) {
            prev
        } else if s.len() > 1 && !is_space(s[s.len() - 2]) {
            prev.update(prev.len() - 1, prev.last().push(c))
        } else {
            prev.push(seq![c])
        }
    }
}

/// The placeholder that a command's arguments carry for the rate.
pub open spec fn placeholder() -> Seq<char> {
    seq!['{', 'R', '}']
}

/// `s` with every occurrence of the placeholder, taken from the left and
/// without overlap, replaced by `by`.
pub open spec fn substitute(s: Seq<char>, by: Seq<char>) -> Seq<char>
    decreases s.len(),
{
    if s.len() == 0 {
        s
    } else if s.len() >= 3 && s.take(3) == placeholder() {
        by + substitute(s.skip(3), by)
    } else {
        seq![s[0]] + substitute(s.skip(1), by)
    }
}

/// The decimal digit for `d < 10`.
pub open spec fn digit(d: nat) -> char {
    ((48 + d) as u8) as char
}

/// The decimal notation of `n`, without leading zeros.
pub open spec fn decimal(n: nat) -> Seq<char>
    decreases n,
{
    if n < 10 {
        seq![digit(n)]
    } else {
        decimal(n / 10).push(digit(n % 10))
    }
}

/// The character sequences that a list of strings holds.
pub open spec fn views(v: Seq<String>) -> Seq<Seq<char>> {
    v.map_values(|s: String| s@)
}

/// Relies on `String::from_iter` over `char`s: the string holds those
/// characters, in order.
#[verifier::external_body]
fn string_from_chars(v: Vec<char>) -> (r: String)
    ensures
        r@ == v@,
{
    String::from_iter(v)
}

fn chars_of(s: &str) -> (r: Vec<char>)
    ensures
        r@ == s@,
{
    let mut r: Vec<char> = Vec::new();
    for c in it: s.chars()
        invariant
            r@ == it.seq().take(it.index() as int),
    {
        r.push(c);
    }
    r
}

/// Whether `c` is white space, as `char::is_whitespace` decides it.
pub fn is_space_char(c: char) -> (r: bool)
    ensures
        r == is_space(c),
{
    let u = c as u32;
    (0x9 <= u && u <= 0xd) || u == 0x20 || u == 0x85 || u == 0xa0 || u == 0x1680
        || (0x2000 <= u && u <= 0x200a) || u == 0x2028 || u == 0x2029 || u == 0x202f
        || u == 0x205f || u == 0x3000
}

/// Splits `s` into its words, as `str::split_whitespace` does.
pub fn split_words(s: &str) -> (r: Vec<String>)
    ensures
        views(r@) == words(s@),
{
    let v = chars_of(s);
    let mut out: Vec<String> = Vec::new();
    let mut cur: Vec<char> = Vec::new();
    let mut i: usize = 0;
    while i < v.len()
        invariant
            i <= v.len(),
            v@ == s@,
            words(v@.take(i as int)) == if cur.len() > 0 {
                views(out@).push(cur@)
            } else {
                views(out@)
            },
            cur.len() > 0 <==> (i > 0 && !is_space(v@[i - 1])),
        decreases v.len() - i,
    {
        let c = v[i];
        assert(v@.take(i + 1).drop_last() =~= v@.take(i as int));
        assert(v@.take(i + 1).last() == c);
        if is_space_char(c) {
            if cur.len() > 0 {
                let w = string_from_chars(cur);
                assert(views(out@.push(w)) =~= views(out@).push(w@));
                out.push(w);
                cur = Vec::new();
            }
        } else {
            let ghost old_cur = cur@;
            cur.push(c);
            assert(i > 0 ==> v@.take(i + 1)[i - 1] == v@[i - 1]);
            assert(old_cur.len() == 0 ==> cur@ =~= seq![c]);
            assert(views(out@).push(old_cur).update(views(out@).len() as int, old_cur.push(c))
                =~= views(out@).push(cur@));
        }
        i += 1;
    }
    assert(v@.take(v.len() as int) =~= v@);
    if cur.len() > 0 {
        let w = string_from_chars(cur);
        assert(views(out@.push(w)) =~= views(out@).push(w@));
        out.push(w);
    }
    out
}

/// The arguments of a command template with the rate put in for the placeholder.
pub open spec fn args_at(args: Seq<Seq<char>>, rate: nat) -> Seq<Seq<char>> {
    args.map_values(|a: Seq<char>| substitute(a, decimal(rate)))
}

fn digit_char(d: usize) -> (r: char)
    requires
        d < 10,
    ensures
        r == digit(d as nat),
{
    (48u8 + d as u8) as char
}

/// The decimal notation of `n`.
pub fn decimal_chars(n: usize) -> (r: Vec<char>)
    ensures
        r@ == decimal(n as nat),
    decreases n,
{
    if n < 10 {
        let mut v: Vec<char> = Vec::new();
        v.push(digit_char(n));
        assert(v@ =~= seq![digit(n as nat)]);
        v
    } else {
        let mut v = decimal_chars(n / 10);
        v.push(digit_char(n % 10));
        v
    }
}

fn push_all(out: &mut Vec<char>, by: &Vec<char>)
    ensures
        final(out)@ == old(out)@ + by@,
{
    let mut j: usize = 0;
    while j < by.len()
        invariant
            j <= by.len(),
            out@ == old(out)@ + by@.take(j as int),
        decreases by.len() - j,
    {
        out.push(by[j]);
        j += 1;
        assert(old(out)@ + by@.take(j as int) =~= old(out)@ + by@.take(j - 1) + seq![by@[j - 1]]);
    }
    assert(by@.take(j as int) =~= by@);
}

/// `s` with each placeholder, read from the left, replaced by `by`.
pub fn substitute_chars(s: &Vec<char>, by: &Vec<char>) -> (r: Vec<char>)
    ensures
        r@ == substitute(s@, by@),
{
    let mut out: Vec<char> = Vec::new();
    let mut i: usize = 0;
    assert(s@.skip(0) =~= s@);
    assert(out@ + substitute(s@, by@) =~= substitute(s@, by@));
    while i < s.len()
        invariant
            i <= s.len(),
            out@ + substitute(s@.skip(i as int), by@) == substitute(s@, by@),
        decreases s.len() - i,
    {
        let ghost t = s@.skip(i as int);
        let ghost o = out@;
        if s.len() - i >= 3 && s[i] == '{' && s[i + 1] == 'R' && s[i + 2] == '}' {
            assert(t.take(3) =~= placeholder());
            assert(t.skip(3) =~= s@.skip(i + 3));
            push_all(&mut out, by);
            assert(o + (by@ + substitute(s@.skip(i + 3), by@)) =~= out@ + substitute(
                s@.skip(i + 3),
                by@,
            ));
            i += 3;
        } else {
            assert(t.len() >= 3 ==> t.take(3) != placeholder()) by {
                if t.len() >= 3 && t.take(3) == placeholder() {
                    assert(t.take(3)[0] == '{' && t.take(3)[1] == 'R' && t.take(3)[2] == '}');
                }
            }
            assert(t.skip(1) =~= s@.skip(i + 1));
            out.push(s[i]);
            assert(o + (seq![t[0]] + substitute(s@.skip(i + 1), by@)) =~= out@ + substitute(
                s@.skip(i + 1),
                by@,
            ));
            i += 1;
        }
    }
    assert(s@.skip(i as int) =~= Seq::<char>::empty());
    assert(out@ + Seq::<char>::empty() =~= out@);
    out
}

/// What a command template is: the program to run and its arguments, some of
/// which may hold the rate placeholder.
pub ghost struct CommandView {
    pub program: Seq<char>,
    pub args: Seq<Seq<char>>,
}

/// The command that is run for a direction, fixed once at startup.
#[derive(Debug)]
pub struct CmdCfg {
    program: String,
    args: Vec<String>,
}

impl View for CmdCfg {
    type V = CommandView;

    closed spec fn view(&self) -> CommandView {
        CommandView { program: self.program@, args: views(self.args@) }
    }
}

impl CmdCfg {
    pub fn new(program: String, args: Vec<String>) -> (r: Self)
        ensures
            r@ == (CommandView { program: program@, args: views(args@) }),
    {
        Self { program, args }
    }

    /// The program to run.
    pub fn program(&self) -> (r: &String)
        ensures
            r@ == self@.program,
    {
        &self.program
    }

    /// The arguments to run the program with at `rate`: each placeholder in
    /// each argument replaced by the rate in decimal.
    pub fn args_for_rate(&self, rate: usize) -> (r: Vec<String>)
        ensures
            views(r@) == args_at(self@.args, rate as nat),
    {
        let d = decimal_chars(rate);
        let mut out: Vec<String> = Vec::new();
        let mut i: usize = 0;
        while i < self.args.len()
            invariant
                i <= self.args.len(),
                d@ == decimal(rate as nat),
                out.len() == i,
                forall|k: int|
                    0 <= k < i ==> #[trigger] out@[k]@ == substitute(self.args@[k]@, d@),
            decreases self.args.len() - i,
        {
            let a = chars_of(self.args[i].as_str());
            let w = string_from_chars(substitute_chars(&a, &d));
            out.push(w);
            i += 1;
        }
        assert(views(out@) =~= args_at(self@.args, rate as nat));
        out
    }
}

/// Splits a command line into its program, the first word, and its arguments,
/// the words after it.
pub fn parse_cmd(cmd: String, _dir: &str) -> (r: (String, Vec<String>))
    requires
        words(cmd@).len() > 0,
    ensures
        r.0@ == words(cmd@)[0],
        views(r.1@) == words(cmd@).drop_first(),
{
    let mut split = split_words(cmd.as_str());
    let program = split.remove(0);
    assert(views(split@) =~= words(cmd@).drop_first());
    (program, split)
}

} // verus!
