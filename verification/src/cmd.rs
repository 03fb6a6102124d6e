use vstd::prelude::*;

verus! {

/// The views of a sequence of strings, as sequences of characters.
pub open spec fn views(ss: Seq<String>) -> Seq<Seq<char>> {
    ss.map_values(|s: String| s@)
}

/// The four components of a command, pinned at once by their views:
/// program, subcommand tokens, keywords, flags.
pub open spec fn cmd_is(
    c: Cmd,
    prog: Seq<char>,
    sub: Seq<Seq<char>>,
    kws: Seq<Seq<char>>,
    flags: Seq<Seq<char>>,
) -> bool {
    &&& c.program@ =~= prog
    &&& views(c.subcmd@) =~= sub
    &&& views(c.kws@) =~= kws
    &&& views(c.flags@) =~= flags
}

/// Clones a token list.
pub fn clone_tokens(v: &Vec<String>) -> (r: Vec<String>)
    ensures
        r@ == v@,
{
    let mut r: Vec<String> = Vec::new();
    let mut i: usize = 0;
    while i < v.len()
        invariant
            i <= v@.len(),
            r@ == v@.take(i as int),
        decreases v@.len() - i,
    {
        r.push(v[i].clone());
        proof {
            assert(r@ =~= v@.take(i as int + 1));
        }
        i += 1;
    }
    proof {
        assert(v@.take(v@.len() as int) =~= v@);
    }
    r
}

/// An immutable description of one subprocess invocation: a program, its
/// subcommand tokens, the caller-supplied keywords (package names or search
/// terms), and pass-through flags.
///
/// Tokens are kept as an argument vector and handed to the operating system
/// as such; they are never concatenated into a shell string, so no shell
/// interpretation of keyword contents can occur. A `Cmd` is built fresh for
/// each operation invocation and consumed once.
#[derive(Clone, Debug, PartialEq, Eq)]
pub struct Cmd {
    pub program: String,
    pub subcmd: Vec<String>,
    pub kws: Vec<String>,
    pub flags: Vec<String>,
}

/// The display form of an argument vector: the tokens joined by single
/// spaces, in order.
pub open spec fn join_tokens(ts: Seq<Seq<char>>) -> Seq<char>
    decreases ts.len(),
{
    if ts.len() == 0 {
        Seq::empty()
    } else if ts.len() == 1 {
        ts[0]
    } else {
        join_tokens(ts.drop_last()) + seq![' '] + ts.last()
    }
}

impl Cmd {
    /// Well-formed: the program name is non-empty. This is the only
    /// validation the model performs; downstream components trust the
    /// caller to supply well-formed tokens.
    pub open spec fn wf(self) -> bool {
        self.program@.len() > 0
    }

    /// The full argument vector: program, then subcommand tokens, then
    /// keywords, then flags, in that order.
    pub open spec fn argv(self) -> Seq<Seq<char>> {
        seq![self.program@] + views(self.subcmd@) + views(self.kws@) + views(self.flags@)
    }

    /// The display/echo form: the argument vector joined by spaces.
    pub open spec fn display_spec(self) -> Seq<char> {
        join_tokens(self.argv())
    }

    /// A fresh command for `program`, with no subcommand tokens, keywords
    /// or flags yet.
    pub fn new(program: String) -> (r: Cmd)
        ensures
            r.program == program,
            r.subcmd@ == Seq::<String>::empty(),
            r.kws@ == Seq::<String>::empty(),
            r.flags@ == Seq::<String>::empty(),
    {
        Cmd { program, subcmd: Vec::new(), kws: Vec::new(), flags: Vec::new() }
    }

    /// Appends one subcommand token.
    pub fn sub(self, token: String) -> (r: Cmd)
        ensures
            r.program == self.program,
            r.subcmd@ == self.subcmd@.push(token),
            r.kws == self.kws,
            r.flags == self.flags,
    {
        let mut c = self;
        c.subcmd.push(token);
        c
    }

    /// Replaces the keyword list.
    pub fn kws(self, kws: Vec<String>) -> (r: Cmd)
        ensures
            r.program == self.program,
            r.subcmd == self.subcmd,
            r.kws == kws,
            r.flags == self.flags,
    {
        let mut c = self;
        c.kws = kws;
        c
    }

    /// Replaces the flag list.
    pub fn flags(self, flags: Vec<String>) -> (r: Cmd)
        ensures
            r.program == self.program,
            r.subcmd == self.subcmd,
            r.kws == self.kws,
            r.flags == flags,
    {
        let mut c = self;
        c.flags = flags;
        c
    }

    /// The arguments after the program name, in order: subcommand tokens,
    /// keywords, flags. This is what an operating-system launch receives
    /// beside the program.
    pub fn args(&self) -> (r: Vec<String>)
        ensures
            views(r@) == views(self.subcmd@) + views(self.kws@) + views(self.flags@),
    {
        let mut r: Vec<String> = Vec::new();
        append_all(&mut r, &self.subcmd);
        append_all(&mut r, &self.kws);
        append_all(&mut r, &self.flags);
        proof {
            assert(views(r@) =~= views(self.subcmd@) + views(self.kws@) + views(self.flags@));
        }
        r
    }

    /// The display/echo form of the command, as printed by dry runs,
    /// verbose echo and confirmation prompts.
    pub fn display(&self) -> (r: String)
        ensures
            r@ == self.display_spec(),
    {
        let mut all: Vec<String> = Vec::new();
        all.push(self.program.clone());
        append_all(&mut all, &self.subcmd);
        append_all(&mut all, &self.kws);
        append_all(&mut all, &self.flags);
        proof {
            assert(views(all@) =~= self.argv());
        }
        join_with_spaces(&all)
    }
}

/// Appends clones of every element of `src` to `dst`, in order.
fn append_all(dst: &mut Vec<String>, src: &Vec<String>)
    ensures
        views(final(dst)@) == views(old(dst)@) + views(src@),
{
    let ghost dst0 = dst@;
    let mut i: usize = 0;
    while i < src.len()
        invariant
            i <= src@.len(),
            views(dst@) == views(dst0) + views(src@.take(i as int)),
        decreases src@.len() - i,
    {
        let x = src[i].clone();
        let ghost dpre = dst@;
        let ghost xv = x@;
        dst.push(x);
        proof {
            assert(views(dst@) =~= views(dpre).push(xv));
            assert(src@.take(i as int + 1) =~= src@.take(i as int).push(src@[i as int]));
            assert(views(src@.take(i as int + 1)) =~= views(src@.take(i as int)).push(
                src@[i as int]@,
            ));
            assert(views(dst@) =~= views(dst0) + views(src@.take(i as int + 1)));
        }
        i += 1;
    }
    proof {
        assert(src@.take(src@.len() as int) =~= src@);
        assert(views(dst@) =~= views(dst0) + views(src@));
    }
}

/// Joins the tokens with single spaces, in order.
fn join_with_spaces(tokens: &Vec<String>) -> (r: String)
    ensures
        r@ == join_tokens(views(tokens@)),
{
    let mut out = String::new();
    let mut i: usize = 0;
    while i < tokens.len()
        invariant
            i <= tokens@.len(),
            out@ == join_tokens(views(tokens@).take(i as int)),
        decreases tokens@.len() - i,
    {
        if i > 0 {
            out.append(" ");
        }
        out.append(tokens[i].as_str());
        proof {
            reveal_strlit(" ");
            assert(" "@ =~= seq![' ']);
            let ts = views(tokens@);
            assert(ts.take(i as int + 1).drop_last() =~= ts.take(i as int));
            assert(ts.take(i as int + 1).last() == ts[i as int]);
            if i == 0 {
                assert(out@ =~= join_tokens(ts.take(1)));
            } else {
                assert(out@ =~= join_tokens(ts.take(i as int + 1)));
            }
        }
        i += 1;
    }
    proof {
        assert(views(tokens@).take(tokens@.len() as int) =~= views(tokens@));
    }
    out
}

} // verus!
