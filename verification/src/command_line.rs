//! Quoting of the arguments handed to the elevated broker process.
//!
//! `ShellExecuteExW` receives the broker's arguments as one UTF-16 command
//! line. Each argument is quoted so that the Windows argument splitting rules
//! (those of `CommandLineToArgvW` and the C runtime) give it back unchanged;
//! `lemma_parameters_round_trip` proves that against a model of those rules.

use vstd::prelude::*;

verus! {

pub const TAB: u16 = 9;

pub const SPACE: u16 = 32;

pub const QUOTE: u16 = 34;

pub const BACKSLASH: u16 = 92;

/// `n` copies of the code unit `c`.
pub open spec fn units(c: u16, n: nat) -> Seq<u16> {
    Seq::new(n, |_i: int| c)
}

pub open spec fn is_special(c: u16) -> bool {
    c == SPACE || c == TAB || c == QUOTE
}

/// Whether an argument holds a character that forces quoting.
pub open spec fn needs_quotes(s: Seq<u16>) -> bool {
    exists|i: int| 0 <= i < s.len() && #[trigger] is_special(s[i])
}

/// The inside of a quoted argument: `pending` backslashes precede `s` and have
/// not been written yet. Backslashes are doubled where a quote follows them
/// (a literal one, or the closing one), and a literal quote gets one more.
pub open spec fn quote_body(s: Seq<u16>, pending: nat) -> Seq<u16>
    decreases s.len(),
{
    if s.len() == 0 {
        units(BACKSLASH, 2 * pending)
    } else if s[0] == BACKSLASH {
        quote_body(s.drop_first(), pending + 1)
    } else if s[0] == QUOTE {
        units(BACKSLASH, 2 * pending + 1) + seq![QUOTE] + quote_body(s.drop_first(), 0)
    } else {
        units(BACKSLASH, pending) + seq![s[0]] + quote_body(s.drop_first(), 0)
    }
}

/// One argument as it stands on the command line.
pub open spec fn quote_arg(s: Seq<u16>) -> Seq<u16> {
    if s.len() == 0 {
        seq![QUOTE, QUOTE]
    } else if !needs_quotes(s) {
        s
    } else {
        seq![QUOTE] + quote_body(s, 0) + seq![QUOTE]
    }
}

/// The quoted arguments separated by single spaces.
pub open spec fn join_quoted(args: Seq<Seq<u16>>) -> Seq<u16>
    decreases args.len(),
{
    if args.len() == 0 {
        Seq::empty()
    } else if args.len() == 1 {
        quote_arg(args[0])
    } else {
        join_quoted(args.drop_last()) + seq![SPACE] + quote_arg(args.last())
    }
}

pub open spec fn arg_views(args: Seq<Vec<u16>>) -> Seq<Seq<u16>> {
    args.map_values(|a: Vec<u16>| a@)
}

fn push_units(out: &mut Vec<u16>, unit: u16, n: usize)
    ensures
        final(out)@ == old(out)@ + units(unit, n as nat),
{
    let ghost start = out@;
    let mut k: usize = 0;
    while k < n
        invariant
            k <= n,
            out@ == start + units(unit, k as nat),
        decreases n - k,
    {
        out.push(unit);
        proof {
            assert(start + units(unit, (k + 1) as nat) =~= (start + units(unit, k as nat)).push(
                unit,
            ));
        }
        k = k + 1;
    }
}

fn has_special(input: &[u16]) -> (r: bool)
    ensures
        r == needs_quotes(input@),
{
    let n = input.len();
    let mut i: usize = 0;
    while i < n
        invariant
            n == input@.len(),
            i <= n,
            forall|j: int| 0 <= j < i ==> !is_special(input@[j]),
        decreases n - i,
    {
        let ch = input[i];
        if ch == SPACE || ch == TAB || ch == QUOTE {
            assert(is_special(input@[i as int]));
            return true;
        }
        i = i + 1;
    }
    false
}

/// Quotes one argument by the Windows command-line rules. An argument with
/// no space, tab or quote is kept as it is; an empty one becomes `""`.
pub fn quote_cmd_arg(input: &[u16]) -> (r: Vec<u16>)
    ensures
        r@ == quote_arg(input@),
{
    let n = input.len();
    if n == 0 {
        let mut e: Vec<u16> = Vec::new();
        e.push(QUOTE);
        e.push(QUOTE);
        assert(e@ =~= seq![QUOTE, QUOTE]);
        return e;
    }
    if !has_special(input) {
        let mut copy: Vec<u16> = Vec::new();
        let mut i: usize = 0;
        while i < n
            invariant
                n == input@.len(),
                i <= n,
                copy@ == input@.take(i as int),
            decreases n - i,
        {
            copy.push(input[i]);
            proof {
                assert(input@.take((i + 1) as int) =~= input@.take(i as int).push(input@[i as int]));
            }
            i = i + 1;
        }
        assert(input@.take(n as int) =~= input@);
        return copy;
    }
    let ghost whole = seq![QUOTE] + quote_body(input@, 0);
    let mut out: Vec<u16> = Vec::new();
    out.push(QUOTE);
    let mut backslashes: usize = 0;
    let mut i: usize = 0;
    proof {
        assert(input@.skip(0) =~= input@);
        assert(out@ =~= seq![QUOTE]);
    }
    while i < n
        invariant
            n == input@.len(),
            i <= n,
            backslashes <= i,
            whole == seq![QUOTE] + quote_body(input@, 0),
            out@ + quote_body(input@.skip(i as int), backslashes as nat) == whole,
        decreases n - i,
    {
        let ch = input[i];
        let ghost rest = input@.skip(i as int);
        let ghost next = input@.skip(i + 1);
        proof {
            assert(rest[0] == ch);
            assert(rest.drop_first() =~= next);
        }
        if ch == BACKSLASH {
            backslashes = backslashes + 1;
        } else if ch == QUOTE {
            let ghost before = out@;
            push_units(&mut out, BACKSLASH, backslashes);
            push_units(&mut out, BACKSLASH, backslashes);
            out.push(BACKSLASH);
            out.push(QUOTE);
            proof {
                lemma_units_add(BACKSLASH, backslashes as nat, backslashes as nat);
                lemma_units_add(BACKSLASH, (2 * backslashes) as nat, 1);
                assert(units(BACKSLASH, 1) =~= seq![BACKSLASH]);
                let seg = units(BACKSLASH, (2 * backslashes + 1) as nat) + seq![QUOTE];
                assert(out@ =~= before + seg);
                assert(quote_body(rest, backslashes as nat) == seg + quote_body(next, 0));
                assert(before + (seg + quote_body(next, 0)) =~= (before + seg) + quote_body(
                    next,
                    0,
                ));
            }
            backslashes = 0;
        } else {
            let ghost before = out@;
            push_units(&mut out, BACKSLASH, backslashes);
            out.push(ch);
            proof {
                let seg = units(BACKSLASH, backslashes as nat) + seq![ch];
                assert(out@ =~= before + seg);
                assert(quote_body(rest, backslashes as nat) == seg + quote_body(next, 0));
                assert(before + (seg + quote_body(next, 0)) =~= (before + seg) + quote_body(
                    next,
                    0,
                ));
            }
            backslashes = 0;
        }
        i = i + 1;
    }
    let ghost before = out@;
    push_units(&mut out, BACKSLASH, backslashes);
    push_units(&mut out, BACKSLASH, backslashes);
    out.push(QUOTE);
    proof {
        lemma_units_add(BACKSLASH, backslashes as nat, backslashes as nat);
        assert(input@.skip(n as int).len() == 0);
        assert(before + units(BACKSLASH, (2 * backslashes) as nat) == whole);
        assert(out@ =~= whole + seq![QUOTE]);
    }
    out
}

/// Quotes every argument, separates them by single spaces and ends the line
/// with a NUL, as `ShellExecuteExW` takes its parameters.
pub fn quote_cmd_args(args: &Vec<Vec<u16>>) -> (r: Vec<u16>)
    ensures
        r@ == join_quoted(arg_views(args@)) + seq![0u16],
{
    let ghost views = arg_views(args@);
    let mut out: Vec<u16> = Vec::new();
    let n = args.len();
    let mut index: usize = 0;
    proof {
        assert(views.take(0) =~= Seq::<Seq<u16>>::empty());
    }
    while index < n
        invariant
            n == args@.len(),
            views == arg_views(args@),
            index <= n,
            out@ == join_quoted(views.take(index as int)),
        decreases n - index,
    {
        let ghost before = out@;
        if index > 0 {
            out.push(SPACE);
        }
        let mut quoted = quote_cmd_arg(args[index].as_slice());
        out.append(&mut quoted);
        proof {
            let t = views.take((index + 1) as int);
            assert(t.last() == views[index as int]);
            assert(views[index as int] == args@[index as int]@);
            assert(t.drop_last() =~= views.take(index as int));
            if index == 0 {
                assert(out@ =~= quote_arg(t[0]));
            } else {
                assert(out@ =~= before + seq![SPACE] + quote_arg(t.last()));
            }
        }
        index = index + 1;
    }
    proof {
        assert(views.take(n as int) =~= views);
    }
    out.push(0);
    out
}

/// The state of the Windows argument splitter after reading part of a
/// command line: the arguments finished so far, the argument being built,
/// whether one is being built, whether a quoted stretch is open, and how many
/// backslashes have been read and not yet placed.
#[verifier::ext_equal]
pub struct ArgvState {
    pub done: Seq<Seq<u16>>,
    pub cur: Seq<u16>,
    pub in_arg: bool,
    pub quoted: bool,
    pub backslashes: nat,
}

/// The splitter's state before the parameters, having finished `done`.
pub open spec fn argv_start(done: Seq<Seq<u16>>) -> ArgvState {
    ArgvState { done, cur: Seq::empty(), in_arg: false, quoted: false, backslashes: 0 }
}

/// One character of the splitting rules: backslashes are literal unless a
/// quote follows them; before a quote, each pair gives one backslash, and an
/// odd one escapes the quote; an unescaped quote opens or closes a quoted
/// stretch; spaces and tabs outside quotes end an argument.
pub open spec fn argv_step(st: ArgvState, c: u16) -> ArgvState {
    if c == BACKSLASH {
        ArgvState {
            done: st.done,
            cur: st.cur,
            in_arg: true,
            quoted: st.quoted,
            backslashes: st.backslashes + 1,
        }
    } else if c == QUOTE {
        let cur = st.cur + units(BACKSLASH, st.backslashes / 2);
        if st.backslashes % 2 == 1 {
            ArgvState {
                done: st.done,
                cur: cur.push(QUOTE),
                in_arg: true,
                quoted: st.quoted,
                backslashes: 0,
            }
        } else {
            ArgvState { done: st.done, cur, in_arg: true, quoted: !st.quoted, backslashes: 0 }
        }
    } else {
        let cur = st.cur + units(BACKSLASH, st.backslashes);
        if (c == SPACE || c == TAB) && !st.quoted {
            if st.in_arg {
                argv_start(st.done.push(cur))
            } else {
                ArgvState { done: st.done, cur, in_arg: false, quoted: false, backslashes: 0 }
            }
        } else {
            ArgvState {
                done: st.done,
                cur: cur.push(c),
                in_arg: true,
                quoted: st.quoted,
                backslashes: 0,
            }
        }
    }
}

pub open spec fn argv_run(s: Seq<u16>, st: ArgvState) -> ArgvState
    decreases s.len(),
{
    if s.len() == 0 {
        st
    } else {
        argv_run(s.drop_first(), argv_step(st, s[0]))
    }
}

/// The argument being built, with the backslashes not yet placed.
pub open spec fn argv_flushed(st: ArgvState) -> Seq<u16> {
    st.cur + units(BACKSLASH, st.backslashes)
}

pub open spec fn argv_finish(st: ArgvState) -> Seq<Seq<u16>> {
    if st.in_arg {
        st.done.push(argv_flushed(st))
    } else {
        st.done
    }
}

/// The arguments that the Windows splitting rules read from a parameter
/// string (the part of a command line after the program name).
pub open spec fn split_parameters(s: Seq<u16>) -> Seq<Seq<u16>> {
    argv_finish(argv_run(s, argv_start(Seq::empty())))
}

proof fn lemma_run_concat(x: Seq<u16>, y: Seq<u16>, st: ArgvState)
    ensures
        argv_run(x + y, st) == argv_run(y, argv_run(x, st)),
    decreases x.len(),
{
    if x.len() == 0 {
        assert(x + y =~= y);
    } else {
        assert((x + y).drop_first() =~= x.drop_first() + y);
        assert((x + y)[0] == x[0]);
        lemma_run_concat(x.drop_first(), y, argv_step(st, x[0]));
    }
}

proof fn lemma_run_single(c: u16, st: ArgvState)
    ensures
        argv_run(seq![c], st) == argv_step(st, c),
{
    let s = seq![c];
    assert(s.drop_first() =~= Seq::<u16>::empty());
    assert(argv_run(s.drop_first(), argv_step(st, c)) == argv_step(st, c));
}

proof fn lemma_run_backslashes(n: nat, st: ArgvState)
    ensures
        argv_run(units(BACKSLASH, n), st) == (ArgvState {
            done: st.done,
            cur: st.cur,
            in_arg: st.in_arg || n > 0,
            quoted: st.quoted,
            backslashes: st.backslashes + n,
        }),
    decreases n,
{
    if n > 0 {
        let u = units(BACKSLASH, n);
        assert(u[0] == BACKSLASH);
        assert(u.drop_first() =~= units(BACKSLASH, (n - 1) as nat));
        lemma_run_backslashes((n - 1) as nat, argv_step(st, BACKSLASH));
    }
}

proof fn lemma_units_add(c: u16, a: nat, b: nat)
    ensures
        units(c, a) + units(c, b) == units(c, a + b),
{
    assert(units(c, a) + units(c, b) =~= units(c, a + b));
}

/// Reading the inside of a quoted argument and its closing quote, from an
/// open quoted stretch, appends the argument and closes the stretch.
proof fn lemma_run_quoted_body(x: Seq<u16>, p: nat, st: ArgvState)
    requires
        st.quoted,
        st.in_arg,
        st.backslashes == 0,
    ensures
        argv_run(quote_body(x, p) + seq![QUOTE], st) == (ArgvState {
            done: st.done,
            cur: st.cur + units(BACKSLASH, p) + x,
            in_arg: true,
            quoted: false,
            backslashes: 0,
        }),
    decreases x.len(),
{
    let q = seq![QUOTE];
    if x.len() == 0 {
        lemma_run_concat(units(BACKSLASH, 2 * p), q, st);
        lemma_run_backslashes(2 * p, st);
        let s1 = argv_run(units(BACKSLASH, 2 * p), st);
        assert(q.drop_first().len() == 0);
        lemma_run_single(QUOTE, s1);
        assert((2 * p) / 2 == p);
        assert(st.cur + units(BACKSLASH, p) + x =~= st.cur + units(BACKSLASH, p));
    } else if x[0] == BACKSLASH {
        let xr = x.drop_first();
        lemma_run_quoted_body(xr, p + 1, st);
        lemma_units_add(BACKSLASH, p, 1);
        assert(units(BACKSLASH, 1) =~= seq![BACKSLASH]);
        assert(x =~= seq![BACKSLASH] + xr);
        assert(st.cur + units(BACKSLASH, p + 1) + xr =~= st.cur + units(BACKSLASH, p) + x);
    } else if x[0] == QUOTE {
        let xr = x.drop_first();
        let bs = units(BACKSLASH, 2 * p + 1);
        let rest = quote_body(xr, 0) + q;
        assert(quote_body(x, p) + q =~= bs + (q + rest));
        lemma_run_concat(bs, q + rest, st);
        lemma_run_backslashes(2 * p + 1, st);
        let s1 = argv_run(bs, st);
        lemma_run_concat(q, rest, s1);
        assert(q.drop_first().len() == 0);
        lemma_run_single(QUOTE, s1);
        assert((2 * p + 1) / 2 == p);
        assert((2 * p + 1) % 2 == 1);
        let s2 = argv_step(s1, QUOTE);
        lemma_run_quoted_body(xr, 0, s2);
        assert(x =~= seq![QUOTE] + xr);
        assert(s2.cur + units(BACKSLASH, 0) + xr =~= st.cur + units(BACKSLASH, p) + x);
    } else {
        let xr = x.drop_first();
        let bs = units(BACKSLASH, p);
        let c = seq![x[0]];
        let rest = quote_body(xr, 0) + q;
        assert(quote_body(x, p) + q =~= bs + (c + rest));
        lemma_run_concat(bs, c + rest, st);
        lemma_run_backslashes(p, st);
        let s1 = argv_run(bs, st);
        lemma_run_concat(c, rest, s1);
        assert(c.drop_first().len() == 0);
        lemma_run_single(x[0], s1);
        let s2 = argv_step(s1, x[0]);
        lemma_run_quoted_body(xr, 0, s2);
        assert(x =~= c + xr);
        assert(s2.cur + units(BACKSLASH, 0) + xr =~= st.cur + units(BACKSLASH, p) + x);
    }
}

/// Reading an argument with no space, tab or quote, outside quotes, appends
/// it to the argument being built.
proof fn lemma_run_plain(x: Seq<u16>, st: ArgvState)
    requires
        !needs_quotes(x),
        !st.quoted,
    ensures
        argv_run(x, st).done == st.done,
        !argv_run(x, st).quoted,
        argv_run(x, st).in_arg == (st.in_arg || x.len() > 0),
        argv_flushed(argv_run(x, st)) == argv_flushed(st) + x,
    decreases x.len(),
{
    if x.len() == 0 {
        assert(argv_flushed(st) + x =~= argv_flushed(st));
    } else {
        let xr = x.drop_first();
        assert(!is_special(x[0]));
        assert forall|i: int| 0 <= i < xr.len() implies !is_special(#[trigger] xr[i]) by {
            assert(xr[i] == x[i + 1]);
            assert(!is_special(x[i + 1]));
        }
        let s1 = argv_step(st, x[0]);
        lemma_run_plain(xr, s1);
        if x[0] == BACKSLASH {
            lemma_units_add(BACKSLASH, st.backslashes, 1);
            assert(units(BACKSLASH, 1) =~= seq![BACKSLASH]);
        }
        assert(argv_flushed(s1) =~= argv_flushed(st) + seq![x[0]]);
        assert(x =~= seq![x[0]] + xr);
        assert(argv_flushed(s1) + xr =~= argv_flushed(st) + x);
    }
}

/// Reading one quoted argument at an argument boundary leaves exactly that
/// argument under construction.
proof fn lemma_run_quoted_arg(a: Seq<u16>, done: Seq<Seq<u16>>)
    ensures
        argv_run(quote_arg(a), argv_start(done)).done == done,
        !argv_run(quote_arg(a), argv_start(done)).quoted,
        argv_run(quote_arg(a), argv_start(done)).in_arg,
        argv_flushed(argv_run(quote_arg(a), argv_start(done))) == a,
{
    let st = argv_start(done);
    let q = seq![QUOTE];
    if a.len() == 0 {
        let qq = seq![QUOTE, QUOTE];
        assert(qq =~= q + q);
        lemma_run_concat(q, q, st);
        assert(q.drop_first().len() == 0);
        lemma_run_single(QUOTE, st);
        let s1 = argv_step(st, QUOTE);
        lemma_run_single(QUOTE, s1);
        assert(argv_flushed(argv_step(s1, QUOTE)) =~= a);
    } else if !needs_quotes(a) {
        lemma_run_plain(a, st);
        assert(argv_flushed(st) + a =~= a);
    } else {
        let rest = quote_body(a, 0) + q;
        assert(quote_arg(a) =~= q + rest);
        lemma_run_concat(q, rest, st);
        assert(q.drop_first().len() == 0);
        lemma_run_single(QUOTE, st);
        let s1 = argv_step(st, QUOTE);
        lemma_run_quoted_body(a, 0, s1);
        assert(s1.cur + units(BACKSLASH, 0) + a =~= a);
        assert(argv_flushed(argv_run(rest, s1)) =~= a);
    }
}

proof fn lemma_run_join(args: Seq<Seq<u16>>, done: Seq<Seq<u16>>)
    requires
        args.len() > 0,
    ensures
        argv_run(join_quoted(args), argv_start(done)).done == done + args.drop_last(),
        !argv_run(join_quoted(args), argv_start(done)).quoted,
        argv_run(join_quoted(args), argv_start(done)).in_arg,
        argv_flushed(argv_run(join_quoted(args), argv_start(done))) == args.last(),
    decreases args.len(),
{
    if args.len() == 1 {
        lemma_run_quoted_arg(args[0], done);
        assert(done + args.drop_last() =~= done);
    } else {
        let init = args.drop_last();
        let sp = seq![SPACE];
        let last = quote_arg(args.last());
        lemma_run_join(init, done);
        let s1 = argv_run(join_quoted(init), argv_start(done));
        lemma_run_concat(join_quoted(init) + sp, last, argv_start(done));
        lemma_run_concat(join_quoted(init), sp, argv_start(done));
        assert(sp.drop_first().len() == 0);
        lemma_run_single(SPACE, s1);
        let done2 = (done + init.drop_last()).push(init.last());
        assert(done2 =~= done + init);
        assert(argv_step(s1, SPACE) =~= argv_start(done + init));
        lemma_run_quoted_arg(args.last(), done + init);
    }
}

/// The Windows argument splitter reads back exactly the arguments that
/// `quote_cmd_args` quoted and joined, whatever they hold.
pub proof fn lemma_parameters_round_trip(args: Seq<Seq<u16>>)
    ensures
        split_parameters(join_quoted(args)) == args,
{
    if args.len() == 0 {
        assert(split_parameters(join_quoted(args)) =~= args);
    } else {
        lemma_run_join(args, Seq::empty());
        assert(Seq::<Seq<u16>>::empty() + args.drop_last() =~= args.drop_last());
        assert(args.drop_last().push(args.last()) =~= args);
    }
}

} // verus!
