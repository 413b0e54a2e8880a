//! Table-creation inputs for the row-scan table: extracting the file path
//! from the module arguments, and declaring one untyped column per top-level
//! field of the file's schema.
//!
//! Arguments and names are handled as byte strings, the form in which the
//! host engine hands them over.

use vstd::prelude::*;

verus! {

/// ASCII whitespace, as trimmed off a module argument.
pub open spec fn is_space(b: u8) -> bool {
    b == 32 || b == 9 || b == 10 || b == 11 || b == 12 || b == 13
}

/// `s` without its leading whitespace.
pub open spec fn trim_front(s: Seq<u8>) -> Seq<u8>
    decreases s.len(),
{
    if s.len() > 0 && is_space(s[0]) {
        trim_front(s.drop_first())
    } else {
        s
    }
}

/// `s` without its trailing whitespace.
pub open spec fn trim_back(s: Seq<u8>) -> Seq<u8>
    decreases s.len(),
{
    if s.len() > 0 && is_space(s.last()) {
        trim_back(s.drop_last())
    } else {
        s
    }
}

/// `s` without leading and trailing whitespace.
pub open spec fn trimmed(s: Seq<u8>) -> Seq<u8> {
    trim_back(trim_front(s))
}

/// The index of the first `=` in `s`, or `s.len()` when there is none.
pub open spec fn first_eq_index(s: Seq<u8>) -> int
    decreases s.len(),
{
    if s.len() == 0 {
        0
    } else if s[0] == 61 {
        0
    } else {
        1 + first_eq_index(s.drop_first())
    }
}

/// `v` without its first and last byte (the quotes around an argument
/// value); shorter values strip to nothing.
pub open spec fn strip_ends(v: Seq<u8>) -> Seq<u8> {
    if v.len() < 2 {
        Seq::empty()
    } else {
        v.subrange(1, v.len() - 1)
    }
}

/// The value one `key='value'` module argument binds: everything after the
/// first `=` of the trimmed argument, unquoted; `None` for an argument
/// without `=`.
pub open spec fn arg_value(arg: Seq<u8>) -> Option<Seq<u8>> {
    let t = trimmed(arg);
    let k = first_eq_index(t);
    if k == t.len() {
        None
    } else {
        Some(strip_ends(t.subrange(k + 1, t.len() as int)))
    }
}

/// The path the module arguments bind: the value of the last argument, when
/// every argument is well formed; `None` for no arguments or a malformed
/// one.
pub open spec fn path_of_args(args: Seq<Vec<u8>>) -> Option<Seq<u8>> {
    if args.len() > 0 && (forall|i: int|
        0 <= i < args.len() ==> arg_value((#[trigger] args[i])@) is Some) {
        arg_value(args.last()@)
    } else {
        None
    }
}

fn is_space_byte(b: u8) -> (r: bool)
    ensures
        r == is_space(b),
{
    b == 32 || b == 9 || b == 10 || b == 11 || b == 12 || b == 13
}

/// Copy `s[lo..hi]` out of a byte vector.
fn sub_bytes(s: &Vec<u8>, lo: usize, hi: usize) -> (r: Vec<u8>)
    requires
        lo <= hi <= s@.len(),
    ensures
        r@ == s@.subrange(lo as int, hi as int),
{
    let mut out: Vec<u8> = Vec::new();
    let mut i: usize = lo;
    while i < hi
        invariant
            lo <= i <= hi <= s@.len(),
            out@ == s@.subrange(lo as int, i as int),
        decreases hi - i,
    {
        out.push(s[i]);
        proof {
            assert(s@.subrange(lo as int, i as int).push(s@[i as int]) =~= s@.subrange(
                lo as int,
                i as int + 1,
            ));
        }
        i = i + 1;
    }
    out
}

/// Append the bytes of `src` to `out`.
pub(crate) fn push_bytes(out: &mut Vec<u8>, src: &Vec<u8>)
    ensures
        final(out)@ == old(out)@ + src@,
{
    let mut i: usize = 0;
    while i < src.len()
        invariant
            i <= src@.len(),
            out@ == old(out)@ + src@.subrange(0, i as int),
        decreases src@.len() - i,
    {
        out.push(src[i]);
        proof {
            assert(old(out)@ + src@.subrange(0, i as int + 1) =~= (old(out)@ + src@.subrange(
                0,
                i as int,
            )).push(src@[i as int]));
        }
        i = i + 1;
    }
    proof {
        assert(src@.subrange(0, src@.len() as int) =~= src@);
    }
}

/// Trim ASCII whitespace off both ends of a byte string.
fn trim_bytes(s: &Vec<u8>) -> (r: Vec<u8>)
    ensures
        r@ == trimmed(s@),
{
    let n = s.len();
    let mut lo: usize = 0;
    proof {
        assert(s@.skip(0) =~= s@);
    }
    while lo < n && is_space_byte(s[lo])
        invariant
            lo <= n,
            n == s@.len(),
            trim_front(s@) == trim_front(s@.skip(lo as int)),
        decreases n - lo,
    {
        proof {
            assert(s@.skip(lo as int)[0] == s@[lo as int]);
            assert(s@.skip(lo as int).drop_first() =~= s@.skip(lo as int + 1));
        }
        lo = lo + 1;
    }
    proof {
        if lo < n {
            assert(s@.skip(lo as int)[0] == s@[lo as int]);
        }
        assert(trim_front(s@) == s@.skip(lo as int));
    }
    let mut hi: usize = n;
    proof {
        assert(s@.subrange(lo as int, n as int) =~= s@.skip(lo as int));
    }
    while hi > lo && is_space_byte(s[hi - 1])
        invariant
            lo <= hi <= n,
            n == s@.len(),
            trim_front(s@) == s@.skip(lo as int),
            trim_back(s@.skip(lo as int)) == trim_back(s@.subrange(lo as int, hi as int)),
        decreases hi,
    {
        proof {
            assert(s@.subrange(lo as int, hi as int).last() == s@[hi as int - 1]);
            assert(s@.subrange(lo as int, hi as int).drop_last() =~= s@.subrange(
                lo as int,
                hi as int - 1,
            ));
        }
        hi = hi - 1;
    }
    proof {
        if hi > lo {
            assert(s@.subrange(lo as int, hi as int).last() == s@[hi as int - 1]);
        }
        assert(trimmed(s@) == s@.subrange(lo as int, hi as int));
    }
    sub_bytes(s, lo, hi)
}

/// Extract the value of one `key='value'` module argument, `None` for a
/// malformed one.
pub fn parse_arg(arg: &Vec<u8>) -> (r: Option<Vec<u8>>)
    ensures
        r is Some <==> arg_value(arg@) is Some,
        r matches Some(v) ==> Some(v@) == arg_value(arg@),
{
    let t = trim_bytes(arg);
    let n = t.len();
    let mut k: usize = 0;
    proof {
        assert(t@.skip(0) =~= t@);
    }
    while k < n && t[k] != 61
        invariant
            k <= n,
            n == t@.len(),
            first_eq_index(t@) == k as int + first_eq_index(t@.skip(k as int)),
        decreases n - k,
    {
        proof {
            assert(t@.skip(k as int)[0] == t@[k as int]);
            assert(t@.skip(k as int).drop_first() =~= t@.skip(k as int + 1));
        }
        k = k + 1;
    }
    proof {
        if k < n {
            assert(t@.skip(k as int)[0] == t@[k as int]);
        }
        assert(first_eq_index(t@) == k as int);
    }
    if k == n {
        return None;
    }
    let vlo = k + 1;
    if n - vlo < 2 {
        proof {
            assert(t@.subrange(k as int + 1, n as int).len() < 2);
        }
        return Some(Vec::new());
    }
    let out = sub_bytes(&t, vlo + 1, n - 1);
    proof {
        assert(t@.subrange(vlo as int + 1, n as int - 1) =~= strip_ends(
            t@.subrange(k as int + 1, n as int),
        ));
    }
    Some(out)
}

/// Extract the file path the module arguments bind: the value of the last
/// argument, rejecting a proposal with no or malformed arguments.
pub fn path_from_args(args: &Vec<Vec<u8>>) -> (r: Option<Vec<u8>>)
    ensures
        r is Some <==> path_of_args(args@) is Some,
        r matches Some(p) ==> Some(p@) == path_of_args(args@),
{
    let mut found: Option<Vec<u8>> = None;
    let mut i: usize = 0;
    while i < args.len()
        invariant
            i <= args@.len(),
            forall|j: int| 0 <= j < i ==> arg_value((#[trigger] args@[j])@) is Some,
            i == 0 ==> found is None,
            i > 0 ==> (found matches Some(v) && Some(v@) == arg_value(args@[i as int - 1]@)),
        decreases args@.len() - i,
    {
        match parse_arg(&args[i]) {
            Some(v) => {
                found = Some(v);
            },
            None => {
                proof {
                    assert(arg_value(args@[i as int]@) is None);
                }
                return None;
            },
        }
        i = i + 1;
    }
    found
}

/// The bytes of `create table x(`, written out as ASCII codes.
pub open spec fn sql_head() -> Seq<u8> {
    seq![
        99,
        114,
        101,
        97,
        116,
        101,
        32,
        116,
        97,
        98,
        108,
        101,
        32,
        120,
        40,
    ]
}

/// A column name in double quotes.
pub open spec fn quoted_name(n: Seq<u8>) -> Seq<u8> {
    seq![34] + n + seq![34]
}

/// The quoted names, comma-separated, in order.
pub open spec fn joined_names(names: Seq<Vec<u8>>) -> Seq<u8>
    decreases names.len(),
{
    if names.len() == 0 {
        Seq::empty()
    } else if names.len() == 1 {
        quoted_name(names[0]@)
    } else {
        joined_names(names.drop_last()) + seq![44] + quoted_name(names.last()@)
    }
}

/// The declared schema of the row-scan table: one untyped column per
/// top-level field of the file's schema, named verbatim, in file order.
pub open spec fn create_table_sql_spec(names: Seq<Vec<u8>>) -> Seq<u8> {
    sql_head() + joined_names(names) + seq![41]
}

/// Render the row-scan table's schema for the given field names.
pub fn create_table_sql(names: &Vec<Vec<u8>>) -> (r: Vec<u8>)
    ensures
        r@ == create_table_sql_spec(names@),
{
    let mut out: Vec<u8> = Vec::new();
    out.push(99);
    out.push(114);
    out.push(101);
    out.push(97);
    out.push(116);
    out.push(101);
    out.push(32);
    out.push(116);
    out.push(97);
    out.push(98);
    out.push(108);
    out.push(101);
    out.push(32);
    out.push(120);
    out.push(40);
    proof {
        assert(out@ =~= sql_head());
        assert(names@.take(0) =~= Seq::<Vec<u8>>::empty());
    }
    let mut i: usize = 0;
    while i < names.len()
        invariant
            i <= names@.len(),
            out@ == sql_head() + joined_names(names@.take(i as int)),
        decreases names@.len() - i,
    {
        if i > 0 {
            out.push(44);
        }
        out.push(34);
        push_bytes(&mut out, &names[i]);
        out.push(34);
        proof {
            assert(names@.take(i as int + 1).drop_last() =~= names@.take(i as int));
            assert(names@.take(i as int + 1).last() == names@[i as int]);
            assert(out@ =~= sql_head() + joined_names(names@.take(i as int + 1)));
        }
        i = i + 1;
    }
    out.push(41);
    proof {
        assert(names@.take(names@.len() as int) =~= names@);
        assert(out@ =~= create_table_sql_spec(names@));
    }
    out
}

} // verus!
