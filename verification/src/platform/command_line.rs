//! Building the argument lists of the commands the platforms run.
use vstd::prelude::*;
use crate::text::decimal::{decimal, push_decimal};

verus! {

/// The text of each string of a list.
pub open spec fn arg_texts(v: Seq<String>) -> Seq<Seq<char>> {
    v.map_values(|s: String| s@)
}

/// Appends the argument `arg`.
pub fn push_arg(args: &mut Vec<String>, arg: &str)
    ensures
        arg_texts(final(args)@) == arg_texts(old(args)@).push(arg@),
{
    args.push(String::from_str(arg));
    assert(arg_texts(args@) =~= arg_texts(old(args)@).push(arg@));
}

/// Appends the decimal notation of `n` as an argument.
pub fn push_number_arg(args: &mut Vec<String>, n: u64)
    ensures
        arg_texts(final(args)@) == arg_texts(old(args)@).push(decimal(n as nat)),
{
    let mut s = String::new();
    push_decimal(&mut s, n);
    assert(s@ =~= decimal(n as nat));
    args.push(s);
    assert(arg_texts(args@) =~= arg_texts(old(args)@).push(decimal(n as nat)));
}

} // verus!
