//! Building argument vectors for `git`/`gh` one piece at a time, with the
//! view of the vector tracked as a sequence of character sequences.
use vstd::prelude::*;
use crate::text::{views, opt_view};

verus! {

/// `flag value` when the value is present, nothing otherwise.
pub open spec fn flag_value(flag: Seq<char>, v: Option<Seq<char>>) -> Seq<Seq<char>> {
    match v {
        Some(x) => seq![flag, x],
        None => Seq::empty(),
    }
}

/// The value alone when present.
pub open spec fn opt_arg(v: Option<Seq<char>>) -> Seq<Seq<char>> {
    match v {
        Some(x) => seq![x],
        None => Seq::empty(),
    }
}

pub fn push_arg(args: &mut Vec<String>, a: String)
    ensures
        views(final(args)@) == views(old(args)@).push(a@),
{
    args.push(a);
    proof {
        assert(views(final(args)@) =~= views(old(args)@).push(a@));
    }
}

pub fn push_lit(args: &mut Vec<String>, a: &str)
    ensures
        views(final(args)@) == views(old(args)@).push(a@),
{
    push_arg(args, a.to_owned());
}

pub fn push_flag_value(args: &mut Vec<String>, flag: &str, v: Option<String>)
    ensures
        views(final(args)@) == views(old(args)@) + flag_value(flag@, opt_view(v)),
{
    match v {
        Some(x) => {
            push_lit(args, flag);
            push_arg(args, x);
            proof {
                assert(views(final(args)@) =~= views(old(args)@) + flag_value(flag@, opt_view(v)));
            }
        },
        None => {
            proof {
                assert(views(args@) =~= views(old(args)@) + flag_value(flag@, opt_view(v)));
            }
        },
    }
}

pub fn push_opt_arg(args: &mut Vec<String>, v: Option<String>)
    ensures
        views(final(args)@) == views(old(args)@) + opt_arg(opt_view(v)),
{
    match v {
        Some(x) => {
            push_arg(args, x);
            proof {
                assert(views(final(args)@) =~= views(old(args)@) + opt_arg(opt_view(v)));
            }
        },
        None => {
            proof {
                assert(views(args@) =~= views(old(args)@) + opt_arg(opt_view(v)));
            }
        },
    }
}

/// Appends every string of `more`.
pub fn push_all(args: &mut Vec<String>, more: &Vec<String>)
    ensures
        views(final(args)@) == views(old(args)@) + views(more@),
{
    let mut i: usize = 0;
    while i < more.len()
        invariant
            i <= more@.len(),
            views(args@) == views(old(args)@) + views(more@).take(i as int),
        decreases more@.len() - i,
    {
        push_arg(args, more[i].clone());
        proof {
            assert(views(more@).take(i + 1) =~= views(more@).take(i as int).push(more@[i as int]@));
        }
        i = i + 1;
    }
    proof {
        assert(views(more@).take(more@.len() as int) =~= views(more@));
    }
}

/// `flag` followed directly by `value` somewhere in `args`.
pub open spec fn has_flag_value(args: Seq<Seq<char>>, flag: Seq<char>, value: Seq<char>) -> bool {
    exists|k: int| 0 <= k && k + 1 < args.len() && #[trigger] args[k] == flag && args[k + 1] == value
}

/// A present `flag value` pair stands as two consecutive arguments
/// wherever it is placed.
pub proof fn lemma_flag_value_in(
    pre: Seq<Seq<char>>,
    flag: Seq<char>,
    v: Option<Seq<char>>,
    post: Seq<Seq<char>>,
)
    ensures
        v matches Some(x) ==> has_flag_value(pre + flag_value(flag, v) + post, flag, x),
        flag_value(flag, v).len() == (if v is Some { 2int } else { 0int }),
{
    if let Some(x) = v {
        let all = pre + flag_value(flag, v) + post;
        let k = pre.len() as int;
        assert(all[k] == flag);
        assert(all[k + 1] == x);
    }
}

} // verus!
