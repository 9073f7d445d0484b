//! Launch-argument handling: picking the file paths out of a process
//! argument list, and the graceful-degradation rule for path
//! canonicalization.
//!
//! Canonicalizing a path touches the file system, so the driver does
//! it and hands the result back; the decision of what to expose is
//! verified here.

use vstd::prelude::*;

verus! {

/// An argument that names no file: it starts with `-`.
pub open spec fn is_flag(arg: Seq<char>) -> bool {
    arg.len() > 0 && arg[0] == '-'
}

/// The predicate a kept argument satisfies: it is not a flag.
pub open spec fn keep_pred() -> spec_fn(Seq<char>) -> bool {
    |a: Seq<char>| !is_flag(a)
}

/// The file paths carried by an argument list: everything after the
/// leading executable name that is not a flag.
pub open spec fn file_args_of(argv: Seq<Seq<char>>) -> Seq<Seq<char>> {
    if argv.len() == 0 {
        Seq::<Seq<char>>::empty()
    } else {
        argv.skip(1).filter(keep_pred())
    }
}

proof fn lemma_filter_singleton(x: Seq<char>)
    ensures
        seq![x].filter(keep_pred()) == if keep_pred()(x) {
            seq![x]
        } else {
            Seq::<Seq<char>>::empty()
        },
{
    reveal(Seq::filter);
    assert(seq![x].drop_last() =~= Seq::<Seq<char>>::empty());
    assert(seq![x].last() == x);
    assert(Seq::<Seq<char>>::empty().filter(keep_pred()) =~= Seq::<Seq<char>>::empty());
    if keep_pred()(x) {
        assert(seq![x].filter(keep_pred()) =~= seq![x]);
    }
}

/// Collect the file paths from a process argument list: skip the
/// executable name, drop the flags, keep the order.
pub fn collect_file_args(argv: &Vec<String>) -> (r: Vec<String>)
    ensures
        r.deep_view() == file_args_of(argv.deep_view()),
{
    let mut out: Vec<String> = Vec::new();
    if argv.len() == 0 {
        proof {
            assert(out.deep_view() =~= file_args_of(argv.deep_view()));
        }
        return out;
    }
    let mut i: usize = 1;
    proof {
        assert(argv.deep_view().subrange(1, 1).filter(keep_pred()) =~= Seq::<Seq<char>>::empty());
        assert(out.deep_view() =~= Seq::<Seq<char>>::empty());
    }
    while i < argv.len()
        invariant
            1 <= i <= argv@.len(),
            argv.deep_view().len() == argv@.len(),
            out.deep_view() == argv.deep_view().subrange(1, i as int).filter(keep_pred()),
        decreases argv@.len() - i,
    {
        let arg = &argv[i];
        let s = arg.as_str();
        let keep = !(s.unicode_len() > 0 && s.get_char(0) == '-');
        let ghost before = out.deep_view();
        if keep {
            out.push(arg.clone());
            proof {
                assert(out.deep_view() =~= before.push(arg@));
            }
        }
        proof {
            let upto = argv.deep_view().subrange(1, i as int);
            let next = argv.deep_view().subrange(1, i + 1);
            assert(argv.deep_view()[i as int] == arg@);
            assert(next =~= upto + seq![arg@]);
            Seq::filter_distributes_over_add(upto, seq![arg@], keep_pred());
            lemma_filter_singleton(arg@);
            assert(keep == keep_pred()(arg@));
            if keep {
                assert(out.deep_view() =~= upto.filter(keep_pred()) + seq![arg@]);
            } else {
                assert(out.deep_view() =~= upto.filter(keep_pred()) + Seq::<Seq<char>>::empty());
            }
        }
        i = i + 1;
    }
    proof {
        assert(argv.deep_view().subrange(1, argv@.len() as int) =~= argv.deep_view().skip(1));
    }
    out
}

/// Expose the canonicalized form of a launch path when one could be
/// produced, and the original string unchanged when canonicalization
/// failed: a bad path degrades gracefully instead of aborting the
/// whole file-open handling.
pub fn resolved_or_original(original: String, resolved: Option<String>) -> (r: String)
    ensures
        resolved matches Some(c) ==> r@ == c@,
        resolved is None ==> r@ == original@,
{
    match resolved {
        Some(c) => c,
        None => original,
    }
}

} // verus!
