//! The raw argument bag of one invocation: an ordered list of (flag, value)
//! pairs.  Lookup takes the first occurrence of a flag; a repeatable flag is
//! read with [`lookup_all`].

use vstd::prelude::*;

verus! {

use vstd::string::StringSliceAdditionalSpecFns;
use crate::errors::{string_bytes, strings_bytes};

/// The bytes of every (flag, value) pair of an argument bag.
pub open spec fn args_view(args: Seq<(String, String)>) -> Seq<(Seq<u8>, Seq<u8>)> {
    args.map(|i: int, p: (String, String)| (string_bytes(p.0), string_bytes(p.1)))
}

/// The value of the first pair whose flag is `name`, if any.
pub open spec fn lookup(args: Seq<(Seq<u8>, Seq<u8>)>, name: Seq<u8>) -> Option<Seq<u8>>
    decreases args.len(),
{
    if args.len() == 0 {
        None
    } else if args[0].0 == name {
        Some(args[0].1)
    } else {
        lookup(args.skip(1), name)
    }
}

/// The values of every pair whose flag is `name`, in order.
pub open spec fn lookup_all(args: Seq<(Seq<u8>, Seq<u8>)>, name: Seq<u8>) -> Seq<Seq<u8>>
    decreases args.len(),
{
    if args.len() == 0 {
        Seq::empty()
    } else if args[0].0 == name {
        seq![args[0].1] + lookup_all(args.skip(1), name)
    } else {
        lookup_all(args.skip(1), name)
    }
}

/// Appending a pair for a fresh flag does not change the lookup of other
/// flags, and resolves the fresh flag to the appended value.
pub proof fn lemma_lookup_push(args: Seq<(Seq<u8>, Seq<u8>)>, name: Seq<u8>, pair: (Seq<u8>, Seq<u8>))
    ensures
        lookup(args.push(pair), name) == if lookup(args, name) is Some {
            lookup(args, name)
        } else if pair.0 == name {
            Some(pair.1)
        } else {
            None
        },
    decreases args.len(),
{
    if args.len() == 0 {
        assert(args.push(pair).len() == 1);
        assert(args.push(pair)[0] == pair);
        assert(args.push(pair).skip(1) =~= Seq::<(Seq<u8>, Seq<u8>)>::empty());
        if pair.0 == name {
            assert(lookup(args.push(pair), name) == Some(pair.1));
        } else {
            assert(lookup(args.push(pair), name) == lookup(args.push(pair).skip(1), name));
            assert(lookup(args.push(pair), name) is None);
        }
        assert(lookup(args, name) is None);
    } else {
        assert(args.push(pair)[0] == args[0]);
        assert(args.push(pair).skip(1) =~= args.skip(1).push(pair));
        lemma_lookup_push(args.skip(1), name, pair);
        if args[0].0 == name {
            assert(lookup(args.push(pair), name) == Some(args[0].1));
            assert(lookup(args, name) == Some(args[0].1));
        } else {
            assert(lookup(args.push(pair), name) == lookup(args.skip(1).push(pair), name));
            assert(lookup(args, name) == lookup(args.skip(1), name));
        }
    }
}

/// Appending a pair for a different flag does not change `lookup_all`.
pub proof fn lemma_lookup_all_push(
    args: Seq<(Seq<u8>, Seq<u8>)>,
    name: Seq<u8>,
    pair: (Seq<u8>, Seq<u8>),
)
    requires
        pair.0 != name,
    ensures
        lookup_all(args.push(pair), name) == lookup_all(args, name),
    decreases args.len(),
{
    if args.len() == 0 {
        assert(args.push(pair).len() == 1);
        assert(args.push(pair)[0] == pair);
        assert(args.push(pair).skip(1) =~= Seq::<(Seq<u8>, Seq<u8>)>::empty());
        assert(lookup_all(args.push(pair), name) == lookup_all(
            args.push(pair).skip(1),
            name,
        ));
        assert(lookup_all(args.push(pair), name) =~= Seq::<Seq<u8>>::empty());
        assert(lookup_all(args, name) =~= Seq::<Seq<u8>>::empty());
    } else {
        assert(args.push(pair)[0] == args[0]);
        assert(args.push(pair).skip(1) =~= args.skip(1).push(pair));
        lemma_lookup_all_push(args.skip(1), name, pair);
        if args[0].0 == name {
            assert(lookup_all(args.push(pair), name) == seq![args[0].1] + lookup_all(
                args.skip(1).push(pair),
                name,
            ));
            assert(lookup_all(args, name) == seq![args[0].1] + lookup_all(args.skip(1), name));
        } else {
            assert(lookup_all(args.push(pair), name) == lookup_all(args.skip(1).push(pair), name));
            assert(lookup_all(args, name) == lookup_all(args.skip(1), name));
        }
    }
}

/// Finds the first value supplied for the flag `name`.
pub fn find_arg<'a>(args: &'a Vec<(String, String)>, name: &str) -> (r: Option<&'a String>)
    ensures
        match r {
            Some(v) => lookup(args_view(args@), name.spec_bytes()) == Some(string_bytes(*v)),
            None => lookup(args_view(args@), name.spec_bytes()) is None,
        },
{
    let n: usize = args.len();
    let mut i: usize = 0;
    proof {
        assert(args_view(args@).skip(0) =~= args_view(args@));
    }
    while i < n
        invariant
            0 <= i <= n,
            n == args@.len(),
            lookup(args_view(args@), name.spec_bytes()) == lookup(
                args_view(args@).skip(i as int),
                name.spec_bytes(),
            ),
        decreases n - i,
    {
        let (flag, value) = &args[i];
        if crate::validate::bytes_eq(flag.as_str().as_bytes(), name.as_bytes()) {
            proof {
                assert(args_view(args@).skip(i as int)[0] == (
                    string_bytes(args@[i as int].0),
                    string_bytes(args@[i as int].1),
                ));
            }
            return Some(value);
        }
        proof {
            assert(args_view(args@).skip(i as int).skip(1) =~= args_view(args@).skip(i + 1));
            assert(args_view(args@).skip(i as int)[0] == (
                string_bytes(args@[i as int].0),
                string_bytes(args@[i as int].1),
            ));
        }
        i += 1;
    }
    proof {
        assert(args_view(args@).skip(n as int) =~= Seq::<(Seq<u8>, Seq<u8>)>::empty());
    }
    None
}

/// Collects every value supplied for the flag `name`, in order.
pub fn find_args(args: &Vec<(String, String)>, name: &str) -> (r: Vec<String>)
    ensures
        strings_bytes(r@) == lookup_all(args_view(args@), name.spec_bytes()),
{
    let n: usize = args.len();
    let mut out: Vec<String> = Vec::new();
    let mut i: usize = 0;
    proof {
        assert(args_view(args@).skip(0) =~= args_view(args@));
        assert(Seq::<Seq<u8>>::empty() + lookup_all(args_view(args@), name.spec_bytes())
            =~= lookup_all(args_view(args@), name.spec_bytes()));
        assert(strings_bytes(out@) =~= Seq::<Seq<u8>>::empty());
    }
    while i < n
        invariant
            0 <= i <= n,
            n == args@.len(),
            lookup_all(args_view(args@), name.spec_bytes()) == strings_bytes(out@)
                + lookup_all(args_view(args@).skip(i as int), name.spec_bytes()),
        decreases n - i,
    {
        let (flag, value) = &args[i];
        proof {
            assert(args_view(args@).skip(i as int).skip(1) =~= args_view(args@).skip(i + 1));
            assert(args_view(args@).skip(i as int)[0] == (
                string_bytes(args@[i as int].0),
                string_bytes(args@[i as int].1),
            ));
        }
        if crate::validate::bytes_eq(flag.as_str().as_bytes(), name.as_bytes()) {
            let ghost prev = out@;
            out.push(value.clone());
            proof {
                assert(strings_bytes(out@) =~= strings_bytes(prev).push(
                    string_bytes(args@[i as int].1),
                ));
                assert(strings_bytes(prev).push(string_bytes(args@[i as int].1)) + lookup_all(
                    args_view(args@).skip(i + 1),
                    name.spec_bytes(),
                ) =~= strings_bytes(prev) + (seq![string_bytes(args@[i as int].1)] + lookup_all(
                    args_view(args@).skip(i + 1),
                    name.spec_bytes(),
                )));
            }
        }
        i += 1;
    }
    proof {
        assert(args_view(args@).skip(n as int) =~= Seq::<(Seq<u8>, Seq<u8>)>::empty());
        assert(strings_bytes(out@) + Seq::<Seq<u8>>::empty() =~= strings_bytes(out@));
    }
    out
}

} // verus!
