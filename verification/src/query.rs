//! Query parameters, as a sequence of key/value pairs in request order.

use vstd::prelude::*;

verus! {

/// The value of the first pair whose key is `key`, if any pair has it.
pub open spec fn lookup(params: Seq<(String, String)>, key: Seq<char>) -> Option<Seq<char>>
    decreases params.len(),
{
    if params.len() == 0 {
        Option::None
    } else if params[0].0@ == key {
        Option::Some(params[0].1@)
    } else {
        lookup(params.drop_first(), key)
    }
}

/// Looks a parameter up by name; the first pair with that key wins.
pub fn get_param(params: &Vec<(String, String)>, key: &String) -> (r: Option<String>)
    ensures
        match r {
            Option::Some(v) => lookup(params@, key@) == Option::Some(v@),
            Option::None => lookup(params@, key@) is None,
        },
{
    let n = params.len();
    let mut i: usize = 0;
    proof {
        assert(params@.skip(0) =~= params@);
    }
    while i < n
        invariant
            i <= n,
            n == params@.len(),
            lookup(params@, key@) == lookup(params@.skip(i as int), key@),
        decreases n - i,
    {
        proof {
            assert(params@.skip(i as int)[0] == params@[i as int]);
            assert(params@.skip(i as int).drop_first() =~= params@.skip(i as int + 1));
        }
        if params[i].0 == *key {
            return Option::Some(params[i].1.clone());
        }
        i = i + 1;
    }
    proof {
        assert(params@.skip(n as int) =~= Seq::<(String, String)>::empty());
    }
    Option::None
}

} // verus!
