//! Turning caller-supplied identifier lists into the comma-joined form the
//! query string carries.

use vstd::prelude::*;
use vstd::string::StringExecFns;

verus! {

/// The items joined with a single comma between neighbours, in order.
pub open spec fn comma_join(items: Seq<Seq<char>>) -> Seq<char>
    decreases items.len(),
{
    if items.len() == 0 {
        Seq::empty()
    } else if items.len() == 1 {
        items[0]
    } else {
        comma_join(items.drop_last()) + ","@ + items.last()
    }
}

/// Joins the arguments with commas, in the order supplied: no deduplication,
/// no sorting, no escaping.
pub fn parse_str_args(args: &Vec<String>) -> (r: String)
    ensures
        r@ == comma_join(args.deep_view()),
{
    let ghost items = args.deep_view();
    let mut r = String::new();
    let mut i: usize = 0;
    while i < args.len()
        invariant
            0 <= i <= args.len(),
            items == args.deep_view(),
            items.len() == args.len(),
            r@ == comma_join(items.take(i as int)),
        decreases args.len() - i,
    {
        if i > 0 {
            r.append(",");
        }
        r.append(args[i].as_str());
        proof {
            let t = items.take(i + 1 as int);
            assert(t.drop_last() =~= items.take(i as int));
            assert(t.last() == items[i as int]);
            if i == 0 {
                assert(r@ =~= comma_join(t));
            } else {
                assert(r@ =~= comma_join(t));
            }
        }
        i += 1;
    }
    proof {
        assert(items.take(args.len() as int) =~= items);
    }
    r
}

} // verus!
