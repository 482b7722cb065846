//! The weather, as Hive reports it for a postcode.

use vstd::prelude::*;
use vstd::string::StrSliceExecFns;
use vstd::string::StringExecFns;

verus! {

/// Whether a character is kept when a postcode is sent: everything but the
/// space is.
pub open spec fn kept(c: char) -> bool {
    c != ' '
}

/// The postcode as the weather API wants it: without its spaces, and
/// otherwise as it was written.
pub open spec fn spec_postcode_query(postcode: Seq<char>) -> Seq<char> {
    postcode.filter(|c: char| kept(c))
}

/// The postcode as the weather API wants it.
pub fn postcode_query(postcode: &str) -> (query: String)
    ensures
        query@ == spec_postcode_query(postcode@),
{
    let length = postcode.unicode_len();
    let mut query = String::new();
    let mut i: usize = 0;
    proof {
        reveal(Seq::filter);
        assert(postcode@.take(0) =~= Seq::<char>::empty());
    }
    while i < length
        invariant
            i <= length,
            length == postcode@.len(),
            query@ == spec_postcode_query(postcode@.take(i as int)),
        decreases length - i,
    {
        let c = postcode.get_char(i);
        proof {
            reveal(Seq::filter);
            let upto = postcode@.take(i as int + 1);
            assert(upto.drop_last() =~= postcode@.take(i as int));
            assert(upto.last() == c);
        }
        if c != ' ' {
            let piece = postcode.substring_char(i, i + 1);
            assert(piece@ =~= seq![c]);
            query.append(piece);
            assert(query@ =~= spec_postcode_query(postcode@.take(i as int)).push(c));
        }
        i = i + 1;
    }
    assert(postcode@.take(length as int) =~= postcode@);
    query
}

} // verus!
