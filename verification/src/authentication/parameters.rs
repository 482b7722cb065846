//! The named parameters that the identity provider sends with a challenge.

use crate::authentication::error::AuthenticationError;
use crate::authentication::error::AuthenticationErrorView;
use vstd::prelude::*;

verus! {

/// The map that a list of name-value pairs stands for: a later pair
/// replaces an earlier one of the same name.
pub open spec fn pairs_to_map(pairs: Seq<(Seq<char>, Seq<char>)>) -> Map<Seq<char>, Seq<char>>
    decreases pairs.len(),
{
    if pairs.len() == 0 {
        Map::empty()
    } else {
        pairs_to_map(pairs.drop_last()).insert(pairs.last().0, pairs.last().1)
    }
}

/// The value that `map` holds under `name`, if any.
pub open spec fn lookup(map: Map<Seq<char>, Seq<char>>, name: Seq<char>) -> Option<Seq<char>> {
    if map.contains_key(name) {
        Some(map[name])
    } else {
        None
    }
}

/// The parameters of one challenge, by name. Names are matched exactly.
#[derive(Debug)]
pub struct ChallengeParameters {
    entries: Vec<(String, String)>,
}

impl View for ChallengeParameters {
    type V = Map<Seq<char>, Seq<char>>;

    closed spec fn view(&self) -> Map<Seq<char>, Seq<char>> {
        pairs_to_map(self.entries.deep_view())
    }
}

impl DeepView for ChallengeParameters {
    type V = Map<Seq<char>, Seq<char>>;

    open spec fn deep_view(&self) -> Map<Seq<char>, Seq<char>> {
        self@
    }
}

impl ChallengeParameters {
    /// No parameters at all.
    #[must_use]
    pub fn new() -> (parameters: Self)
        ensures
            parameters@ == Map::<Seq<char>, Seq<char>>::empty(),
    {
        let parameters = Self { entries: Vec::new() };
        assert(parameters.entries.deep_view() =~= Seq::empty());
        parameters
    }

    /// The parameters that a list of pairs stands for.
    #[must_use]
    pub fn from_pairs(pairs: Vec<(String, String)>) -> (parameters: Self)
        ensures
            parameters@ == pairs_to_map(pairs.deep_view()),
    {
        Self { entries: pairs }
    }

    /// Sets the parameter `name` to `value`, replacing what was there.
    pub fn insert(&mut self, name: &str, value: &str)
        ensures
            final(self)@ == old(self)@.insert(name@, value@),
    {
        let ghost before = self.entries.deep_view();
        self.entries.push((name.to_owned(), value.to_owned()));
        proof {
            let after = self.entries.deep_view();
            assert(after.drop_last() =~= before);
            assert(after.last() == (name@, value@));
        }
    }

    /// The value of the parameter `name`, if the provider sent one.
    pub fn get(&self, name: &str) -> (value: Option<&String>)
        ensures
            value.deep_view() == lookup(self@, name@),
    {
        let wanted = name.to_owned();
        let ghost all = self.entries.deep_view();
        let mut i: usize = self.entries.len();
        assert(all.take(i as int) =~= all);
        while i > 0
            invariant
                i <= self.entries.len(),
                all == self.entries.deep_view(),
                wanted@ == name@,
                lookup(pairs_to_map(all), name@) == lookup(pairs_to_map(all.take(i as int)), name@),
            decreases i,
        {
            i = i - 1;
            proof {
                let upto = all.take(i as int + 1);
                assert(upto.drop_last() =~= all.take(i as int));
                assert(upto.last() == all[i as int]);
                assert(all[i as int] == self.entries@[i as int].deep_view());
            }
            if self.entries[i].0 == wanted {
                return Some(&self.entries[i].1);
            }
        }
        proof {
            assert(all.take(0) =~= Seq::empty());
        }
        None
    }

    /// What [`ChallengeParameters::require`] returns: the value under
    /// `name`, or the error that names the missing parameter.
    pub open spec fn spec_require(map: Map<Seq<char>, Seq<char>>, name: Seq<char>) -> Result<
        Seq<char>,
        AuthenticationErrorView,
    > {
        match lookup(map, name) {
            Some(value) => Ok(value),
            None => Err(AuthenticationErrorView::MissingChallengeParameter(name)),
        }
    }

    /// A copy of the value of the parameter `name`. A parameter that the
    /// provider did not send is an error that names it: nothing stands in
    /// for a missing value.
    pub fn require(&self, name: &str) -> (value: Result<String, AuthenticationError>)
        ensures
            match value {
                Ok(v) => Self::spec_require(self@, name@) == Ok::<Seq<char>, AuthenticationErrorView>(v@),
                Err(e) => Self::spec_require(self@, name@) == Err::<Seq<char>, AuthenticationErrorView>(e@),
            },
    {
        match self.get(name) {
            Some(value) => Ok(value.clone()),
            None => Err(AuthenticationError::MissingChallengeParameter(name.to_owned())),
        }
    }
}

/// A parameter that was set is found again, and setting one leaves the
/// others as they were.
pub proof fn lemma_insert_then_lookup(
    map: Map<Seq<char>, Seq<char>>,
    name: Seq<char>,
    value: Seq<char>,
    other: Seq<char>,
)
    ensures
        lookup(map.insert(name, value), name) == Some(value),
        other != name ==> lookup(map.insert(name, value), other) == lookup(map, other),
{
}

} // verus!
