use crate::dictionary::is_first;
use crate::dictionary::Dictionary;
use vstd::prelude::*;
use vstd::string::*;

verus! {

/// The score of a team: the one on record, and 0 for a team without one.
pub fn team_score(scores: &Dictionary<i32>, team_name: &String) -> (score: i32)
    ensures
        score == match scores.lookup(team_name@) {
            Some(s) => s,
            None => 0i32,
        },
{
    match scores.get(team_name) {
        Some(s) => *s,
        None => 0,
    }
}

/// The score of team Blue on a board where Blue has 10 and Yellow has 50.
pub fn blue_score() -> (score: i32)
    ensures
        score == 10,
{
    let mut scores: Dictionary<i32> = Dictionary::new();
    proof {
        reveal_strlit("Blue");
        reveal_strlit("Yellow");
    }
    scores.insert("Blue".to_owned(), 10);
    scores.insert("Yellow".to_owned(), 50);
    let team_name: String = "Blue".to_owned();
    proof {
        scores.lemma_paired();
        assert("Blue"@ != "Yellow"@) by {
            assert("Blue"@.len() != "Yellow"@.len());
        }
        assert(scores.keys() =~= seq!["Blue"@, "Yellow"@]);
        assert(scores.values() =~= seq![10i32, 50i32]);
        assert(is_first(scores.keys(), team_name@, 0));
    }
    team_score(&scores, &team_name)
}

} // verus!
